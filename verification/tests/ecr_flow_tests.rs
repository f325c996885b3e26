use stool::command::{CommandPlan, Input, RunEvent};
use stool::config::EcrRegistry;
use stool::ecr_flows::{ecr_login, push_to_ecr, LoginState, PushState};
use stool::error::StoolErrorType;
use stool::flows::{Prompt, Reply, Step};

fn s(x: &str) -> String {
    x.to_string()
}

fn registry(images: &[&str], sso: Option<&str>) -> EcrRegistry {
    EcrRegistry {
        name: s("Prod"),
        account_id: s("123456789012"),
        region: s("ap-northeast-2"),
        images: images.iter().map(|i| s(i)).collect(),
        sso_profile: sso.map(s),
    }
}

/// What a scripted run of a machine produced.
struct Trace {
    lines: Vec<String>,
    commands: Vec<(String, Vec<String>)>,
    result: Result<(), StoolErrorType>,
}

fn record(plan: &CommandPlan, trace: &mut Trace) {
    trace.commands.push((plan.program.clone(), plan.args.clone()));
}

fn run_push(regs: &[EcrRegistry], mut replies: Vec<Reply>) -> Trace {
    let mut trace = Trace { lines: vec![], commands: vec![], result: Ok(()) };
    replies.reverse();
    let mut state = PushState::Start;
    let mut reply = Reply::Begin;
    loop {
        match push_to_ecr(regs, state, reply) {
            Step::Ask { next, notices, .. } => {
                trace.lines.extend(notices);
                state = next;
            }
            Step::Run { next, notices, plan } => {
                trace.lines.extend(notices);
                record(&plan, &mut trace);
                state = next;
            }
            Step::Finish { notices, result } => {
                trace.lines.extend(notices);
                trace.result = result.map_err(|e| e.error_type);
                return trace;
            }
        }
        reply = replies.pop().expect("the machine asked for more than the script holds");
    }
}

fn run_login(regs: &[EcrRegistry], mut replies: Vec<Reply>) -> Trace {
    let mut trace = Trace { lines: vec![], commands: vec![], result: Ok(()) };
    replies.reverse();
    let mut state = LoginState::Start;
    let mut reply = Reply::Begin;
    loop {
        match ecr_login(regs, state, reply) {
            Step::Ask { next, notices, .. } => {
                trace.lines.extend(notices);
                state = next;
            }
            Step::Run { next, notices, plan } => {
                trace.lines.extend(notices);
                if let Input::Feed(pw) = &plan.input {
                    trace.lines.push(format!("stdin: {}", pw));
                }
                record(&plan, &mut trace);
                state = next;
            }
            Step::Finish { notices, result } => {
                trace.lines.extend(notices);
                trace.result = result.map_err(|e| e.error_type);
                return trace;
            }
        }
        reply = replies.pop().expect("the machine asked for more than the script holds");
    }
}

fn ok() -> Reply {
    Reply::Ran(RunEvent::Exited(true))
}

fn out(success: bool, text: &str) -> Reply {
    Reply::Output(RunEvent::Exited(success), s(text))
}

#[test]
fn push_with_current_version_minor() {
    let regs = vec![registry(&["api"], None)];
    let t = run_push(
        &regs,
        vec![
            Reply::Picked(0),
            Reply::Picked(0),
            ok(),
            out(true, "1.4.2\n"),
            Reply::Picked(2),
            ok(),
            ok(),
            ok(),
            ok(),
        ],
    );
    assert_eq!(t.result, Ok(()));
    let url = "123456789012.dkr.ecr.ap-northeast-2.amazonaws.com";
    assert_eq!(
        t.lines,
        vec![
            s("Building Docker image: api:latest"),
            s("Build completed successfully"),
            s("Tagging image: api:latest"),
            s("Tagging image: api:1.4.3"),
            format!("Pushing {}/api:latest", url),
            format!("Pushing {}/api:1.4.3", url),
            s("Push completed successfully"),
        ]
    );
    assert_eq!(t.commands[1].0, "aws");
    assert_eq!(t.commands[5].1, vec![s("push"), format!("{}/api:1.4.3", url)]);
}

#[test]
fn push_first_version_sends_both_tags() {
    let regs = vec![registry(&[], None)];
    let t = run_push(
        &regs,
        vec![
            Reply::Picked(0),
            Reply::Typed(s("web")),
            ok(),
            out(false, ""),
            Reply::Picked(1),
            ok(),
            ok(),
            ok(),
            ok(),
        ],
    );
    assert_eq!(t.result, Ok(()));
    assert_eq!(t.commands.len(), 6);
    let url = "123456789012.dkr.ecr.ap-northeast-2.amazonaws.com";
    assert_eq!(t.commands[4].1, vec![s("push"), format!("{}/web:latest", url)]);
    assert_eq!(t.commands[5].1, vec![s("push"), format!("{}/web:0.1.0", url)]);
    assert_eq!(t.lines.last().unwrap(), "Push completed successfully");
}

#[test]
fn push_stops_at_failed_push() {
    let regs = vec![registry(&["api"], None)];
    let t = run_push(
        &regs,
        vec![
            Reply::Picked(0),
            Reply::Picked(0),
            ok(),
            out(true, "None"),
            Reply::Picked(1),
            ok(),
            Reply::Ran(RunEvent::Exited(false)),
        ],
    );
    assert_eq!(t.result, Err(StoolErrorType::CommandExecutionFailed));
    assert!(!t.lines.contains(&s("Push completed successfully")));
}

#[test]
fn push_without_registries() {
    let t = run_push(&[], vec![]);
    assert_eq!(t.result, Err(StoolErrorType::ConfigLoadFailed));
}

#[test]
fn login_with_expired_sso_session() {
    let regs = vec![registry(&[], Some("prod-sso"))];
    let t = run_login(
        &regs,
        vec![
            out(true, "/usr/bin/aws"),
            out(true, "/usr/bin/docker"),
            Reply::Picked(0),
            out(false, ""),
            ok(),
            out(true, "s3cr3t\n"),
            ok(),
        ],
    );
    assert_eq!(t.result, Ok(()));
    let programs: Vec<&str> = t.commands.iter().map(|c| c.0.as_str()).collect();
    assert_eq!(programs, vec!["which", "which", "aws", "aws", "aws", "docker"]);
    assert_eq!(t.commands[3].1, vec!["sso", "login", "--profile", "prod-sso"]);
    assert_eq!(
        t.commands[4].1,
        vec!["ecr", "get-login-password", "--region", "ap-northeast-2", "--profile", "prod-sso"]
    );
    assert!(t.lines.contains(&s("SSO session expired. Logging in...")));
    assert!(t.lines.contains(&s("stdin: s3cr3t")));
    assert_eq!(
        t.lines.last().unwrap(),
        "Successfully logged in to ECR registry: 123456789012.dkr.ecr.ap-northeast-2.amazonaws.com"
    );
}

#[test]
fn login_manual_registry_and_missing_docker() {
    let regs = vec![registry(&[], None)];
    let t = run_login(&regs, vec![out(true, ""), out(false, "")]);
    assert_eq!(t.result, Err(StoolErrorType::DockerNotInstalled));

    let t = run_login(
        &regs,
        vec![
            out(true, ""),
            out(true, ""),
            Reply::Picked(1),
            Reply::Typed(s("999")),
            Reply::Typed(s("us-east-1")),
            out(true, "pw"),
            ok(),
        ],
    );
    assert_eq!(t.result, Ok(()));
    assert_eq!(t.commands[2].1, vec!["ecr", "get-login-password", "--region", "us-east-1"]);
    assert_eq!(t.commands[3].1[4], "999.dkr.ecr.us-east-1.amazonaws.com");
}

#[test]
fn login_cancel() {
    let regs = vec![registry(&[], None)];
    let t = run_login(&regs, vec![out(true, ""), out(true, ""), Reply::Picked(2)]);
    assert_eq!(t.result, Ok(()));
    assert_eq!(t.commands.len(), 2);
}

#[test]
fn push_version_menu_preselects_minor() {
    let regs = vec![registry(&["api"], None)];
    let mut state = PushState::Start;
    let mut replies = vec![
        Reply::Begin,
        Reply::Picked(0),
        Reply::Picked(0),
        ok(),
        out(true, "0.1.0\n"),
    ];
    replies.reverse();
    let prompt = loop {
        let reply = replies.pop().unwrap();
        match push_to_ecr(&regs, state, reply) {
            Step::Ask { next, prompt, .. } => {
                if replies.is_empty() {
                    break prompt;
                }
                state = next;
            }
            Step::Run { next, .. } => state = next,
            Step::Finish { .. } => panic!("ended early"),
        }
    };
    match prompt {
        Prompt::Choose { title, items, default } => {
            assert_eq!(title, "Select version type:");
            assert_eq!(items, vec!["1. major (1.0.0)", "2. middle (0.2.0)", "3. minor (0.1.1)"]);
            assert_eq!(items[default], "3. minor (0.1.1)");
        }
        _ => panic!("expected the version menu"),
    }
}
