use stool::aws::{
    docker_login_plan, ecr_login_menu, ecr_login_notice, login_password, login_password_plan,
    manual_sso_config, menu_choice, select_ecr_registry, select_sso_config, select_sso_profile,
    sso_config_addition, sso_menu, MenuChoice, ProfilePick, RegistryPick, SsoPick,
};
use stool::command::{CommandPlan, Input, RunEvent};
use stool::config::{EcrRegistry, Server, SsoConfig};
use stool::docker::{
    build_image_plan, describe_images_plan, image_choice, image_menu, latest_version_from_output,
    new_version, push_steps, registry_menu, version_fits, version_menu, Version, VersionIncrement,
    VERSION_DEFAULT,
};
use stool::error::StoolErrorType;
use stool::filesystem::{
    classify_pattern, count_report, find_report, glob_to_regex, is_hidden_dir, matches_glob,
    name_matches, searching_notice,
};
use stool::flows::{BuildState, ConnectState, Prompt, Reply, Step, TransferState};
use stool::interactive::{
    configured_server, manual_server, needs_password_prompt, server_choice, server_menu,
    with_entered_password, ServerChoice,
};
use stool::quick::{quick_menu, quick_plan};
use stool::transfer::{download_paths, mode_choice, mode_menu, upload_paths, TransferMode};
use stool::update::{update_all_result, update_target, UpdateTarget};

fn s(x: &str) -> String {
    x.to_string()
}

fn server(name: &str, ip: &str, user: &str, password: Option<&str>, key: Option<&str>) -> Server {
    Server {
        name: s(name),
        ip: s(ip),
        user: s(user),
        password: password.map(s),
        key_path: key.map(s),
    }
}

fn registry(name: &str, account: &str, region: &str, images: &[&str], sso: Option<&str>) -> EcrRegistry {
    EcrRegistry {
        name: s(name),
        account_id: s(account),
        region: s(region),
        images: images.iter().map(|i| s(i)).collect(),
        sso_profile: sso.map(s),
    }
}

fn sso(profile: &str, session: &str) -> SsoConfig {
    SsoConfig {
        profile_name: s(profile),
        sso_session_name: s(session),
        start_url: s("https://start"),
        region: s("ap-northeast-2"),
        sso_account_id: s("123"),
        sso_role_name: s("Admin"),
        output_format: s("json"),
    }
}

fn args_of(p: &CommandPlan) -> Vec<&str> {
    p.args.iter().map(|a| a.as_str()).collect()
}

// ----------------------------------------------------------------------------
// versions
// ----------------------------------------------------------------------------

#[test]
fn version_parse() {
    assert_eq!(Version::parse("1.2.3"), Some(Version { major: 1, middle: 2, minor: 3 }));
    assert_eq!(Version::parse("+1.02.3"), Some(Version { major: 1, middle: 2, minor: 3 }));
    assert_eq!(Version::parse("1.2"), None);
    assert_eq!(Version::parse("1.2.3.4"), None);
    assert_eq!(Version::parse("v1.2.3"), None);
    assert_eq!(Version::parse("latest"), None);
    assert_eq!(Version::parse("1.2.4294967296"), None);
}

#[test]
fn version_increments_from_readme() {
    let v = Version { major: 0, middle: 1, minor: 0 };
    assert_eq!(v.increment(VersionIncrement::Major), "1.0.0");
    assert_eq!(v.increment(VersionIncrement::Middle), "0.2.0");
    assert_eq!(v.increment(VersionIncrement::Minor), "0.1.1");
    assert_eq!(v.increment(VersionIncrement::Latest), "latest");
    let w = Version { major: 3, middle: 9, minor: 41 };
    assert_eq!(w.increment(VersionIncrement::Minor), "3.9.42");
    assert_eq!(w.increment(VersionIncrement::Middle), "3.10.0");
}

#[test]
fn incremented_tag_parses_back() {
    let v = Version { major: 7, middle: 0, minor: 12 };
    let t = v.increment(VersionIncrement::Minor);
    assert_eq!(Version::parse(&t), Some(Version { major: 7, middle: 0, minor: 13 }));
    let t = v.increment(VersionIncrement::Major);
    assert_eq!(Version::parse(&t), Some(Version { major: 8, middle: 0, minor: 0 }));
}

#[test]
fn version_menu_without_current_tag() {
    assert_eq!(
        version_menu(None),
        vec!["1. major (1.0.0)", "2. middle (0.1.0)", "3. minor (0.0.1)"]
    );
    assert_eq!(new_version(None, 0).unwrap(), "1.0.0");
    assert_eq!(new_version(None, 1).unwrap(), "0.1.0");
    assert_eq!(new_version(None, 2).unwrap(), "0.0.1");
    assert_eq!(new_version(None, 3).unwrap_err().error_type, StoolErrorType::InvalidInput);
}

#[test]
fn version_menu_with_current_tag() {
    assert_eq!(
        version_menu(Some("1.4.2")),
        vec!["1. major (2.0.0)", "2. middle (1.5.0)", "3. minor (1.4.3)"]
    );
    // The preselected entry is minor.
    assert_eq!(VERSION_DEFAULT, 2);
    assert_eq!(new_version(Some("1.4.2"), VERSION_DEFAULT).unwrap(), "1.4.3");
    assert_eq!(new_version(Some("1.4.2"), 0).unwrap(), "2.0.0");
    // An unreadable tag counts as 0.1.0.
    assert_eq!(new_version(Some("release"), 0).unwrap(), "1.0.0");
    assert_eq!(new_version(Some("release"), 1).unwrap(), "0.2.0");
    assert_eq!(new_version(Some("0.1.0"), VERSION_DEFAULT).unwrap(), "0.1.1");
    assert!(version_fits(Some("1.2.3")));
    assert!(!version_fits(Some("1.2.4294967295")));
    assert!(version_fits(None));
}

#[test]
fn latest_version_reading() {
    assert_eq!(latest_version_from_output(false, "1.0.0"), None);
    assert_eq!(latest_version_from_output(true, "  \n"), None);
    assert_eq!(latest_version_from_output(true, "None\n"), None);
    assert_eq!(latest_version_from_output(true, " 1.2.3\n"), Some(s("1.2.3")));
}

#[test]
fn docker_commands() {
    let (before, plan, after) = build_image_plan("app");
    assert_eq!(before, "Building Docker image: app:latest");
    assert_eq!(after, "Build completed successfully");
    assert_eq!(plan.program, "docker");
    assert_eq!(
        args_of(&plan),
        vec!["build", "--platform", "linux/arm64", "--provenance=false", "--sbom=false", "-t", "app:latest", "."]
    );
    let e = plan.outcome(&RunEvent::Exited(false)).unwrap_err();
    assert_eq!(e.error_type, StoolErrorType::CommandExecutionFailed);
    assert_eq!(
        e.message.as_deref(),
        Some("Docker command failed: docker build --platform linux/arm64 --provenance=false --sbom=false -t app:latest .")
    );
    let e = plan.outcome(&RunEvent::SpawnFailed(s("x"))).unwrap_err();
    assert!(e.message.as_deref().unwrap().starts_with("Failed to execute docker build"));

    let p = describe_images_plan("app", "eu-west-1");
    assert_eq!(p.program, "aws");
    assert!(matches!(p.input, Input::Capture));
    assert_eq!(args_of(&p)[3], "app");
    assert_eq!(args_of(&p)[7], "sort_by(imageDetails,& imagePushedAt)[-1].imageTags[0]");
}

#[test]
fn push_steps_for_version_and_latest() {
    let url = "1.dkr.ecr.eu.amazonaws.com";
    let steps = push_steps(url, "app", "1.2.0");
    let lines: Vec<&str> = steps.iter().map(|st| st.notice.as_str()).collect();
    assert_eq!(
        lines,
        vec![
            "Tagging image: app:latest",
            "Tagging image: app:1.2.0",
            "Pushing 1.dkr.ecr.eu.amazonaws.com/app:latest",
            "Pushing 1.dkr.ecr.eu.amazonaws.com/app:1.2.0",
        ]
    );
    assert_eq!(args_of(&steps[1].plan), vec!["tag", "app:latest", "1.dkr.ecr.eu.amazonaws.com/app:1.2.0"]);
    assert_eq!(args_of(&steps[3].plan), vec!["push", "1.dkr.ecr.eu.amazonaws.com/app:1.2.0"]);
    assert_eq!(push_steps(url, "app", "0.0.1").len(), 4);
}

#[test]
fn registry_and_image_menus() {
    let regs = vec![registry("Prod", "123456789012", "ap-northeast-2", &["api"], None)];
    assert_eq!(registry_menu(&regs), vec!["1. Prod (123456789012.dkr.ecr.ap-northeast-2.amazonaws.com)"]);
    assert_eq!(image_menu(&vec![s("a"), s("b")]), vec!["1. a", "2. b", "3. Manual input"]);
    assert_eq!(image_choice(2, 1), Some(1));
    assert_eq!(image_choice(2, 2), None);
}

// ----------------------------------------------------------------------------
// menus and servers
// ----------------------------------------------------------------------------

#[test]
fn server_menu_entries() {
    let servers = vec![
        server("Production Server", "192.168.1.100", "admin", Some("pw"), None),
        server("Dev", "10.0.0.2", "dev", None, Some("~/.ssh/id_rsa")),
    ];
    assert_eq!(
        server_menu(&servers),
        vec![
            "1. Production Server (admin@192.168.1.100)",
            "2. Dev (dev@10.0.0.2)",
            "Manual input",
            "Cancel",
        ]
    );
    assert!(matches!(server_choice(2, 3), ServerChoice::Cancel));
    assert!(matches!(server_choice(2, 2), ServerChoice::Manual));
    assert!(matches!(server_choice(2, 1), ServerChoice::Configured(1)));
    let (notice, info) = configured_server(&servers[0]);
    assert_eq!(notice, "Selected server: Production Server (192.168.1.100)");
    assert_eq!(info.password.as_deref(), Some("pw"));
    assert!(!needs_password_prompt(&info));
    let (notice, info) = manual_server(s("me"), s("1.2.3.4"));
    assert_eq!(notice, "Target: me@1.2.3.4");
    assert!(needs_password_prompt(&info));
    let kept = with_entered_password(info, s(""));
    assert!(kept.password.is_none());
    let set = with_entered_password(kept, s("x"));
    assert_eq!(set.password.as_deref(), Some("x"));
}

#[test]
fn menus_with_exits() {
    assert!(matches!(menu_choice(2, 3), Ok(MenuChoice::Cancel)));
    assert!(matches!(menu_choice(2, 2), Ok(MenuChoice::Manual)));
    assert!(matches!(menu_choice(2, 0), Ok(MenuChoice::Chosen(0))));
    assert_eq!(menu_choice(2, 4).err().unwrap().error_type, StoolErrorType::InvalidInput);
    let configs = vec![sso("dev", "corp"), sso("prod", "corp")];
    assert_eq!(sso_menu(&configs), vec!["1. dev", "2. prod", "3. Manual input", "4. Cancel"]);
    match select_sso_config(&configs, 1) {
        Ok(SsoPick::Chosen(c)) => assert_eq!(c.profile_name, "prod"),
        _ => panic!("expected a profile"),
    }
    assert!(matches!(select_sso_config(&configs, 2), Ok(SsoPick::Manual)));
    assert!(matches!(select_sso_profile(&configs, 3), Ok(ProfilePick::Cancel)));
    match select_sso_profile(&configs, 0) {
        Ok(ProfilePick::Chosen(p)) => assert_eq!(p, "dev"),
        _ => panic!("expected a profile name"),
    }
    let m = manual_sso_config(s("p"), s("s"), s("u"), s("r"), s("a"), s("role"));
    assert_eq!(m.output_format, "json");
}

#[test]
fn ecr_login_pieces() {
    let regs = vec![
        registry("Prod", "1", "eu", &[], Some("prod-sso")),
        registry("Dev", "2", "us", &[], None),
    ];
    assert_eq!(
        ecr_login_menu(&regs),
        vec![
            "1. Prod (1.dkr.ecr.eu.amazonaws.com) [SSO]",
            "2. Dev (2.dkr.ecr.us.amazonaws.com)",
            "3. Manual input",
            "4. Cancel",
        ]
    );
    match select_ecr_registry(&regs, 0) {
        Ok(RegistryPick::Chosen(t)) => {
            assert_eq!(t.account_id, "1");
            assert_eq!(t.sso_profile.as_deref(), Some("prod-sso"));
        }
        _ => panic!("expected a registry"),
    }
    assert!(matches!(select_ecr_registry(&regs, 2), Ok(RegistryPick::Manual)));
    let p = login_password_plan("eu", Some("prod-sso"));
    assert_eq!(args_of(&p), vec!["ecr", "get-login-password", "--region", "eu", "--profile", "prod-sso"]);
    assert_eq!(args_of(&login_password_plan("eu", None)).len(), 4);
    assert_eq!(login_password("secret\n"), "secret");
    let d = docker_login_plan("1.dkr.ecr.eu.amazonaws.com", s("secret"));
    assert_eq!(args_of(&d), vec!["login", "--username", "AWS", "--password-stdin", "1.dkr.ecr.eu.amazonaws.com"]);
    assert!(matches!(&d.input, Input::Feed(pw) if pw == "secret"));
    assert_eq!(
        d.outcome(&RunEvent::Exited(false)).unwrap_err().message.as_deref(),
        Some("Docker login failed")
    );
    assert_eq!(ecr_login_notice("1", "eu"), "Successfully logged in to ECR registry: 1.dkr.ecr.eu.amazonaws.com");
}

#[test]
fn sso_profile_text() {
    let c = sso("dev", "corp");
    let parts = sso_config_addition("", &c).unwrap();
    let added = format!("{}{}", parts.profile, parts.session.clone().unwrap());
    assert_eq!(
        added,
        "\n[profile dev]\nsso_session = corp\nsso_account_id = 123\nsso_role_name = Admin\nregion = ap-northeast-2\noutput = json\n\
\n[sso-session corp]\nsso_start_url = https://start\nsso_region = ap-northeast-2\nsso_registration_scopes = sso:account:access\n"
    );
    // A second write adds nothing.
    assert!(sso_config_addition(&added, &c).is_none());
    // A known session is not repeated.
    let other = sso("prod", "corp");
    let more = sso_config_addition(&added, &other).unwrap();
    assert!(more.profile.starts_with("\n[profile prod]\n"));
    assert!(more.session.is_none());
}

// ----------------------------------------------------------------------------
// transfer
// ----------------------------------------------------------------------------

#[test]
fn transfer_modes_and_paths() {
    assert_eq!(mode_menu(), vec!["1. Upload (local -> remote)", "2. Download (remote -> local)", "3. Cancel"]);
    assert_eq!(mode_choice(0).unwrap(), Some(TransferMode::Upload));
    assert_eq!(mode_choice(1).unwrap(), Some(TransferMode::Download));
    assert_eq!(mode_choice(2).unwrap(), None);
    assert_eq!(mode_choice(3).unwrap_err().error_type, StoolErrorType::InvalidInput);
    assert_eq!(upload_paths("u", "h", "a.txt", "  "), (s("a.txt"), s("u@h:~/")));
    assert_eq!(upload_paths("u", "h", "a.txt", "/tmp"), (s("a.txt"), s("u@h:/tmp")));
    assert_eq!(download_paths("u", "h", "f", ""), (s("u@h:f"), s("~/Downloads/")));
    assert_eq!(download_paths("u", "h", "f", "."), (s("u@h:f"), s(".")));
}

// ----------------------------------------------------------------------------
// filesystem
// ----------------------------------------------------------------------------

#[test]
fn pattern_kinds() {
    assert_eq!(classify_pattern("*.rs"), (false, s("*.rs")));
    assert_eq!(classify_pattern("main.rs"), (true, s("main.rs")));
    assert_eq!(classify_pattern("main"), (false, s("*main*")));
    assert_eq!(classify_pattern(".env"), (false, s("*.env*")));
    assert_eq!(glob_to_regex("a.*?b"), "^a\\..*.b$");
}

#[test]
fn glob_matching() {
    assert_eq!(matches_glob("main.rs", "*.rs").unwrap(), true);
    assert_eq!(matches_glob("main.py", "*.rs").unwrap(), false);
    assert_eq!(matches_glob("mainxrs", "main.rs").unwrap(), false);
    assert_eq!(matches_glob("a1", "a?").unwrap(), true);
    assert_eq!(matches_glob("my_main_file", "*main*").unwrap(), true);
    let e = matches_glob("x", "(").unwrap_err();
    assert_eq!(e.error_type, StoolErrorType::SearchPatternInvalid);
    assert_eq!(e.message.as_deref(), Some("Invalid pattern: ("));
    assert!(e.source.is_some());
    assert_eq!(name_matches("main.rs", "main.rs", true).unwrap(), true);
    assert_eq!(name_matches("main.rs", "*.rs", true).unwrap(), false);
    assert!(is_hidden_dir(true, ".git"));
    assert!(!is_hidden_dir(false, ".env"));
}

#[test]
fn search_messages() {
    assert_eq!(searching_notice("*.rs", "."), "Searching for '*.rs' in ....");
    assert_eq!(find_report("x", &vec![]), vec!["No files found matching 'x'"]);
    assert_eq!(
        find_report("x", &vec![s("./a/x"), s("./x")]),
        vec!["\nFound 2 file(s):", "  ./a/x", "  ./x"]
    );
    assert_eq!(count_report(12, "./src"), "12 items in ./src");
}

// ----------------------------------------------------------------------------
// updates
// ----------------------------------------------------------------------------

#[test]
fn update_outcomes() {
    assert!(update_all_result(true, true).is_ok());
    let e = update_all_result(false, false).unwrap_err();
    assert_eq!(e.error_type, StoolErrorType::CommandExecutionFailed);
    assert_eq!(e.message.as_deref(), Some("Failed updates: brew, rustup"));
    assert_eq!(update_all_result(true, false).unwrap_err().message.as_deref(), Some("Failed updates: rustup"));
    assert_eq!(update_target(true, false), UpdateTarget::Brew);
    assert_eq!(update_target(false, true), UpdateTarget::Rustup);
    assert_eq!(update_target(true, true), UpdateTarget::All);
    assert_eq!(update_target(false, false), UpdateTarget::All);
}

// ----------------------------------------------------------------------------
// interactive operations
// ----------------------------------------------------------------------------

fn ask_items(step: &Prompt) -> Vec<String> {
    match step {
        Prompt::Choose { items, .. } => items.clone(),
        _ => panic!("expected a menu"),
    }
}

#[test]
fn connect_with_password_prompt() {
    let servers = vec![server("Staging", "10.0.0.50", "deploy", None, None)];
    let step = stool::ssh::connect(&servers, ConnectState::Start, Reply::Begin);
    let state = match step {
        Step::Ask { next, prompt, .. } => {
            assert_eq!(ask_items(&prompt).len(), 3);
            next
        }
        _ => panic!("expected the server menu"),
    };
    let state = match stool::ssh::connect(&servers, state, Reply::Picked(0)) {
        Step::Ask { next, notices, prompt } => {
            assert_eq!(notices, vec!["Selected server: Staging (10.0.0.50)"]);
            assert!(matches!(prompt, Prompt::Secret { .. }));
            next
        }
        _ => panic!("expected the password question"),
    };
    let state = match stool::ssh::connect(&servers, state, Reply::Typed(s("pw"))) {
        Step::Run { next, notices, plan } => {
            assert_eq!(notices, vec!["Connecting with password authentication"]);
            assert_eq!(plan.program, "expect");
            next
        }
        _ => panic!("expected a command"),
    };
    match stool::ssh::connect(&servers, state, Reply::Ran(RunEvent::Exited(true))) {
        Step::Finish { result, .. } => assert!(result.is_ok()),
        _ => panic!("expected the end"),
    }
}

#[test]
fn connect_cancel() {
    let servers = vec![server("A", "1", "u", Some("p"), None)];
    let state = match stool::ssh::connect(&servers, ConnectState::Start, Reply::Begin) {
        Step::Ask { next, .. } => next,
        _ => panic!(),
    };
    match stool::ssh::connect(&servers, state, Reply::Picked(2)) {
        Step::Finish { notices, result } => {
            assert!(notices.is_empty());
            assert!(result.is_ok());
        }
        _ => panic!("expected the end"),
    }
}

#[test]
fn transfer_upload_default_path() {
    let servers = vec![server("A", "1.2.3.4", "u", None, Some("k.pem"))];
    let mut state = TransferState::Start;
    let mut replies = vec![
        Reply::Begin,
        Reply::Picked(0),
        Reply::Picked(0),
        Reply::Typed(s("local.txt")),
        Reply::Typed(s("")),
    ];
    replies.reverse();
    let plan = loop {
        let reply = replies.pop().unwrap();
        match stool::transfer::transfer(&servers, state, reply) {
            Step::Ask { next, .. } => state = next,
            Step::Run { next, plan, notices } => {
                assert_eq!(notices, vec!["Transferring with PEM key authentication"]);
                state = next;
                break plan;
            }
            Step::Finish { .. } => panic!("ended early"),
        }
    };
    assert_eq!(args_of(&plan), vec!["-i", "k.pem", "local.txt", "u@1.2.3.4:~/"]);
    match stool::transfer::transfer(&servers, state, Reply::Ran(RunEvent::Exited(true))) {
        Step::Finish { notices, result } => {
            assert_eq!(notices, vec!["Transfer completed successfully"]);
            assert!(result.is_ok());
        }
        _ => panic!("expected the end"),
    }
}

#[test]
fn transfer_bad_mode() {
    let state = match stool::transfer::transfer(&[], TransferState::Start, Reply::Begin) {
        Step::Ask { next, .. } => next,
        _ => panic!(),
    };
    match stool::transfer::transfer(&[], state, Reply::Picked(7)) {
        Step::Finish { result, .. } => assert_eq!(result.unwrap_err().error_type, StoolErrorType::InvalidInput),
        _ => panic!(),
    }
}

#[test]
fn build_only_flow() {
    assert!(matches!(
        stool::docker::build_only(&[], BuildState::Start, Reply::Begin),
        Step::Finish { result: Err(_), .. }
    ));
    let regs = vec![registry("R", "1", "eu", &["api", "web"], None)];
    let state = match stool::docker::build_only(&regs, BuildState::Start, Reply::Begin) {
        Step::Ask { next, .. } => next,
        _ => panic!(),
    };
    let state = match stool::docker::build_only(&regs, state, Reply::Picked(0)) {
        Step::Ask { next, prompt, .. } => {
            assert_eq!(ask_items(&prompt), vec!["1. api", "2. web", "3. Manual input"]);
            next
        }
        _ => panic!(),
    };
    let state = match stool::docker::build_only(&regs, state, Reply::Picked(1)) {
        Step::Run { next, notices, plan } => {
            assert_eq!(notices, vec!["Building Docker image: web:latest"]);
            assert_eq!(args_of(&plan)[6], "web:latest");
            next
        }
        _ => panic!(),
    };
    match stool::docker::build_only(&regs, state, Reply::Ran(RunEvent::Exited(false))) {
        Step::Finish { notices, result } => {
            assert!(notices.is_empty());
            assert_eq!(result.unwrap_err().error_type, StoolErrorType::CommandExecutionFailed);
        }
        _ => panic!(),
    }
}

#[test]
fn quick_ssh_pieces() {
    let servers = vec![server("Server 1", "0.0.0.0", "a", Some("1234"), None)];
    assert_eq!(quick_menu(&servers), vec!["1. Server 1 (a@0.0.0.0)"]);
    let (n, p) = quick_plan("a", "0.0.0.0", Some("1234"));
    assert_eq!(n, "PW init...");
    assert_eq!(p.program, "expect");
    assert_eq!(p.args[0], "-c");
    assert_eq!(
        p.args[1],
        "\n                spawn ssh a@0.0.0.0\n                expect \"password:\"\n                send \"1234\\r\"\n                interact\n                "
    );
    let (n, p) = quick_plan("a", "0.0.0.0", None);
    assert_eq!(n, "바로 접속");
    assert_eq!(args_of(&p), vec!["a@0.0.0.0"]);
}

#[test]
fn transfer_path_questions() {
    let servers = vec![server("A", "1.2.3.4", "u", None, Some("k.pem"))];
    for (mode, first, second) in [
        (0usize, ("Local file path:", Some(true)), ("Remote path (default: ~/): ", None)),
        (1usize, ("Remote file path:", None), ("Local path (default: ~/Downloads/): ", Some(false))),
    ] {
        let mut state = TransferState::Start;
        let mut replies = vec![
            Reply::Begin,
            Reply::Picked(mode),
            Reply::Picked(0),
            Reply::Typed(s("a")),
        ];
        replies.reverse();
        let mut asked = vec![];
        while let Some(reply) = replies.pop() {
            match stool::transfer::transfer(&servers, state, reply) {
                Step::Ask { next, prompt, .. } => {
                    asked.push(prompt);
                    state = next;
                }
                _ => panic!("ended early"),
            }
        }
        let kind = |p: &Prompt| match p {
            Prompt::LocalPath { title, required } => (title.clone(), Some(*required), true),
            Prompt::OptionalText { title } => (title.clone(), None, true),
            Prompt::Text { title } => (title.clone(), None, false),
            _ => panic!("expected a path question"),
        };
        let a = kind(&asked[2]);
        let b = kind(&asked[3]);
        assert_eq!((a.0.as_str(), a.1), first);
        assert_eq!((b.0.as_str(), b.1), second);
        // The second question may always be left empty.
        assert!(b.2);
    }
}
