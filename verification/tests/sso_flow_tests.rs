use stool::config::SsoConfig;
use stool::error::StoolErrorType;
use stool::flows::{Prompt, Reply};
use stool::sso_flows::{pick_sso_config, pick_sso_profile, ConfigPickState, Pick, ProfilePickState};

fn s(x: &str) -> String {
    x.to_string()
}

fn profile(name: &str) -> SsoConfig {
    SsoConfig {
        profile_name: s(name),
        sso_session_name: s("corp"),
        start_url: s("https://corp.awsapps.com/start"),
        region: s("ap-northeast-2"),
        sso_account_id: s("123456789012"),
        sso_role_name: s("Admin"),
        output_format: s("json"),
    }
}

fn title_of(p: &Prompt) -> String {
    match p {
        Prompt::Text { title } => title.clone(),
        _ => panic!("expected a text question"),
    }
}

#[test]
fn sso_config_menu_and_listed_profile() {
    let configs = vec![profile("dev"), profile("prod")];
    let state = match pick_sso_config(&configs, ConfigPickState::Start, Reply::Begin) {
        Pick::Ask { next, prompt } => {
            match prompt {
                Prompt::Choose { title, items, default } => {
                    assert_eq!(title, "Select SSO config:");
                    assert_eq!(items, vec!["1. dev", "2. prod", "3. Manual input", "4. Cancel"]);
                    assert_eq!(default, 0);
                }
                _ => panic!("expected the menu"),
            }
            next
        }
        Pick::Done(_) => panic!("ended early"),
    };
    match pick_sso_config(&configs, state, Reply::Picked(1)) {
        Pick::Done(Ok(Some(c))) => assert_eq!(c.profile_name, "prod"),
        _ => panic!("expected the listed profile"),
    }
}

#[test]
fn sso_config_manual_input_asks_six_questions() {
    let configs = vec![profile("dev")];
    let mut state = match pick_sso_config(&configs, ConfigPickState::Start, Reply::Begin) {
        Pick::Ask { next, .. } => next,
        Pick::Done(_) => panic!("ended early"),
    };
    let mut reply = Reply::Picked(1);
    let answers = ["team", "corp-sso", "https://x/start", "us-east-1", "999", "Dev"];
    let mut titles = vec![];
    let mut k = 0;
    let picked = loop {
        match pick_sso_config(&configs, state, reply) {
            Pick::Ask { next, prompt } => {
                titles.push(title_of(&prompt));
                state = next;
                reply = Reply::Typed(s(answers[k]));
                k += 1;
            }
            Pick::Done(r) => break r,
        }
    };
    assert_eq!(
        titles,
        vec![
            "Profile name:",
            "SSO session name:",
            "SSO start URL:",
            "Region:",
            "AWS Account ID:",
            "IAM Role name:"
        ]
    );
    let c = picked.unwrap().unwrap();
    assert_eq!(c.profile_name, "team");
    assert_eq!(c.sso_session_name, "corp-sso");
    assert_eq!(c.start_url, "https://x/start");
    assert_eq!(c.region, "us-east-1");
    assert_eq!(c.sso_account_id, "999");
    assert_eq!(c.sso_role_name, "Dev");
    assert_eq!(c.output_format, "json");
}

#[test]
fn sso_config_cancel_and_invalid() {
    let configs = vec![profile("dev")];
    match pick_sso_config(&configs, ConfigPickState::Menu, Reply::Picked(2)) {
        Pick::Done(Ok(None)) => {}
        _ => panic!("expected cancel"),
    }
    match pick_sso_config(&configs, ConfigPickState::Menu, Reply::Picked(5)) {
        Pick::Done(Err(e)) => assert_eq!(e.error_type, StoolErrorType::InvalidInput),
        _ => panic!("expected an error"),
    }
}

#[test]
fn sso_profile_manual_name() {
    let configs = vec![profile("dev")];
    let state = match pick_sso_profile(&configs, ProfilePickState::Start, Reply::Begin) {
        Pick::Ask { next, prompt } => {
            match prompt {
                Prompt::Choose { title, .. } => assert_eq!(title, "Select SSO profile:"),
                _ => panic!("expected the menu"),
            }
            next
        }
        Pick::Done(_) => panic!("ended early"),
    };
    let state = match pick_sso_profile(&configs, state, Reply::Picked(1)) {
        Pick::Ask { next, prompt } => {
            assert_eq!(title_of(&prompt), "Profile name:");
            next
        }
        Pick::Done(_) => panic!("expected a question"),
    };
    match pick_sso_profile(&configs, state, Reply::Typed(s("typed-profile"))) {
        Pick::Done(Ok(Some(p))) => assert_eq!(p, "typed-profile"),
        _ => panic!("expected the typed name"),
    }
    match pick_sso_profile(&configs, ProfilePickState::Menu, Reply::Picked(0)) {
        Pick::Done(Ok(Some(p))) => assert_eq!(p, "dev"),
        _ => panic!("expected the listed name"),
    }
    match pick_sso_profile(&configs, ProfilePickState::Menu, Reply::Picked(2)) {
        Pick::Done(Ok(None)) => {}
        _ => panic!("expected cancel"),
    }
}
