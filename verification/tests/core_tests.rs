use stool::command::{check_status, scp_plan, ssh_plan, CommandPlan, ErrorTemplate, Input, RunEvent};
use stool::config::{Config, EcrRegistry, Server, SsoConfig};
use stool::error::{StoolError, StoolErrorType};
use stool::text::{
    contains_str, is_blank, join, parse_u32, split_char, trim, u64_to_decimal, usize_to_decimal,
};

fn s(x: &str) -> String {
    x.to_string()
}

fn server(name: &str, ip: &str, user: &str, password: Option<&str>, key: Option<&str>) -> Server {
    Server {
        name: s(name),
        ip: s(ip),
        user: s(user),
        password: password.map(s),
        key_path: key.map(s),
    }
}

fn args_of(p: &CommandPlan) -> Vec<&str> {
    p.args.iter().map(|a| a.as_str()).collect()
}

// ----------------------------------------------------------------------------
// text
// ----------------------------------------------------------------------------

#[test]
fn decimal_rendering() {
    assert_eq!(u64_to_decimal(0), "0");
    assert_eq!(u64_to_decimal(7), "7");
    assert_eq!(u64_to_decimal(10), "10");
    assert_eq!(u64_to_decimal(4294967296), "4294967296");
    assert_eq!(u64_to_decimal(u64::MAX), u64::MAX.to_string());
    assert_eq!(usize_to_decimal(123), "123");
}

#[test]
fn parse_u32_follows_from_str() {
    for input in ["0", "42", "007", "+5", "4294967295", "4294967296", "", "+", "-1", "1a", " 1", "99999999999999999999", "+0"] {
        assert_eq!(parse_u32(input), input.parse::<u32>().ok(), "input {:?}", input);
    }
}

#[test]
fn split_matches_std() {
    for input in ["1.2.3", "", ".", "a..b", "..", "x.", ".y", "no separator"] {
        let ours = split_char(input, '.');
        let std: Vec<String> = input.split('.').map(|p| p.to_string()).collect();
        assert_eq!(ours, std, "input {:?}", input);
    }
}

#[test]
fn join_with_separator() {
    assert_eq!(join(&vec![], ", "), "");
    assert_eq!(join(&vec![s("brew")], ", "), "brew");
    assert_eq!(join(&vec![s("brew"), s("rustup")], ", "), "brew, rustup");
}

#[test]
fn trim_matches_std() {
    for input in ["", "  ", " a ", "\t\nabc\r\n", "\u{a0}x\u{3000}", "a b", "\u{200b}x"] {
        assert_eq!(trim(input), input.trim(), "input {:?}", input);
        assert_eq!(is_blank(input), input.trim().is_empty());
    }
}

#[test]
fn substring_search() {
    assert!(contains_str("abc", ""));
    assert!(contains_str("[profile dev]\nx", "[profile dev]"));
    assert!(!contains_str("[profile de]", "[profile dev]"));
    assert!(contains_str("xxab", "ab"));
    assert!(!contains_str("a", "ab"));
}

// ----------------------------------------------------------------------------
// errors
// ----------------------------------------------------------------------------

#[test]
fn error_kind_texts() {
    assert_eq!(StoolErrorType::SshConnectionFailed.describe(), "SSH connection failed");
    assert_eq!(StoolErrorType::ExpectCommandFailed.describe(), "expect command failed");
    assert_eq!(StoolErrorType::YamlParseError.describe(), "YAML parse error");
    assert_eq!(StoolErrorType::IoError.describe(), "I/O error");
    assert_eq!(StoolErrorType::Cancelled.describe(), "Operation cancelled");
}

#[test]
fn error_builders_and_display() {
    let e = StoolError::new(StoolErrorType::InvalidInput);
    assert_eq!(e.error_type, StoolErrorType::InvalidInput);
    assert!(e.message.is_none() && e.source.is_none());
    assert_eq!(e.display(), "Invalid input");
    let e = e.with_message("bad index").with_source("boom");
    assert_eq!(e.message.as_deref(), Some("bad index"));
    assert_eq!(e.source.as_deref(), Some("boom"));
    assert_eq!(e.display(), "Invalid input: bad index");
    let io = StoolError::from_io("disk");
    assert_eq!(io.error_type, StoolErrorType::IoError);
    assert_eq!(io.source.as_deref(), Some("disk"));
}

#[test]
fn config_errors() {
    let e = Config::read_failure("/x.yaml", "no such file");
    assert_eq!(e.error_type, StoolErrorType::ConfigLoadFailed);
    assert_eq!(e.message.as_deref(), Some("Failed to read config file: /x.yaml"));
    assert_eq!(e.source.as_deref(), Some("no such file"));
    let e = Config::parse_failure("bad");
    assert_eq!(e.display(), "YAML parse error: Failed to parse YAML config");
    let e = Config::embedded_parse_failure("bad");
    assert_eq!(e.message.as_deref(), Some("Failed to parse embedded YAML config"));
}

// ----------------------------------------------------------------------------
// commands
// ----------------------------------------------------------------------------

#[test]
fn check_status_maps_failure() {
    assert!(check_status(true, StoolErrorType::BrewUpdateFailed).is_ok());
    let e = check_status(false, StoolErrorType::BrewUpdateFailed).unwrap_err();
    assert_eq!(e.error_type, StoolErrorType::BrewUpdateFailed);
    assert!(e.message.is_none());
}

#[test]
fn ssh_with_key_wins_over_password() {
    let (notice, plan) = ssh_plan("admin", "10.0.0.1", Some("~/.ssh/id"), Some("pw"));
    assert_eq!(notice, "Connecting with PEM key authentication");
    assert_eq!(plan.program, "ssh");
    assert_eq!(args_of(&plan), vec!["-i", "~/.ssh/id", "admin@10.0.0.1"]);
    assert!(matches!(plan.input, Input::Inherit));
    let e = plan.outcome(&RunEvent::SpawnFailed(s("not found"))).unwrap_err();
    assert_eq!(e.error_type, StoolErrorType::SshConnectionFailed);
    assert_eq!(e.message.as_deref(), Some("Failed to execute ssh command to admin@10.0.0.1"));
    assert_eq!(e.source.as_deref(), Some("not found"));
    let e = plan.outcome(&RunEvent::Exited(false)).unwrap_err();
    assert_eq!(e.error_type, StoolErrorType::SshConnectionFailed);
    assert!(e.message.is_none());
    assert!(plan.outcome(&RunEvent::Exited(true)).is_ok());
}

#[test]
fn ssh_with_password_uses_expect() {
    let (notice, plan) = ssh_plan("dev", "h", None, Some("se\"cret"));
    assert_eq!(notice, "Connecting with password authentication");
    assert_eq!(plan.program, "expect");
    assert!(matches!(plan.input, Input::Inherit));
    let expected = format!(
        "spawn ssh {}@{}\n\
expect {{\n\
\"yes/no\" {{\n\
send \"yes\\r\"\n\
exp_continue\n\
}}\n\
\"assword:\" {{\n\
send \"{}\\r\"\n\
}}\n\
}}\n\
interact\n",
        "dev", "h", "se\"cret"
    );
    assert_eq!(plan.args, vec![s("-c"), expected]);
    let e = plan.outcome(&RunEvent::WaitFailed(s("w"))).unwrap_err();
    assert_eq!(e.message.as_deref(), Some("Failed to wait for expect process for ssh to dev@h"));
    let e = plan.outcome(&RunEvent::SpawnFailed(s("w"))).unwrap_err();
    assert_eq!(e.message.as_deref(), Some("Failed to spawn expect for ssh to dev@h"));
    let e = plan.outcome(&RunEvent::Exited(false)).unwrap_err();
    assert_eq!(e.error_type, StoolErrorType::SshConnectionFailed);
}

#[test]
fn ssh_default_login() {
    let (notice, plan) = ssh_plan("u", "1.2.3.4", None, None);
    assert_eq!(notice, "Connecting with default SSH authentication");
    assert_eq!(args_of(&plan), vec!["u@1.2.3.4"]);
}

#[test]
fn scp_plans() {
    let (n, p) = scp_plan("a.txt", "u@h:~/", Some("k.pem"), None);
    assert_eq!(n, "Transferring with PEM key authentication");
    assert_eq!(p.program, "scp");
    assert_eq!(args_of(&p), vec!["-i", "k.pem", "a.txt", "u@h:~/"]);
    let e = p.outcome(&RunEvent::SpawnFailed(s("x"))).unwrap_err();
    assert_eq!(e.error_type, StoolErrorType::FileTransferFailed);
    assert_eq!(e.message.as_deref(), Some("Failed to execute scp from a.txt to u@h:~/"));

    let (n, p) = scp_plan("u@h:f", "~/Downloads/", None, Some("pw"));
    assert_eq!(n, "Transferring with password authentication");
    assert_eq!(p.program, "expect");
    assert!(matches!(p.input, Input::Inherit));
    assert_eq!(p.args.len(), 2);
    assert_eq!(p.args[0], "-c");
    assert!(p.args[1].starts_with("spawn scp u@h:f ~/Downloads/\nexpect {\n"));
    assert!(p.args[1].ends_with("send \"pw\\r\"\n}\n}\nexpect eof\n"));
    let e = p.outcome(&RunEvent::SpawnFailed(s("x"))).unwrap_err();
    assert_eq!(e.message.as_deref(), Some("Failed to spawn expect for scp from u@h:f to ~/Downloads/"));
    let e = p.outcome(&RunEvent::Exited(false)).unwrap_err();
    assert_eq!(e.error_type, StoolErrorType::FileTransferFailed);

    let (n, p) = scp_plan("a", "b", None, None);
    assert_eq!(n, "Transferring with default SSH authentication");
    assert_eq!(args_of(&p), vec!["a", "b"]);
}

#[test]
fn template_instantiation() {
    let t = ErrorTemplate::with_text(StoolErrorType::AwsCommandFailed, "m");
    let e = t.instantiate(Some("src"));
    assert_eq!(e.error_type, StoolErrorType::AwsCommandFailed);
    assert_eq!(e.message.as_deref(), Some("m"));
    assert_eq!(e.source.as_deref(), Some("src"));
    let e = ErrorTemplate::plain(StoolErrorType::IoError).instantiate(None);
    assert!(e.message.is_none() && e.source.is_none());
}

#[test]
fn config_records_copy() {
    let a = server("n", "1.1.1.1", "u", Some("p"), None);
    let b = a.clone();
    assert_eq!(b.name, "n");
    assert_eq!(b.password.as_deref(), Some("p"));
    let r = EcrRegistry {
        name: s("r"),
        account_id: s("1"),
        region: s("eu"),
        images: vec![],
        sso_profile: None,
    };
    assert!(r.images.is_empty());
    let c = SsoConfig {
        profile_name: s("p"),
        sso_session_name: s("s"),
        start_url: s("u"),
        region: s("r"),
        sso_account_id: s("a"),
        sso_role_name: s("role"),
        output_format: s("json"),
    };
    assert_eq!(c.duplicate().sso_role_name, "role");
}
