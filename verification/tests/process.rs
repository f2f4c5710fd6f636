use astrid_sdk::duration::Duration;
use astrid_sdk::process::{spawn, wait_timeout_ms, Command, ExitInfo, InjectionPlacement, ProcessId};

#[test]
fn inject_builders_accumulate_in_order() {
    let cmd = Command::new("agent")
        .inject_env_file("CLAUDE_CODE_MANAGED_SETTINGS_PATH", b"{}".to_vec())
        .inject_file_at("/etc/codex/requirements.toml", b"policy".to_vec())
        .inject_file(b"x".to_vec(), InjectionPlacement::EnvPointer("GEMINI".into()));

    let injections = cmd.file_injections();
    assert_eq!(injections.len(), 3);
    assert!(matches!(
        injections[0].1,
        InjectionPlacement::EnvPointer(ref v) if v == "CLAUDE_CODE_MANAGED_SETTINGS_PATH"
    ));
    assert_eq!(injections[0].0, b"{}");
    assert!(matches!(
        injections[1].1,
        InjectionPlacement::FixedPath(ref p) if p == "/etc/codex/requirements.toml"
    ));
    assert!(matches!(
        injections[2].1,
        InjectionPlacement::EnvPointer(ref v) if v == "GEMINI"
    ));
}

#[test]
fn no_injection_by_default() {
    assert!(Command::new("agent").file_injections().is_empty());
}

#[test]
fn spawn_request_carries_command_and_args() {
    let req = spawn("ls", &["-la", "/tmp"]);
    assert_eq!(req.cmd, "ls");
    assert_eq!(req.args, vec!["-la".to_string(), "/tmp".to_string()]);
    assert!(req.file_injections.is_empty());
    assert_eq!(req.keep_stdin_open, None);
}

#[test]
fn into_request_converts_durations_to_millis() {
    let req = Command::new("srv")
        .arg("a")
        .args(&["b", "c"])
        .env("K", "V")
        .cwd("/w")
        .label("job")
        .keep_stdin_open(true)
        .max_lifetime(Duration::from_secs(2))
        .idle_timeout(Duration::from_millis(1500))
        .into_request();
    assert_eq!(req.args, vec!["a".to_string(), "b".to_string(), "c".to_string()]);
    assert_eq!(req.env, vec![("K".to_string(), "V".to_string())]);
    assert_eq!(req.cwd.as_deref(), Some("/w"));
    assert_eq!(req.label.as_deref(), Some("job"));
    assert_eq!(req.keep_stdin_open, Some(true));
    assert_eq!(req.max_lifetime_ms, Some(2000));
    assert_eq!(req.idle_timeout_ms, Some(1500));
    assert_eq!(req.exit_retention_ms, None);
}

#[test]
fn exit_success_only_for_code_zero() {
    assert!(ExitInfo { exit_code: Some(0), signal: None }.success());
    assert!(!ExitInfo { exit_code: Some(1), signal: None }.success());
    assert!(!ExitInfo { exit_code: None, signal: Some(9) }.success());
}

#[test]
fn process_id_round_trips_text() {
    let id = ProcessId::from_str("p-1");
    assert_eq!(id.as_str(), "p-1");
    assert_eq!(id.into_string(), "p-1".to_string());
}

#[test]
fn wait_timeout_in_millis() {
    assert_eq!(wait_timeout_ms(None), None);
    assert_eq!(wait_timeout_ms(Some(Duration::from_secs(3))), Some(3000));
}
