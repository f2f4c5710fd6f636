use astrid_sdk::approval::{request, request_decision, Decision};
use astrid_sdk::duration::Duration;
use astrid_sdk::env::{var, var_bytes, CONFIG_SOCKET_PATH};
use astrid_sdk::error::SysError;
use astrid_sdk::host_result::decode;
use astrid_sdk::runtime::{panic_message, random_bytes, socket_path, PanicLocation};
use astrid_sdk::time::{monotonic, now, sleep};
use astrid_sdk::uplink::{register, register_profile, Profile, UplinkId};

#[test]
fn env_reads_unset_as_empty() {
    assert_eq!(var(None), "");
    assert_eq!(var(Some("v".into())), "v");
    assert_eq!(var_bytes(None), Vec::<u8>::new());
    assert_eq!(var_bytes(Some("é".into())), vec![0xc3, 0xa9]);
    assert_eq!(CONFIG_SOCKET_PATH, "ASTRID_SOCKET_PATH");
}

#[test]
fn socket_path_errors() {
    let msg = |r: Result<String, SysError>| match r {
        Err(SysError::ApiError(m)) => m,
        other => panic!("unexpected {other:?}"),
    };
    assert_eq!(msg(socket_path(None)), "ASTRID_SOCKET_PATH config key is not set");
    assert_eq!(msg(socket_path(Some(String::new()))), "ASTRID_SOCKET_PATH config key is empty");
    assert_eq!(msg(socket_path(Some("/run/a\0b".into()))), "ASTRID_SOCKET_PATH contains null byte");
    assert_eq!(socket_path(Some("/run/astrid.sock".into())).unwrap(), "/run/astrid.sock");
}

#[test]
fn random_bytes_length_passes_through() {
    assert_eq!(random_bytes(4096), 4096);
}

#[test]
fn clock_values_convert() {
    let t = now(1_500);
    assert_eq!(t.since_epoch.as_secs(), 1);
    assert_eq!(t.since_epoch.subsec_nanos(), 500_000_000);
    let d = monotonic(2_000_000_001);
    assert_eq!(d.as_secs(), 2);
    assert_eq!(d.subsec_nanos(), 1);
    assert_eq!(sleep(Duration::from_millis(3)), 3_000_000);
    assert_eq!(sleep(Duration::new(u64::MAX, 0)), u64::MAX);
}

#[test]
fn approval_decisions() {
    assert!(!Decision::Denied.is_approved());
    for d in [Decision::Approved, Decision::ApprovedSession, Decision::ApprovedAlways, Decision::Allowance] {
        assert!(d.is_approved());
        assert_eq!(request(Ok(d)).unwrap(), true);
    }
    assert_eq!(request(Ok(Decision::Denied)).unwrap(), false);
    assert!(request(Err(SysError::HostError("Timeout".into()))).is_err());
    let r = request_decision("git push", "git push origin main");
    assert_eq!(r.action, "git push");
    assert_eq!(r.target_resource, "git push origin main");
}

#[test]
fn host_result_decoding() {
    assert_eq!(decode(vec![]).unwrap(), Vec::<u8>::new());
    assert_eq!(decode(vec![0x00, 7, 8]).unwrap(), vec![7, 8]);
    match decode(vec![0x01, b'b', b'a', b'd']) {
        Err(SysError::ApiError(m)) => assert_eq!(m, "bad"),
        other => panic!("unexpected {other:?}"),
    }
    match decode(vec![0x01, 0xff]) {
        Err(SysError::ApiError(m)) => assert_eq!(m, "\u{fffd}"),
        other => panic!("unexpected {other:?}"),
    }
    assert_eq!(decode(vec![b'{', b'}']).unwrap(), b"{}".to_vec());
}

#[test]
fn uplink_profiles() {
    assert_eq!(Profile::parse("chat").unwrap(), Profile::Chat);
    assert_eq!(Profile::parse("interactive").unwrap(), Profile::Interactive);
    assert_eq!(Profile::parse("notify").unwrap(), Profile::Notify);
    assert_eq!(Profile::parse("bridge").unwrap(), Profile::Bridge);
    match Profile::parse("Chat") {
        Err(SysError::ApiError(m)) => assert_eq!(m, "unknown uplink profile: Chat"),
        other => panic!("unexpected {other:?}"),
    }
    let reg = register("cli", "terminal", "interactive").unwrap();
    assert_eq!((reg.name.as_str(), reg.platform.as_str(), reg.profile), ("cli", "terminal", Profile::Interactive));
    assert!(register("cli", "terminal", "sms").is_err());
    assert_eq!(register_profile("a", "b", Profile::Notify).profile, Profile::Notify);
    let id = UplinkId::new("id-1".into());
    assert_eq!(id.as_str(), "id-1");
    assert_eq!(id.as_bytes(), b"id-1".to_vec());
}

#[test]
fn panic_messages() {
    let loc = Some(PanicLocation { file: "src/lib.rs".into(), line: 42, column: 7 });
    assert_eq!(panic_message(&loc, &Some("boom".into())), "capsule panic at src/lib.rs:42:7: boom");
    assert_eq!(panic_message(&None, &None), "capsule panic at unknown location: non-string panic payload");
}
