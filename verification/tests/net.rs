use astrid_sdk::duration::Duration;
use astrid_sdk::error::SysError;
use astrid_sdk::net::{io_error_from_net_op, is_would_block, parse_host_port, to_host_timeout, try_recv, IoErrorKind, ReadStatus, TryRecvError};

#[test]
fn parse_host_port_basic() {
    let (h, p) = parse_host_port("example.com:443").unwrap();
    assert_eq!((h.as_str(), p), ("example.com", 443));
}

#[test]
fn parse_host_port_strips_ipv6_brackets() {
    let (h, p) = parse_host_port("[::1]:443").unwrap();
    assert_eq!((h.as_str(), p), ("::1", 443));
    let (h, p) = parse_host_port("[2001:db8::1]:8080").unwrap();
    assert_eq!((h.as_str(), p), ("2001:db8::1", 8080));
}

#[test]
fn parse_host_port_ipv6_without_brackets_fails_cleanly() {
    assert!(parse_host_port("2001:db8::1:abc").is_err());
}

#[test]
fn parse_host_port_missing_close_bracket() {
    assert!(parse_host_port("[::1:443").is_err());
}

#[test]
fn parse_host_port_invalid_port_rejected() {
    assert!(parse_host_port("example.com:notaport").is_err());
    assert!(parse_host_port("example.com:99999").is_err());
}

#[test]
fn to_host_timeout_rejects_zero() {
    let err = to_host_timeout(Some(Duration::zero())).unwrap_err();
    assert!(err.message().contains("non-zero"));
}

#[test]
fn to_host_timeout_passes_through() {
    assert_eq!(to_host_timeout(None).unwrap(), None);
    assert_eq!(to_host_timeout(Some(Duration::from_millis(500))).unwrap(), Some(500));
}

#[test]
fn parse_host_port_missing_port_separator() {
    let err = parse_host_port("example.com").unwrap_err();
    assert!(matches!(err, SysError::ApiError(_)));
}

#[test]
fn to_host_timeout_saturates_huge_durations() {
    assert_eq!(to_host_timeout(Some(Duration::new(u64::MAX, 0))).unwrap(), Some(u64::MAX));
}

#[test]
fn try_recv_maps_read_status() {
    assert_eq!(try_recv(Ok(ReadStatus::Data(vec![1, 2]))).unwrap(), vec![1, 2]);
    assert_eq!(try_recv(Ok(ReadStatus::Pending)).unwrap_err(), TryRecvError::Empty);
    assert_eq!(try_recv(Ok(ReadStatus::Closed)).unwrap_err(), TryRecvError::Closed);
    assert_eq!(try_recv(Err(SysError::HostError("x".into()))).unwrap_err(), TryRecvError::Closed);
}

#[test]
fn would_block_detection() {
    assert!(is_would_block("Unknown(\"WouldBlock\")"));
    assert!(is_would_block("operation would block"));
    assert!(!is_would_block("connection reset"));
    let e = io_error_from_net_op("WouldBlock");
    assert_eq!(e.kind, IoErrorKind::WouldBlock);
    assert_eq!(e.message, "WouldBlock");
    assert_eq!(io_error_from_net_op("refused").kind, IoErrorKind::Other);
}

#[test]
fn host_port_text_round_trips() {
    for (host, port) in [("example.com", 443u16), ("2001:db8::1", 0), ("", 65535), ("a:b", 8080)] {
        let (h, p) = parse_host_port(&format!("{host}:{port}")).unwrap();
        assert_eq!((h.as_str(), p), (host, port));
    }
    let (h, p) = parse_host_port("[fe80::1%eth0]:22").unwrap();
    assert_eq!((h.as_str(), p), ("fe80::1%eth0", 22));
}
