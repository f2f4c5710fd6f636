use astrid_sdk::error::SysError;
use astrid_sdk::fs::{datetime_to_system_time, read_dir, read_to_string, Datetime, FileStat, FileType, Metadata};

fn stat(kind: FileType) -> FileStat {
    FileStat {
        size: 12,
        kind,
        mode: 0o644,
        modified: Some(Datetime { seconds: 10, nanoseconds: 5 }),
        created: None,
        accessed: Some(Datetime { seconds: -1, nanoseconds: 0 }),
    }
}

#[test]
fn file_type_predicates() {
    assert!(FileType::Regular.is_file() && !FileType::Regular.is_dir() && !FileType::Regular.is_symlink());
    assert!(FileType::Directory.is_dir());
    assert!(FileType::Symlink.is_symlink());
}

#[test]
fn metadata_from_host_stat() {
    let m = Metadata::from_stat(stat(FileType::Regular));
    assert_eq!(m.len(), 12);
    assert!(!m.is_empty());
    assert!(m.is_file() && !m.is_dir() && !m.is_symlink());
    assert_eq!(m.file_type(), FileType::Regular);
    assert_eq!(m.mode(), 0o644);
    let t = m.modified().unwrap();
    assert_eq!((t.since_epoch.as_secs(), t.since_epoch.subsec_nanos()), (10, 5));
    match m.created() {
        Err(SysError::ApiError(msg)) => assert_eq!(msg, "creation time unavailable"),
        other => panic!("unexpected {other:?}"),
    }
    assert!(m.accessed().is_err());
}

#[test]
fn timestamps_before_the_epoch_are_unrepresentable() {
    assert!(datetime_to_system_time(Datetime { seconds: -5, nanoseconds: 0 }).is_none());
    let t = datetime_to_system_time(Datetime { seconds: 3, nanoseconds: 1_500_000_000 }).unwrap();
    assert_eq!((t.since_epoch.as_secs(), t.since_epoch.subsec_nanos()), (4, 500_000_000));
}

#[test]
fn directory_entries_join_the_parent_path() {
    let mut dir = read_dir("/data", vec!["a.txt".into(), "sub".into()]);
    assert_eq!(dir.remaining(), 2);
    let first = dir.next().unwrap();
    assert_eq!(first.path(), "/data/a.txt");
    assert_eq!(first.file_name(), "a.txt");
    let second = dir.next().unwrap();
    assert_eq!(second.path(), "/data/sub");
    assert!(dir.next().is_none());
    let mut rooted = read_dir("/", vec!["x".into()]);
    assert_eq!(rooted.next().unwrap().path(), "/x");
}

#[test]
fn read_to_string_requires_utf8() {
    assert_eq!(read_to_string(b"hi".to_vec()).unwrap(), "hi");
    assert!(read_to_string(vec![0xff, 0xfe]).is_err());
}
