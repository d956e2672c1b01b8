use update_broker::{
    ChangeKind, EpochTime, FileChangeEvent, UpdateStatus, UpdateStatusIndication,
    UpdateStatusNotifier, WatchSetupError, IN_CREATE, IN_DELETE, IN_MODIFY,
};

fn ev(name: &str, mask: u32) -> FileChangeEvent {
    FileChangeEvent { name: name.as_bytes().to_vec(), mask }
}

#[test]
fn path_without_parent_is_refused() {
    assert_eq!(UpdateStatusNotifier::for_path("/").unwrap_err(), WatchSetupError::InvalidPath);
    assert_eq!(UpdateStatusNotifier::for_path("").unwrap_err(), WatchSetupError::InvalidPath);
}

#[test]
fn path_without_file_name_is_refused() {
    assert_eq!(UpdateStatusNotifier::for_path("/tmp/..").unwrap_err(), WatchSetupError::InvalidPath);
}

#[test]
fn path_is_split() {
    let n = UpdateStatusNotifier::for_path("/var/run/reboot-required").unwrap();
    assert_eq!(n.watch_dir(), "/var/run");
    assert_eq!(n.sentinel_name(), "reboot-required");
    let r = UpdateStatusNotifier::for_path("sentinel").unwrap();
    assert_eq!(r.watch_dir(), "");
    assert_eq!(r.sentinel_name(), "sentinel");
}

#[test]
fn error_messages() {
    assert_eq!(WatchSetupError::InvalidPath.message(), "Invalid path to reboot sentinel file");
    assert_eq!(WatchSetupError::WatchRefused.message(), "Could not watch the sentinel's directory");
}

#[test]
fn mask_kinds() {
    assert_eq!(ev("a", IN_CREATE).kind(), ChangeKind::Create);
    assert_eq!(ev("a", IN_DELETE).kind(), ChangeKind::Delete);
    assert_eq!(ev("a", IN_MODIFY).kind(), ChangeKind::Modify);
    assert_eq!(ev("a", 0).kind(), ChangeKind::Other);
    assert_eq!(ev("a", IN_CREATE | IN_DELETE).kind(), ChangeKind::Create);
    assert_eq!(ev("a", IN_DELETE | 0x4000_0000).kind(), ChangeKind::Delete);
}

#[test]
fn other_entries_are_ignored() {
    let n = UpdateStatusNotifier::for_path("/tmp/sentinel").unwrap();
    assert!(!n.accepts(&ev("other", IN_CREATE)));
    assert_eq!(n.status_for(&ev("other", IN_CREATE)), None);
    assert_eq!(n.status_for(&ev("sentinel2", IN_DELETE)), None);
    assert_eq!(n.status_for(&ev("sentine", IN_DELETE)), None);
    assert_eq!(n.status_for(&ev("", IN_CREATE)), None);
}

#[test]
fn sentinel_changes_give_status() {
    let n = UpdateStatusNotifier::for_path("/tmp/sentinel").unwrap();
    assert!(n.accepts(&ev("sentinel", IN_CREATE)));
    assert_eq!(n.status_for(&ev("sentinel", IN_CREATE)), Some(UpdateStatus::UpdatedNeedReboot));
    assert_eq!(n.status_for(&ev("sentinel", IN_DELETE)), Some(UpdateStatus::Idle));
    assert_eq!(n.status_for(&ev("sentinel", IN_MODIFY)), None);
}

#[test]
fn non_utf8_names_are_compared_as_bytes() {
    let n = UpdateStatusNotifier::for_path("/tmp/s\u{e9}").unwrap();
    let bad = FileChangeEvent { name: vec![b's', 0xe9], mask: IN_CREATE };
    assert_eq!(n.status_for(&bad), None);
    let good = FileChangeEvent { name: vec![b's', 0xc3, 0xa9], mask: IN_CREATE };
    assert_eq!(n.status_for(&good), Some(UpdateStatus::UpdatedNeedReboot));
}

#[test]
fn snapshot_from_event() {
    let t = EpochTime { secs: 10, nanos: 0 };
    let c = UpdateStatusIndication::from_inotify_event(&ev("s", IN_CREATE), t, String::from("v")).unwrap();
    assert_eq!(c.current_operation, UpdateStatus::UpdatedNeedReboot);
    assert_eq!(c.last_checked_time, t);
    assert_eq!(c.new_version, "v");
    let d = UpdateStatusIndication::from_inotify_event(&ev("s", IN_DELETE), t, String::from("v")).unwrap();
    assert_eq!(d.current_operation, UpdateStatus::Idle);
    assert!(UpdateStatusIndication::from_inotify_event(&ev("s", IN_MODIFY), t, String::from("v")).is_none());
}
