use update_broker::{
    answer, name_registration, Broker, BrokerAction, BrokerError, BrokerEvent, FileChangeEvent, ManagerMethod,
    MethodError, NameReply, Phase, UpdateStatus, UpdateStatusNotifier, WatchSetupError, IN_CREATE, IN_DELETE,
    IN_MODIFY,
};

fn ev(name: &str, mask: u32) -> BrokerEvent {
    BrokerEvent::FileChanged(FileChangeEvent { name: name.as_bytes().to_vec(), mask })
}

fn running(path: &str) -> Broker {
    let mut b = Broker::new();
    let n = UpdateStatusNotifier::for_path(path).unwrap();
    assert_eq!(b.step(BrokerEvent::Started(n)), BrokerAction::Wait);
    assert_eq!(b.phase(), Phase::Running);
    b
}

#[test]
fn get_status_follows_marker() {
    assert_eq!(answer(ManagerMethod::GetStatus, true), Ok(UpdateStatus::UpdatedNeedReboot));
    assert_eq!(answer(ManagerMethod::GetStatus, false), Ok(UpdateStatus::Idle));
}

#[test]
fn write_methods_are_not_implemented() {
    for exists in [false, true] {
        assert_eq!(answer(ManagerMethod::AttemptUpdate, exists), Err(MethodError::NotImplemented));
        assert_eq!(answer(ManagerMethod::ResetStatus, exists), Err(MethodError::NotImplemented));
    }
    assert_eq!(MethodError::NotImplemented.message(), "Not implemented");
}

#[test]
fn write_methods_change_nothing() {
    let mut b = running("/tmp/sentinel");
    let a = b.step(BrokerEvent::MethodCalled(ManagerMethod::AttemptUpdate, true));
    assert_eq!(a, BrokerAction::ReplyError(MethodError::NotImplemented));
    let r = b.step(BrokerEvent::MethodCalled(ManagerMethod::ResetStatus, false));
    assert_eq!(r, BrokerAction::ReplyError(MethodError::NotImplemented));
    assert_eq!(b.phase(), Phase::Running);
}

#[test]
fn member_names() {
    assert_eq!(ManagerMethod::GetStatus.member_name(), "GetStatus");
    assert_eq!(ManagerMethod::AttemptUpdate.member_name(), "AttemptUpdate");
    assert_eq!(ManagerMethod::ResetStatus.member_name(), "ResetStatus");
}

#[test]
fn end_to_end_session() {
    let mut b = running("/tmp/sentinel");
    let q = BrokerEvent::MethodCalled(ManagerMethod::GetStatus, false);
    assert_eq!(b.step(q), BrokerAction::ReplyStatus(UpdateStatus::Idle));
    assert_eq!(b.step(ev("sentinel", IN_CREATE)), BrokerAction::Emit(UpdateStatus::UpdatedNeedReboot));
    let q = BrokerEvent::MethodCalled(ManagerMethod::GetStatus, true);
    assert_eq!(b.step(q), BrokerAction::ReplyStatus(UpdateStatus::UpdatedNeedReboot));
    assert_eq!(b.step(ev("unrelated", IN_CREATE)), BrokerAction::Wait);
    assert_eq!(b.step(ev("sentinel", IN_MODIFY)), BrokerAction::Wait);
    assert_eq!(b.step(ev("sentinel", IN_DELETE)), BrokerAction::Emit(UpdateStatus::Idle));
    assert_eq!(b.step(BrokerEvent::Terminated), BrokerAction::Exit { code: 0, delay_millis: 0 });
    assert_eq!(b.phase(), Phase::Stopping);
    assert_eq!(b.step(ev("sentinel", IN_CREATE)), BrokerAction::Wait);
    assert_eq!(b.phase(), Phase::Stopping);
}

#[test]
fn bus_loss_fails_the_daemon() {
    let mut b = running("/tmp/sentinel");
    assert_eq!(b.step(BrokerEvent::ServerFailed), BrokerAction::Exit { code: 1, delay_millis: 200 });
    assert_eq!(b.phase(), Phase::FailedRunning);
    assert_eq!(b.step(BrokerEvent::Terminated), BrokerAction::Wait);
}

#[test]
fn watch_end_fails_the_daemon() {
    let mut b = running("/tmp/sentinel");
    assert_eq!(b.step(BrokerEvent::WatchEnded), BrokerAction::Exit { code: 1, delay_millis: 200 });
    assert_eq!(b.phase(), Phase::FailedRunning);
}

#[test]
fn startup_failures_exit_with_one() {
    let errors = [
        BrokerError::Connection,
        BrokerError::Registration,
        BrokerError::WatchSetup(WatchSetupError::InvalidPath),
        BrokerError::WatchSetup(WatchSetupError::WatchRefused),
        BrokerError::Runtime,
    ];
    for e in errors {
        let mut b = Broker::new();
        assert_eq!(b.step(BrokerEvent::StartupFailed(e)), BrokerAction::Exit { code: 1, delay_millis: 200 });
        assert_eq!(b.phase(), Phase::FailedStartup);
        assert_eq!(b.step(ev("sentinel", IN_CREATE)), BrokerAction::Wait);
    }
}

#[test]
fn nothing_is_emitted_before_start() {
    let mut b = Broker::new();
    assert_eq!(b.step(ev("sentinel", IN_CREATE)), BrokerAction::Wait);
    assert_eq!(b.step(BrokerEvent::WatchEnded), BrokerAction::Wait);
    assert_eq!(b.phase(), Phase::Starting);
}

#[test]
fn termination_while_starting_is_clean() {
    let mut b = Broker::new();
    assert_eq!(b.step(BrokerEvent::Terminated), BrokerAction::Exit { code: 0, delay_millis: 0 });
    assert_eq!(b.phase(), Phase::Stopping);
}

#[test]
fn only_owning_the_name_registers() {
    assert_eq!(name_registration(NameReply::PrimaryOwner), Ok(()));
    assert_eq!(name_registration(NameReply::AlreadyOwner), Ok(()));
    assert_eq!(name_registration(NameReply::InQueue), Err(BrokerError::Registration));
    assert_eq!(name_registration(NameReply::Exists), Err(BrokerError::Registration));
}
