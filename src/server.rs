use vstd::prelude::*;
use crate::notifier::{FileChangeEvent, UpdateStatusNotifier, WatchSetupError};
use crate::update_status::{status_for_presence, UpdateStatus};

verus! {

/// The well-known bus name of the service.
pub const BUS_NAME: &'static str = "com.coreos.update1";

/// The path of the service's object.
pub const OBJECT_PATH: &'static str = "/com/coreos/update1";

/// The interface of the service's object.
pub const INTERFACE_NAME: &'static str = "com.coreos.update1.Manager";

/// The name of the signal that announces a new status.
pub const SIGNAL_NAME: &'static str = "StatusUpdate";

/// How long to wait before a failing exit, so that a buffered log can flush.
pub const FLUSH_DELAY_MILLIS: u64 = 200;

/// The exit status of a clean shutdown.
pub const EXIT_CLEAN: i32 = 0;

/// The exit status of a failure.
pub const EXIT_FAILURE: i32 = 1;

/// The methods of the service's interface.
#[derive(Debug, Clone, Copy, PartialEq, Eq, Structural)]
pub enum ManagerMethod {
    GetStatus,
    AttemptUpdate,
    ResetStatus,
}

/// The error a method of the interface answers with.
#[derive(Debug, Clone, Copy, PartialEq, Eq, Structural)]
pub enum MethodError {
    NotImplemented,
}

impl MethodError {
    /// The text of the error sent back to the caller.
    pub fn message(&self) -> (r: &'static str)
        ensures
            r@ == "Not implemented"@,
    {
        "Not implemented"
    }
}

impl ManagerMethod {
    /// The member name of the method on the bus.
    pub fn member_name(&self) -> (r: &'static str)
        ensures
            *self == ManagerMethod::GetStatus ==> r@ == "GetStatus"@,
            *self == ManagerMethod::AttemptUpdate ==> r@ == "AttemptUpdate"@,
            *self == ManagerMethod::ResetStatus ==> r@ == "ResetStatus"@,
    {
        match self {
            ManagerMethod::GetStatus => "GetStatus",
            ManagerMethod::AttemptUpdate => "AttemptUpdate",
            ManagerMethod::ResetStatus => "ResetStatus",
        }
    }
}

/// What a method call answers, given whether the sentinel file exists at the
/// time of the call.
pub open spec fn spec_answer(method: ManagerMethod, marker_exists: bool) -> Result<UpdateStatus, MethodError> {
    match method {
        ManagerMethod::GetStatus => Ok(status_for_presence(marker_exists)),
        _ => Err(MethodError::NotImplemented),
    }
}

/// Answers a method call: the status for the sentinel's presence, checked at
/// the time of the call, or an error for the methods that are not implemented.
pub fn answer(method: ManagerMethod, marker_exists: bool) -> (r: Result<UpdateStatus, MethodError>)
    ensures
        r == spec_answer(method, marker_exists),
{
    match method {
        ManagerMethod::GetStatus => {
            if marker_exists {
                Ok(UpdateStatus::UpdatedNeedReboot)
            } else {
                Ok(UpdateStatus::Idle)
            }
        },
        ManagerMethod::AttemptUpdate => Err(MethodError::NotImplemented),
        ManagerMethod::ResetStatus => Err(MethodError::NotImplemented),
    }
}

/// The failures of the daemon, all of them fatal.
#[derive(Debug, Clone, Copy, PartialEq, Eq, Structural)]
pub enum BrokerError {
    /// The bus could not be reached.
    Connection,
    /// The bus name or the object tree was not registered.
    Registration,
    /// The sentinel file cannot be watched.
    WatchSetup(WatchSetupError),
    /// The event loop or the bus transport failed.
    Runtime,
}

/// The bus's reply to the request for the service's name.
#[derive(Debug, Clone, Copy, PartialEq, Eq, Structural)]
pub enum NameReply {
    /// The service now owns the name.
    PrimaryOwner,
    /// The name is owned by another, and the request waits in its queue.
    InQueue,
    /// The name is owned by another, and the request was not queued.
    Exists,
    /// The service owned the name already.
    AlreadyOwner,
}

/// Whether a reply to the name request gives the service its name.
pub open spec fn owns_name(reply: NameReply) -> bool {
    reply == NameReply::PrimaryOwner || reply == NameReply::AlreadyOwner
}

/// The outcome of the name request: registered only where the service owns
/// the name; a queued or refused request is a registration failure.
pub fn name_registration(reply: NameReply) -> (r: Result<(), BrokerError>)
    ensures
        r.is_ok() == owns_name(reply),
        r.is_err() ==> r == Err::<(), BrokerError>(BrokerError::Registration),
{
    match reply {
        NameReply::PrimaryOwner => Ok(()),
        NameReply::AlreadyOwner => Ok(()),
        NameReply::InQueue => Err(BrokerError::Registration),
        NameReply::Exists => Err(BrokerError::Registration),
    }
}

/// The phases of the daemon's life.
#[derive(Debug, Clone, Copy, PartialEq, Eq, Structural)]
pub enum Phase {
    Starting,
    Running,
    Stopping,
    FailedStartup,
    FailedRunning,
}

impl Phase {
    /// No event leads out of this phase.
    pub open spec fn is_terminal(self) -> bool {
        self != Phase::Starting && self != Phase::Running
    }
}

/// What happens to the daemon.
#[derive(Debug)]
pub enum BrokerEvent {
    /// The bus name and object are registered and the sentinel is watched.
    Started(UpdateStatusNotifier),
    /// A step of the startup failed.
    StartupFailed(BrokerError),
    /// The watch on the sentinel's directory reported a change.
    FileChanged(FileChangeEvent),
    /// A method of the interface was called; the flag tells whether the
    /// sentinel file exists now.
    MethodCalled(ManagerMethod, bool),
    /// The process received its termination signal.
    Terminated,
    /// The watch ended, or failed.
    WatchEnded,
    /// The server task or the event loop failed.
    ServerFailed,
}

/// What the daemon does in response to an event.
#[derive(Debug, Clone, Copy, PartialEq, Eq, Structural)]
pub enum BrokerAction {
    /// Nothing.
    Wait,
    /// Broadcast a snapshot of this status as a signal.
    Emit(UpdateStatus),
    /// Send a snapshot of this status back to the caller.
    ReplyStatus(UpdateStatus),
    /// Send this error back to the caller.
    ReplyError(MethodError),
    /// Leave the process with `code`, after `delay_millis`.
    Exit { code: i32, delay_millis: u64 },
}

/// The reply that carries an answer.
pub open spec fn reply_for(a: Result<UpdateStatus, MethodError>) -> BrokerAction {
    match a {
        Ok(s) => BrokerAction::ReplyStatus(s),
        Err(e) => BrokerAction::ReplyError(e),
    }
}

/// The exit of a failed daemon.
pub open spec fn failure_exit() -> BrokerAction {
    BrokerAction::Exit { code: EXIT_FAILURE, delay_millis: FLUSH_DELAY_MILLIS }
}

/// The exit of a daemon that was asked to stop.
pub open spec fn clean_exit() -> BrokerAction {
    BrokerAction::Exit { code: EXIT_CLEAN, delay_millis: 0 }
}

/// The lifecycle of the daemon: it starts, runs while it emits and answers,
/// and ends cleanly on the termination signal or with a failure.
#[derive(Debug)]
pub struct Broker {
    phase: Phase,
    notifier: Option<UpdateStatusNotifier>,
}

impl Broker {
    /// The current phase.
    pub closed spec fn spec_phase(&self) -> Phase {
        self.phase
    }

    /// The notifier that filters the watch's events.
    pub closed spec fn spec_notifier(&self) -> Option<UpdateStatusNotifier> {
        self.notifier
    }

    /// A running broker has its notifier.
    pub open spec fn wf(&self) -> bool {
        self.spec_phase() == Phase::Running ==> self.spec_notifier().is_some()
    }

    /// A broker in the starting phase.
    pub fn new() -> (r: Broker)
        ensures
            r.spec_phase() == Phase::Starting,
            r.wf(),
    {
        Broker { phase: Phase::Starting, notifier: None }
    }

    /// The current phase.
    pub fn phase(&self) -> (r: Phase)
        ensures
            r == self.spec_phase(),
    {
        self.phase
    }

    /// Takes one event and says what to do about it.
    ///
    /// Startup moves to running, or fails with exit status 1. While running,
    /// the sentinel's changes are emitted, method calls are answered, the
    /// termination signal ends with exit status 0, and the end of the watch or
    /// a failure of the server ends with exit status 1. Method calls never
    /// change the phase and never emit. Once the daemon has stopped or failed,
    /// nothing more happens.
    pub fn step(&mut self, event: BrokerEvent) -> (r: BrokerAction)
        requires
            old(self).wf(),
        ensures
            final(self).wf(),
            old(self).spec_phase().is_terminal() ==> r == BrokerAction::Wait && final(self).spec_phase()
                == old(self).spec_phase(),
            old(self).spec_phase() == Phase::Starting ==> match event {
                BrokerEvent::Started(n) => r == BrokerAction::Wait && final(self).spec_phase()
                    == Phase::Running && final(self).spec_notifier() == Some(n),
                BrokerEvent::StartupFailed(_) => r == failure_exit() && final(self).spec_phase()
                    == Phase::FailedStartup,
                BrokerEvent::Terminated => r == clean_exit() && final(self).spec_phase() == Phase::Stopping,
                _ => r == BrokerAction::Wait && final(self).spec_phase() == Phase::Starting,
            },
            old(self).spec_phase() == Phase::Running ==> match event {
                BrokerEvent::FileChanged(e) => *final(self) == *old(self) && r == match old(
                    self,
                ).spec_notifier().unwrap().spec_status_for(e) {
                    Some(s) => BrokerAction::Emit(s),
                    None => BrokerAction::Wait,
                },
                BrokerEvent::MethodCalled(m, exists) => *final(self) == *old(self) && r
                    == reply_for(spec_answer(m, exists)),
                BrokerEvent::Terminated => r == clean_exit() && final(self).spec_phase() == Phase::Stopping,
                BrokerEvent::WatchEnded => r == failure_exit() && final(self).spec_phase()
                    == Phase::FailedRunning,
                BrokerEvent::ServerFailed => r == failure_exit() && final(self).spec_phase()
                    == Phase::FailedRunning,
                _ => r == BrokerAction::Wait && *final(self) == *old(self),
            },
    {
        match self.phase {
            Phase::Starting => match event {
                BrokerEvent::Started(n) => {
                    self.phase = Phase::Running;
                    self.notifier = Some(n);
                    BrokerAction::Wait
                },
                BrokerEvent::StartupFailed(_) => {
                    self.phase = Phase::FailedStartup;
                    BrokerAction::Exit { code: EXIT_FAILURE, delay_millis: FLUSH_DELAY_MILLIS }
                },
                BrokerEvent::Terminated => {
                    self.phase = Phase::Stopping;
                    BrokerAction::Exit { code: EXIT_CLEAN, delay_millis: 0 }
                },
                _ => BrokerAction::Wait,
            },
            Phase::Running => match event {
                BrokerEvent::FileChanged(e) => {
                    let status = match &self.notifier {
                        Some(n) => n.status_for(&e),
                        None => None,
                    };
                    match status {
                        Some(s) => BrokerAction::Emit(s),
                        None => BrokerAction::Wait,
                    }
                },
                BrokerEvent::MethodCalled(m, exists) => match answer(m, exists) {
                    Ok(s) => BrokerAction::ReplyStatus(s),
                    Err(e) => BrokerAction::ReplyError(e),
                },
                BrokerEvent::Terminated => {
                    self.phase = Phase::Stopping;
                    BrokerAction::Exit { code: EXIT_CLEAN, delay_millis: 0 }
                },
                BrokerEvent::WatchEnded => {
                    self.phase = Phase::FailedRunning;
                    BrokerAction::Exit { code: EXIT_FAILURE, delay_millis: FLUSH_DELAY_MILLIS }
                },
                BrokerEvent::ServerFailed => {
                    self.phase = Phase::FailedRunning;
                    BrokerAction::Exit { code: EXIT_FAILURE, delay_millis: FLUSH_DELAY_MILLIS }
                },
                _ => BrokerAction::Wait,
            },
            _ => BrokerAction::Wait,
        }
    }
}

/// `GetStatus` reports a needed reboot exactly when the sentinel file exists
/// at the time of the call, and idle otherwise; nothing else enters it.
pub proof fn lemma_get_status_follows_marker(marker_exists: bool)
    ensures
        marker_exists ==> spec_answer(ManagerMethod::GetStatus, marker_exists) == Ok::<
            UpdateStatus,
            MethodError,
        >(UpdateStatus::UpdatedNeedReboot),
        !marker_exists ==> spec_answer(ManagerMethod::GetStatus, marker_exists) == Ok::<
            UpdateStatus,
            MethodError,
        >(UpdateStatus::Idle),
{
}

/// `AttemptUpdate` and `ResetStatus` always answer that they are not
/// implemented, and their reply is an error, never a signal.
pub proof fn lemma_unimplemented_methods(method: ManagerMethod, marker_exists: bool)
    requires
        method == ManagerMethod::AttemptUpdate || method == ManagerMethod::ResetStatus,
    ensures
        spec_answer(method, marker_exists) == Err::<UpdateStatus, MethodError>(
            MethodError::NotImplemented,
        ),
        reply_for(spec_answer(method, marker_exists)) == BrokerAction::ReplyError(
            MethodError::NotImplemented,
        ),
{
}

} // verus!
