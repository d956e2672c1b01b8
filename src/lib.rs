//! A status broker that reports whether a pending software update needs a
//! reboot, derived from the presence of a sentinel file.
//!
//! The library holds the decisions: the wire names of the update states, the
//! snapshots built from sentinel events and from marker presence, the filter
//! that restricts a directory watch to one file, the answers of the bus
//! interface, and the lifecycle of the daemon as a state machine. The I/O
//! (bus, inotify, signals, timers) is driven by the program around it.

mod apt;
mod notifier;
mod server;
mod update_status;

pub use update_status::{
    is_unicode_whitespace, is_wire_identifier, lemma_wire_name_injective,
    lemma_wire_name_is_identifier, reported_version, status_for_presence, trimmed_end,
    version_from_output, wire_name_of, EpochTime, UpdateStatus, UpdateStatusIndication,
    NANOS_PER_MILLI, NANOS_PER_SEC, VERSION_ZERO,
};
pub use notifier::{
    file_name_of, kind_of_mask, lemma_other_entries_ignored, lemma_sentinel_changes, parent_of, status_for_change, ChangeKind, FileChangeEvent,
    UpdateStatusNotifier, WatchSetupError, IN_CREATE, IN_DELETE, IN_MODIFY,
};
pub use server::{
    answer, clean_exit, failure_exit, lemma_get_status_follows_marker,
    lemma_unimplemented_methods, name_registration, owns_name, reply_for, spec_answer, Broker,
    BrokerAction, BrokerError, BrokerEvent, ManagerMethod, MethodError, NameReply, Phase, BUS_NAME,
    EXIT_CLEAN, EXIT_FAILURE, FLUSH_DELAY_MILLIS, INTERFACE_NAME, OBJECT_PATH, SIGNAL_NAME,
};
pub use apt::{is_c_compatible, nul_free, AptFileLock, Config, ConfigError, ConfigQuery, LockError};
