use vstd::prelude::*;
use vstd::utf8::{decode_utf8, valid_utf8};

verus! {

/// The closed set of states of the update lifecycle.
#[derive(Debug, Clone, Copy, PartialEq, Eq, Structural)]
pub enum UpdateStatus {
    Idle,
    CheckingForUpdate,
    UpdateAvailable,
    Downloading,
    Verifying,
    Finalizing,
    UpdatedNeedReboot,
    ReportingErrorEvent,
}

/// The fixed identifier of each state on the bus and in logs.
pub open spec fn wire_name_of(s: UpdateStatus) -> Seq<char> {
    match s {
        UpdateStatus::Idle => "UPDATE_STATUS_IDLE"@,
        UpdateStatus::CheckingForUpdate => "UPDATE_STATUS_CHECKING_FOR_UPDATE"@,
        UpdateStatus::UpdateAvailable => "UPDATE_STATUS_UPDATE_AVAILABLE"@,
        UpdateStatus::Downloading => "UPDATE_STATUS_DOWNLOADING"@,
        UpdateStatus::Verifying => "UPDATE_STATUS_VERIFYING"@,
        UpdateStatus::Finalizing => "UPDATE_STATUS_FINALIZING"@,
        UpdateStatus::UpdatedNeedReboot => "UPDATE_STATUS_UPDATED_NEED_REBOOT"@,
        UpdateStatus::ReportingErrorEvent => "UPDATE_STATUS_REPORTING_ERROR_EVENT"@,
    }
}

/// Whether a string is one of the eight wire identifiers.
pub open spec fn is_wire_identifier(s: Seq<char>) -> bool {
    s == "UPDATE_STATUS_IDLE"@
        || s == "UPDATE_STATUS_CHECKING_FOR_UPDATE"@
        || s == "UPDATE_STATUS_UPDATE_AVAILABLE"@
        || s == "UPDATE_STATUS_DOWNLOADING"@
        || s == "UPDATE_STATUS_VERIFYING"@
        || s == "UPDATE_STATUS_FINALIZING"@
        || s == "UPDATE_STATUS_UPDATED_NEED_REBOOT"@
        || s == "UPDATE_STATUS_REPORTING_ERROR_EVENT"@
}

impl UpdateStatus {
    /// The wire identifier of this state.
    pub fn wire_name(&self) -> (r: &'static str)
        ensures
            r@ == wire_name_of(*self),
    {
        match *self {
            UpdateStatus::Idle => "UPDATE_STATUS_IDLE",
            UpdateStatus::CheckingForUpdate => "UPDATE_STATUS_CHECKING_FOR_UPDATE",
            UpdateStatus::UpdateAvailable => "UPDATE_STATUS_UPDATE_AVAILABLE",
            UpdateStatus::Downloading => "UPDATE_STATUS_DOWNLOADING",
            UpdateStatus::Verifying => "UPDATE_STATUS_VERIFYING",
            UpdateStatus::Finalizing => "UPDATE_STATUS_FINALIZING",
            UpdateStatus::UpdatedNeedReboot => "UPDATE_STATUS_UPDATED_NEED_REBOOT",
            UpdateStatus::ReportingErrorEvent => "UPDATE_STATUS_REPORTING_ERROR_EVENT",
        }
    }
}

impl core::ops::Deref for UpdateStatus {
    type Target = str;

    fn deref(&self) -> (r: &str)
        ensures
            r@ == wire_name_of(*self),
    {
        self.wire_name()
    }
}

/// Nanoseconds in one second.
pub const NANOS_PER_SEC: u32 = 1_000_000_000;

/// Nanoseconds in one millisecond.
pub const NANOS_PER_MILLI: u32 = 1_000_000;

/// The release reported when the release lookup gives nothing usable.
pub const VERSION_ZERO: &'static str = "0.0.0";

/// An instant, as the time elapsed since the Unix epoch.
#[derive(Debug, Clone, Copy, PartialEq, Eq, Structural)]
pub struct EpochTime {
    pub secs: u64,
    pub nanos: u32,
}

impl EpochTime {
    /// The whole milliseconds elapsed since the epoch.
    pub open spec fn millis(self) -> int {
        (self.secs * NANOS_PER_SEC + self.nanos) / (NANOS_PER_MILLI as int)
    }

    /// The sub-second part is below one second, and the milliseconds fit an `i64`.
    pub open spec fn wf(self) -> bool {
        self.nanos < NANOS_PER_SEC && self.millis() <= i64::MAX
    }
}

/// A point-in-time description of the update status. It is built once, and
/// then emitted or returned.
#[derive(Debug)]
pub struct UpdateStatusIndication {
    pub last_checked_time: EpochTime,
    pub current_operation: UpdateStatus,
    pub new_version: String,
    pub new_size: i64,
}

/// The status that the presence of the sentinel file stands for.
pub open spec fn status_for_presence(exists: bool) -> UpdateStatus {
    if exists {
        UpdateStatus::UpdatedNeedReboot
    } else {
        UpdateStatus::Idle
    }
}

impl UpdateStatusIndication {
    /// A snapshot of `current_operation`, taken at `last_checked_time`; the
    /// reserved size is zero.
    pub fn new(current_operation: UpdateStatus, last_checked_time: EpochTime, new_version: String) -> (r: Self)
        ensures
            r.current_operation == current_operation,
            r.last_checked_time == last_checked_time,
            r.new_version@ == new_version@,
            r.new_size == 0,
    {
        UpdateStatusIndication { last_checked_time, current_operation, new_version, new_size: 0 }
    }

    /// The snapshot for a sentinel file that exists or not.
    pub fn from_marker_presence(exists: bool, last_checked_time: EpochTime, new_version: String) -> (r: Self)
        ensures
            r.current_operation == status_for_presence(exists),
            r.last_checked_time == last_checked_time,
            r.new_version@ == new_version@,
            r.new_size == 0,
    {
        let status = if exists {
            UpdateStatus::UpdatedNeedReboot
        } else {
            UpdateStatus::Idle
        };
        UpdateStatusIndication::new(status, last_checked_time, new_version)
    }

    /// The time of the snapshot in milliseconds since the Unix epoch.
    pub fn last_checked_time_millis(&self) -> (r: i64)
        requires
            self.last_checked_time.wf(),
        ensures
            r == self.last_checked_time.millis(),
    {
        let t = self.last_checked_time;
        proof {
            lemma_millis_split(t.secs as int, t.nanos as int);
        }
        let whole: u64 = t.secs * 1000;
        let part: u64 = (t.nanos / NANOS_PER_MILLI) as u64;
        (whole + part) as i64
    }
}

proof fn lemma_millis_split(secs: int, nanos: int)
    requires
        secs >= 0,
        0 <= nanos < 1_000_000_000,
    ensures
        (secs * 1_000_000_000 + nanos) / 1_000_000 == secs * 1000 + nanos / 1_000_000,
        secs * 1000 <= (secs * 1_000_000_000 + nanos) / 1_000_000,
{
    assert((secs * 1_000_000_000 + nanos) / 1_000_000 == secs * 1000 + nanos / 1_000_000)
        by (nonlinear_arith)
        requires
            secs >= 0,
            0 <= nanos < 1_000_000_000,
    ;
    assert(nanos / 1_000_000 >= 0) by (nonlinear_arith)
        requires
            nanos >= 0,
    ;
}

/// Whether `c` has the Unicode `White_Space` property.
pub open spec fn is_unicode_whitespace(c: char) -> bool {
    ('\u{9}' <= c && c <= '\u{d}') || c == ' ' || c == '\u{85}' || c == '\u{a0}' || c == '\u{1680}'
        || ('\u{2000}' <= c && c <= '\u{200a}') || c == '\u{2028}' || c == '\u{2029}'
        || c == '\u{202f}' || c == '\u{205f}' || c == '\u{3000}'
}

/// `s` without its trailing whitespace.
pub open spec fn trimmed_end(s: Seq<char>) -> Seq<char>
    decreases s.len(),
{
    if s.len() > 0 && is_unicode_whitespace(s.last()) {
        trimmed_end(s.drop_last())
    } else {
        s
    }
}

/// The release text that the release lookup gives: its standard output
/// decoded and trimmed at the end, or the zero version when the lookup did
/// not run, did not succeed, or its output is not UTF-8.
pub open spec fn reported_version(succeeded: bool, stdout: Option<Seq<u8>>) -> Seq<char> {
    if !succeeded {
        VERSION_ZERO@
    } else {
        match stdout {
        Some(b) => if valid_utf8(b) {
            trimmed_end(decode_utf8(b))
        } else {
            VERSION_ZERO@
        },
            None => VERSION_ZERO@,
        }
    }
}

/// Relies on `String::from_utf8`: it succeeds exactly on valid UTF-8, with
/// the characters those bytes encode.
#[verifier::external_body]
fn utf8_string(bytes: Vec<u8>) -> (r: Option<String>)
    ensures
        r.is_some() == valid_utf8(bytes@),
        r.is_some() ==> r.unwrap()@ == decode_utf8(bytes@),
{
    String::from_utf8(bytes).ok()
}

/// Relies on `str::trim_end`: it removes the trailing characters that have
/// the Unicode `White_Space` property.
#[verifier::external_body]
fn trim_end(s: &str) -> (r: String)
    ensures
        r@ == trimmed_end(s@),
{
    s.trim_end().to_string()
}

/// The release identifier from the outcome of the release lookup: whether
/// it exited with success, and its standard output, `None` where it could
/// not be run.
pub fn version_from_output(succeeded: bool, stdout: Option<Vec<u8>>) -> (r: String)
    ensures
        !succeeded ==> r@ == VERSION_ZERO@,
        r@ == reported_version(
            succeeded,
            match stdout {
                Some(b) => Some(b@),
                None => None,
            },
        ),
{
    if !succeeded {
        return VERSION_ZERO.to_string();
    }
    match stdout {
        Some(bytes) => match utf8_string(bytes) {
            Some(text) => trim_end(text.as_str()),
            None => VERSION_ZERO.to_string(),
        },
        None => VERSION_ZERO.to_string(),
    }
}

/// Every state's wire name is one of the eight identifiers.
pub proof fn lemma_wire_name_is_identifier(s: UpdateStatus)
    ensures
        is_wire_identifier(wire_name_of(s)),
{
}

/// Distinct states have distinct wire names, so a wire name determines its state.
pub proof fn lemma_wire_name_injective(a: UpdateStatus, b: UpdateStatus)
    ensures
        wire_name_of(a) == wire_name_of(b) ==> a == b,
{
    reveal_strlit("UPDATE_STATUS_IDLE");
    reveal_strlit("UPDATE_STATUS_CHECKING_FOR_UPDATE");
    reveal_strlit("UPDATE_STATUS_UPDATE_AVAILABLE");
    reveal_strlit("UPDATE_STATUS_DOWNLOADING");
    reveal_strlit("UPDATE_STATUS_VERIFYING");
    reveal_strlit("UPDATE_STATUS_FINALIZING");
    reveal_strlit("UPDATE_STATUS_UPDATED_NEED_REBOOT");
    reveal_strlit("UPDATE_STATUS_REPORTING_ERROR_EVENT");
    if wire_name_of(a) == wire_name_of(b) && a != b {
        assert(wire_name_of(a).len() != wire_name_of(b).len() || wire_name_of(a)[14]
            != wire_name_of(b)[14] || wire_name_of(a)[15] != wire_name_of(b)[15]);
    }
}

} // verus!
