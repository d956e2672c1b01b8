use vstd::prelude::*;
use vstd::utf8::encode_utf8;
use crate::update_status::{EpochTime, UpdateStatus, UpdateStatusIndication};

verus! {

/// The inotify mask bit of an entry created in the watched directory.
pub const IN_CREATE: u32 = 0x100;

/// The inotify mask bit of an entry deleted from the watched directory.
pub const IN_DELETE: u32 = 0x200;

/// The inotify mask bit of a modified entry.
pub const IN_MODIFY: u32 = 0x2;

/// What happened to a directory entry.
#[derive(Debug, Clone, Copy, PartialEq, Eq, Structural)]
pub enum ChangeKind {
    Create,
    Delete,
    Modify,
    Other,
}

/// A change reported by the watch on the sentinel's directory: the raw bytes
/// of the entry's name and the inotify event mask.
#[derive(Debug)]
pub struct FileChangeEvent {
    pub name: Vec<u8>,
    pub mask: u32,
}

/// The kind of change an event mask reports; creation comes before deletion,
/// and deletion before modification, where several bits are set.
pub open spec fn kind_of_mask(mask: u32) -> ChangeKind {
    if mask & IN_CREATE != 0 {
        ChangeKind::Create
    } else if mask & IN_DELETE != 0 {
        ChangeKind::Delete
    } else if mask & IN_MODIFY != 0 {
        ChangeKind::Modify
    } else {
        ChangeKind::Other
    }
}

/// The status that a change of the sentinel file announces, if any.
pub open spec fn status_for_change(kind: ChangeKind) -> Option<UpdateStatus> {
    match kind {
        ChangeKind::Create => Some(UpdateStatus::UpdatedNeedReboot),
        ChangeKind::Delete => Some(UpdateStatus::Idle),
        _ => None,
    }
}

impl FileChangeEvent {
    /// The kind of change this event reports.
    pub fn kind(&self) -> (r: ChangeKind)
        ensures
            r == kind_of_mask(self.mask),
    {
        if self.mask & IN_CREATE != 0 {
            ChangeKind::Create
        } else if self.mask & IN_DELETE != 0 {
            ChangeKind::Delete
        } else if self.mask & IN_MODIFY != 0 {
            ChangeKind::Modify
        } else {
            ChangeKind::Other
        }
    }
}

impl UpdateStatusIndication {
    /// The snapshot that a change of the sentinel file gives: a creation
    /// needs a reboot, a deletion returns to idle, and any other change gives
    /// none.
    pub fn from_inotify_event(event: &FileChangeEvent, last_checked_time: EpochTime, new_version: String) -> (r: Option<
        UpdateStatusIndication,
    >)
        ensures
            r.is_some() == status_for_change(kind_of_mask(event.mask)).is_some(),
            r.is_some() ==> r.unwrap().current_operation == status_for_change(
                kind_of_mask(event.mask),
            ).unwrap(),
            r.is_some() ==> r.unwrap().last_checked_time == last_checked_time,
            r.is_some() ==> r.unwrap().new_version@ == new_version@,
            r.is_some() ==> r.unwrap().new_size == 0,
    {
        match event.kind() {
            ChangeKind::Create => Some(
                UpdateStatusIndication::new(UpdateStatus::UpdatedNeedReboot, last_checked_time, new_version),
            ),
            ChangeKind::Delete => Some(UpdateStatusIndication::new(UpdateStatus::Idle, last_checked_time, new_version)),
            _ => None,
        }
    }
}

/// The sentinel path cannot be watched.
#[derive(Debug, Clone, Copy, PartialEq, Eq, Structural)]
pub enum WatchSetupError {
    /// The path has no final component, or no parent directory.
    InvalidPath,
    /// The operating system refused the watch on the parent directory.
    WatchRefused,
}

impl WatchSetupError {
    /// A message for the log.
    pub fn message(&self) -> (r: &'static str)
        ensures
            *self == WatchSetupError::InvalidPath ==> r@ == "Invalid path to reboot sentinel file"@,
            *self == WatchSetupError::WatchRefused ==> r@ == "Could not watch the sentinel's directory"@,
    {
        match self {
            WatchSetupError::InvalidPath => "Invalid path to reboot sentinel file",
            WatchSetupError::WatchRefused => "Could not watch the sentinel's directory",
        }
    }
}

/// What `Path::parent` gives for a path.
pub uninterp spec fn parent_of(path: Seq<char>) -> Option<Seq<char>>;

/// What `Path::file_name` gives for a path.
pub uninterp spec fn file_name_of(path: Seq<char>) -> Option<Seq<char>>;

/// Relies on `std::path::Path::parent`: the path without its final
/// component, none for the empty path.
#[verifier::external_body]
fn path_parent(path: &str) -> (r: Option<String>)
    ensures
        r.is_some() == parent_of(path@).is_some(),
        r.is_some() ==> r.unwrap()@ == parent_of(path@).unwrap(),
        path@.len() == 0 ==> r.is_none(),
{
    std::path::Path::new(path).parent().map(|d| d.to_string_lossy().into_owned())
}

/// Relies on `std::path::Path::file_name`: the final component of the path,
/// if it has one.
#[verifier::external_body]
fn path_file_name(path: &str) -> (r: Option<String>)
    ensures
        r.is_some() == file_name_of(path@).is_some(),
        r.is_some() ==> r.unwrap()@ == file_name_of(path@).unwrap(),
{
    std::path::Path::new(path).file_name().map(|n| n.to_string_lossy().into_owned())
}

/// Restricts the changes in one directory to those of the sentinel file.
#[derive(Debug)]
pub struct UpdateStatusNotifier {
    watch_dir: String,
    sentinel_name: String,
}

impl UpdateStatusNotifier {
    /// The directory to watch.
    pub closed spec fn spec_watch_dir(&self) -> Seq<char> {
        self.watch_dir@
    }

    /// The name of the sentinel file within that directory.
    pub closed spec fn spec_sentinel_name(&self) -> Seq<char> {
        self.sentinel_name@
    }

    /// Whether an event concerns the sentinel file.
    pub open spec fn concerns_sentinel(&self, event: FileChangeEvent) -> bool {
        event.name@ == encode_utf8(self.spec_sentinel_name())
    }

    /// The status this notifier announces for an event: none for another
    /// entry of the directory, else the one the change stands for.
    pub open spec fn spec_status_for(&self, event: FileChangeEvent) -> Option<UpdateStatus> {
        if self.concerns_sentinel(event) {
            status_for_change(kind_of_mask(event.mask))
        } else {
            None
        }
    }

    /// A notifier for the sentinel file at `path`. It fails where the path
    /// has no final component or no parent directory.
    pub fn for_path(path: &str) -> (r: Result<UpdateStatusNotifier, WatchSetupError>)
        ensures
            r.is_ok() == (file_name_of(path@).is_some() && parent_of(path@).is_some()),
            parent_of(path@).is_none() ==> r == Err::<UpdateStatusNotifier, WatchSetupError>(
                WatchSetupError::InvalidPath,
            ),
            r.is_err() ==> r == Err::<UpdateStatusNotifier, WatchSetupError>(
                WatchSetupError::InvalidPath,
            ),
            r.is_ok() ==> r.unwrap().spec_sentinel_name() == file_name_of(path@).unwrap(),
            r.is_ok() ==> r.unwrap().spec_watch_dir() == parent_of(path@).unwrap(),
    {
        match path_file_name(path) {
            Some(sentinel_name) => match path_parent(path) {
                Some(watch_dir) => Ok(UpdateStatusNotifier { watch_dir, sentinel_name }),
                None => Err(WatchSetupError::InvalidPath),
            },
            None => Err(WatchSetupError::InvalidPath),
        }
    }

    /// The directory to watch for creations and deletions.
    pub fn watch_dir(&self) -> (r: &str)
        ensures
            r@ == self.spec_watch_dir(),
    {
        self.watch_dir.as_str()
    }

    /// The name of the sentinel file.
    pub fn sentinel_name(&self) -> (r: &str)
        ensures
            r@ == self.spec_sentinel_name(),
    {
        self.sentinel_name.as_str()
    }

    /// Whether an event concerns the sentinel file: its entry name has the
    /// bytes of the sentinel's name.
    pub fn accepts(&self, event: &FileChangeEvent) -> (r: bool)
        ensures
            r == self.concerns_sentinel(*event),
    {
        let expected = self.sentinel_name.as_str().as_bytes();
        let name = event.name.as_slice();
        if name.len() != expected.len() {
            return false;
        }
        let mut i: usize = 0;
        while i < name.len()
            invariant
                name@ == event.name@,
                expected@ == encode_utf8(self.sentinel_name@),
                name@.len() == expected@.len(),
                0 <= i <= name@.len(),
                forall|j: int| 0 <= j < i ==> name@[j] == expected@[j],
            decreases name@.len() - i,
        {
            if name[i] != expected[i] {
                return false;
            }
            i = i + 1;
        }
        assert(name@ =~= expected@);
        true
    }

    /// The status to announce for an event in the watched directory: none for
    /// another entry, a reboot need for the sentinel's creation, idle for its
    /// deletion, and none for any other change of it.
    pub fn status_for(&self, event: &FileChangeEvent) -> (r: Option<UpdateStatus>)
        ensures
            r == self.spec_status_for(*event),
    {
        if !self.accepts(event) {
            return None;
        }
        match event.kind() {
            ChangeKind::Create => Some(UpdateStatus::UpdatedNeedReboot),
            ChangeKind::Delete => Some(UpdateStatus::Idle),
            _ => None,
        }
    }
}

/// Changes of other entries in the watched directory announce nothing.
pub proof fn lemma_other_entries_ignored(n: UpdateStatusNotifier, e: FileChangeEvent)
    requires
        e.name@ != encode_utf8(n.spec_sentinel_name()),
    ensures
        n.spec_status_for(e).is_none(),
{
}

/// The sentinel's creation announces that a reboot is needed, its deletion
/// announces idle, and a plain modification of it announces nothing.
pub proof fn lemma_sentinel_changes(n: UpdateStatusNotifier, e: FileChangeEvent)
    requires
        e.name@ == encode_utf8(n.spec_sentinel_name()),
    ensures
        e.mask & IN_CREATE != 0 ==> n.spec_status_for(e) == Some(UpdateStatus::UpdatedNeedReboot),
        e.mask & IN_CREATE == 0 && e.mask & IN_DELETE != 0 ==> n.spec_status_for(e) == Some(
            UpdateStatus::Idle,
        ),
        e.mask == IN_MODIFY ==> n.spec_status_for(e).is_none(),
{
    assert(IN_MODIFY & IN_CREATE == 0) by (bit_vector);
    assert(IN_MODIFY & IN_DELETE == 0) by (bit_vector);
}

} // verus!
