//! The audit-log latch: a cell that one writer fills exactly once and that
//! readers may only observe after the writer is done.

use vstd::prelude::*;

verus! {

/// An audit-log entry together with its JSON form, made once when the entry
/// is captured so that path extractions need not serialize it again.
pub struct CombinedAuditLogEntry {
    /// The entry's id.
    pub id: u64,
    /// The entry serialized to JSON.
    pub json: serde_json::Value,
}

/// The state of a latch.
pub enum LatchState {
    /// No writer was acquired and nothing was installed.
    Empty,
    /// A writer holds the latch; readers must wait.
    Writing,
    /// The writer installed its value (none where no entry matched or the
    /// writer was cancelled) and released.
    Installed(Option<CombinedAuditLogEntry>),
}

/// What a reader sees of a latch.
pub enum LatchRead<'a> {
    /// A writer holds the latch: wait for it.
    Blocked,
    /// The value to read.
    Ready(Option<&'a CombinedAuditLogEntry>),
}

pub struct AuditLogLatch {
    state: LatchState,
}

/// What a reader of a latch in state `s` sees.
pub open spec fn read_spec(s: LatchState) -> Option<Option<CombinedAuditLogEntry>> {
    match s {
        LatchState::Writing => None,
        LatchState::Empty => Some(None),
        LatchState::Installed(e) => Some(e),
    }
}

impl<'a> LatchRead<'a> {
    pub open spec fn view(&self) -> Option<Option<CombinedAuditLogEntry>> {
        match self {
            LatchRead::Blocked => None,
            LatchRead::Ready(Some(e)) => Some(Some(**e)),
            LatchRead::Ready(None) => Some(None),
        }
    }
}

impl AuditLogLatch {
    pub closed spec fn state(&self) -> LatchState {
        self.state
    }

    /// A latch with no writer and nothing installed.
    pub fn new() -> (r: AuditLogLatch)
        ensures
            r.state() is Empty,
    {
        AuditLogLatch { state: LatchState::Empty }
    }

    /// Acquires the single writer; granted only on an empty latch.
    pub fn acquire_writer(&mut self) -> (granted: bool)
        ensures
            granted == old(self).state() is Empty,
            granted ==> final(self).state() is Writing,
            !granted ==> final(self).state() == old(self).state(),
    {
        match self.state {
            LatchState::Empty => {
                self.state = LatchState::Writing;
                true
            },
            _ => false,
        }
    }

    /// The writer installs its value and releases; only the writer can, and
    /// only once.
    pub fn install(&mut self, entry: Option<CombinedAuditLogEntry>) -> (done: bool)
        ensures
            done == old(self).state() is Writing,
            done ==> final(self).state() == LatchState::Installed(entry),
            !done ==> final(self).state() == old(self).state(),
    {
        match self.state {
            LatchState::Writing => {
                self.state = LatchState::Installed(entry);
                true
            },
            _ => false,
        }
    }

    /// A writer that is cancelled releases the latch with nothing installed.
    pub fn release(&mut self)
        ensures
            old(self).state() is Writing ==> final(self).state() == LatchState::Installed(None),
            !(old(self).state() is Writing) ==> final(self).state() == old(self).state(),
    {
        match self.state {
            LatchState::Writing => {
                self.state = LatchState::Installed(None);
            },
            _ => {},
        }
    }

    /// What a reader sees: `Blocked` while the writer holds the latch, else
    /// the installed value (none on a latch that never had a writer).
    pub fn read(&self) -> (r: LatchRead<'_>)
        ensures
            r.view() == read_spec(self.state()),
    {
        match &self.state {
            LatchState::Writing => LatchRead::Blocked,
            LatchState::Empty => LatchRead::Ready(None),
            LatchState::Installed(e) => match e {
                Some(entry) => LatchRead::Ready(Some(entry)),
                None => LatchRead::Ready(None),
            },
        }
    }

    /// The installed value, once every reader is done.
    pub fn into_entry(self) -> (r: Option<CombinedAuditLogEntry>)
        ensures
            r == match self.state() {
                LatchState::Installed(e) => e,
                _ => None,
            },
    {
        match self.state {
            LatchState::Installed(e) => e,
            _ => None,
        }
    }
}

} // verus!
