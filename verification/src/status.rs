//! Types of the read-only status surface: how an invocation's state and
//! journal are presented to operational tooling.

use vstd::prelude::*;

verus! {

/// The externally observable state of an invocation.
#[derive(Debug, Clone, Copy, PartialEq, Eq, Structural, Hash)]
pub enum InvocationState {
    /// The state column held something unknown.
    Unknown,
    Pending,
    Ready,
    Running,
    Suspended,
    BackingOff,
}

impl InvocationState {
    /// Reads a state from its column value; anything unrecognized is
    /// `Unknown`.
    pub fn from_str(s: &str) -> (r: Self)
        ensures
            s@ == "pending"@ ==> r == InvocationState::Pending,
            s@ == "ready"@ ==> r == InvocationState::Ready,
            s@ == "running"@ ==> r == InvocationState::Running,
            s@ == "suspended"@ ==> r == InvocationState::Suspended,
            s@ == "backing-off"@ ==> r == InvocationState::BackingOff,
            s@ != "pending"@ && s@ != "ready"@ && s@ != "running"@ && s@ != "suspended"@ && s@
                != "backing-off"@ ==> r == InvocationState::Unknown,
    {
        proof {
            reveal_strlit("pending");
            reveal_strlit("ready");
            reveal_strlit("running");
            reveal_strlit("suspended");
            reveal_strlit("backing-off");
            assert("pending"@.len() == 7);
            assert("ready"@.len() == 5);
            assert("running"@.len() == 7);
            assert("suspended"@.len() == 9);
            assert("backing-off"@.len() == 11);
            assert("pending"@[0] == 'p' && "running"@[0] == 'r');
        }
        if str_matches(s, "pending") {
            InvocationState::Pending
        } else if str_matches(s, "ready") {
            InvocationState::Ready
        } else if str_matches(s, "running") {
            InvocationState::Running
        } else if str_matches(s, "suspended") {
            InvocationState::Suspended
        } else if str_matches(s, "backing-off") {
            InvocationState::BackingOff
        } else {
            InvocationState::Unknown
        }
    }

    /// The column value this state is written as.
    pub fn name(&self) -> (r: &'static str)
        ensures
            match self {
                InvocationState::Unknown => r@ == "unknown"@,
                InvocationState::Pending => r@ == "pending"@,
                InvocationState::Ready => r@ == "ready"@,
                InvocationState::Running => r@ == "running"@,
                InvocationState::Suspended => r@ == "suspended"@,
                InvocationState::BackingOff => r@ == "backing-off"@,
            },
    {
        match self {
            InvocationState::Unknown => "unknown",
            InvocationState::Pending => "pending",
            InvocationState::Ready => "ready",
            InvocationState::Running => "running",
            InvocationState::Suspended => "suspended",
            InvocationState::BackingOff => "backing-off",
        }
    }
}

/// Whether two string slices hold the same characters.
fn str_matches(a: &str, b: &str) -> (r: bool)
    ensures
        r == (a@ == b@),
{
    let na = a.unicode_len();
    let nb = b.unicode_len();
    if na != nb {
        return false;
    }
    let mut i: usize = 0;
    while i < na
        invariant
            0 <= i <= na,
            na == a@.len() == b@.len(),
            forall|j: int| 0 <= j < i ==> a@[j] == b@[j],
        decreases na - i,
    {
        if a.get_char(i) != b.get_char(i) {
            return false;
        }
        i = i + 1;
    }
    proof {
        assert(a@ =~= b@);
    }
    true
}

/// An invocation started by a journal entry, as shown in the journal
/// view.
#[derive(Debug, Clone, PartialEq, Eq)]
pub struct OutgoingInvoke {
    pub invocation_id: Option<String>,
    pub invoked_service: Option<String>,
    pub invoked_method: Option<String>,
    pub invoked_service_key: Option<String>,
}

/// One presented journal entry.
#[derive(Debug, Clone, PartialEq, Eq)]
pub struct JournalEntry {
    pub seq: u32,
    pub entry_type: JournalEntryType,
    pub completed: bool,
}

impl JournalEntry {
    /// Whether the entry is done: completable entries by their completion
    /// flag, all others by definition.
    pub fn is_completed(&self) -> (r: bool)
        ensures
            r == if journal_entry_type_completable(self.entry_type) {
                self.completed
            } else {
                true
            },
    {
        if self.entry_type.is_completable() {
            self.completed
        } else {
            true
        }
    }

    /// Whether the entry is worth a row in the journal view.
    pub fn should_present(&self) -> (r: bool)
        ensures
            r == journal_entry_type_presented(self.entry_type),
    {
        self.entry_type.should_present()
    }
}

/// The kind of a presented journal entry; a sleep carries its wake-up
/// time in milliseconds since the epoch, if known.
#[derive(Debug, Clone, PartialEq, Eq)]
pub enum JournalEntryType {
    Sleep { wakeup_at: Option<u64> },
    Invoke(OutgoingInvoke),
    BackgroundInvoke(OutgoingInvoke),
    Awakeable,
    GetState,
    SetState,
    ClearState,
    Other(String),
}

/// Entry kinds that complete later: sleeps, calls, awakeables and
/// state reads.
pub open spec fn journal_entry_type_completable(t: JournalEntryType) -> bool {
    match t {
        JournalEntryType::Sleep { .. } => true,
        JournalEntryType::Invoke(_) => true,
        JournalEntryType::Awakeable => true,
        JournalEntryType::GetState => true,
        _ => false,
    }
}

/// Entry kinds shown to users: sleeps, calls and awakeables only.
pub open spec fn journal_entry_type_presented(t: JournalEntryType) -> bool {
    match t {
        JournalEntryType::Sleep { .. } => true,
        JournalEntryType::Invoke(_) => true,
        JournalEntryType::BackgroundInvoke(_) => true,
        JournalEntryType::Awakeable => true,
        _ => false,
    }
}

impl JournalEntryType {
    /// Whether this entry kind completes later.
    pub fn is_completable(&self) -> (r: bool)
        ensures
            r == journal_entry_type_completable(*self),
    {
        matches!(
            self,
            JournalEntryType::Sleep { .. } | JournalEntryType::Invoke(_)
                | JournalEntryType::Awakeable | JournalEntryType::GetState
        )
    }

    /// Whether this entry kind is shown.
    pub fn should_present(&self) -> (r: bool)
        ensures
            r == journal_entry_type_presented(*self),
    {
        matches!(
            self,
            JournalEntryType::Sleep { .. } | JournalEntryType::Invoke(_)
                | JournalEntryType::BackgroundInvoke(_) | JournalEntryType::Awakeable
        )
    }
}

/// Aggregated invocation counts of one service method.
#[derive(Debug, Clone, PartialEq, Eq)]
pub struct ServiceMethodUsage {
    pub service: String,
    pub method: String,
    pub inv_count: i64,
}

} // verus!
