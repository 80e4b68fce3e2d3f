//! What the partition state machine tells the outside world to do, and
//! the effect reports it receives back from the invoker.
//!
//! Actions are produced by `apply`, consumed by external executors
//! (the invoker, the timer service, the network layer), and are not
//! themselves persisted by this core.

use vstd::prelude::*;

verus! {

use crate::commands::{AckResponse, MessageIndex};
use crate::identifiers::{EntryIndex, FullInvocationId, InvocationUuid, ServiceId};
use crate::invocation::{
    InvocationResponse, InvocationTermination, ServiceInvocation, ServiceInvocationResponseSink,
    ServiceInvocationSpanContext, UserErrorCode,
};

/// A timer registered by an invocation: when `wake_up_time` passes, the
/// journal entry `entry_index` of `full_invocation_id` completes.
#[derive(Debug, Clone, PartialEq, Eq)]
pub struct TimerValue {
    pub full_invocation_id: FullInvocationId,
    pub entry_index: EntryIndex,
    pub wake_up_time: u64,
}

/// The key a registered timer is addressed by.
#[derive(Debug, Clone, Copy, PartialEq, Eq, Structural)]
pub struct TimerKey {
    pub invocation_uuid: InvocationUuid,
    pub journal_index: EntryIndex,
    pub timestamp: u64,
}

/// The result delivered into a waiting journal entry.
#[derive(Debug, Clone, PartialEq, Eq)]
pub enum CompletionResult {
    /// Pure acknowledgement that the entry is stored.
    Ack,
    /// Completion without a value.
    Empty,
    Success(Vec<u8>),
    Failure(UserErrorCode, String),
}

/// A completion of one journal entry.
#[derive(Debug, Clone, PartialEq, Eq)]
pub struct Completion {
    pub entry_index: EntryIndex,
    pub result: CompletionResult,
}

/// A message parked in the outbox until the shuffle delivers it to its
/// destination partition or node.
#[derive(Debug, Clone, PartialEq, Eq)]
pub enum OutboxMessage {
    /// Invoke a service owned by another partition.
    ServiceInvocation(ServiceInvocation),
    /// Deliver a response to an invocation owned by another partition.
    ServiceResponse(InvocationResponse),
    /// Deliver a response to a waiting ingress client.
    IngressResponse { to_node: crate::invocation::GenerationalNodeId, response: crate::invocation::ResponseResult },
    /// Terminate an invocation owned by another partition.
    InvocationTermination(InvocationTermination),
}

/// One journal entry reported by the invoker, reduced to what the state
/// machine reads of it.
#[derive(Debug, Clone, PartialEq, Eq)]
pub enum JournalEntryKind {
    /// The invocation set a timer.
    SetTimer { wake_up_time: u64 },
    /// The invocation started another invocation in the background.
    BackgroundInvoke(ServiceInvocation),
    /// The invocation completed a waiting entry of another invocation.
    CompleteAwakeable { id: crate::identifiers::InvocationId, entry_index: EntryIndex, result: crate::invocation::ResponseResult },
    /// Any other entry type: stored, nothing further to do.
    Other,
}

/// What the invoker reports about one invocation.
#[derive(Debug, Clone, PartialEq, Eq)]
pub enum InvokerEffectKind {
    /// A new journal entry was produced.
    JournalEntry { entry_index: EntryIndex, entry: JournalEntryKind },
    /// The invocation suspended, waiting on completions.
    Suspended,
    /// The invocation finished.
    End,
    /// The invocation failed terminally.
    Failed { code: UserErrorCode, message: String },
}

/// An effect report of the invoker for one invocation.
#[derive(Debug, Clone, PartialEq, Eq)]
pub struct InvokerEffect {
    pub full_invocation_id: FullInvocationId,
    pub kind: InvokerEffectKind,
}

/// One effect of a non-deterministic built-in service.
#[derive(Debug, Clone, PartialEq, Eq)]
pub enum NbisEffect {
    /// Open a virtual journal on the given service instance.
    CreateVirtualJournal {
        service_id: ServiceId,
        method_name: String,
        invocation_uuid: InvocationUuid,
    },
    /// Close the virtual journal of the given invocation.
    DropJournal { invocation_uuid: InvocationUuid },
    /// Send a message through the outbox.
    OutboxMessage(OutboxMessage),
}

/// The effects a built-in service reports for one invocation.
#[derive(Debug, Clone, PartialEq, Eq)]
pub struct NbisEffects {
    pub full_invocation_id: FullInvocationId,
    pub effects: Vec<NbisEffect>,
}

/// An instruction to an external executor, emitted by `apply` in the
/// order its causing sub-effects are discovered.
#[derive(Debug, Clone, PartialEq, Eq)]
pub enum Action {
    /// Hand the invocation to the invoker. The invoker fetches the
    /// journal itself; the core passes no cached copy along.
    Invoke { full_invocation_id: FullInvocationId },
    /// Hand the invocation to a built-in service.
    InvokeBuiltInService {
        full_invocation_id: FullInvocationId,
        method: String,
        span_context: ServiceInvocationSpanContext,
        response_sink: Option<ServiceInvocationResponseSink>,
        argument: Vec<u8>,
    },
    /// Deliver a completion into a virtual journal.
    NotifyVirtualJournalCompletion {
        target_service: ServiceId,
        method_name: String,
        invocation_uuid: InvocationUuid,
        completion: Completion,
    },
    /// Tell a virtual journal's owner that the invocation was killed.
    NotifyVirtualJournalKill {
        target_service: ServiceId,
        method_name: String,
        invocation_uuid: InvocationUuid,
    },
    /// Park a message in the outbox under the given sequence number.
    NewOutboxMessage { seq_number: MessageIndex, message: OutboxMessage },
    /// Register a timer with the timer service.
    RegisterTimer { timer_value: TimerValue },
    /// Remove a timer from the timer service.
    DeleteTimer { timer_key: TimerKey },
    /// Tell the invoker that a journal entry is durably stored.
    AckStoredEntry { full_invocation_id: FullInvocationId, entry_index: EntryIndex },
    /// Forward a completion to the invoker.
    ForwardCompletion { full_invocation_id: FullInvocationId, completion: Completion },
    /// Send an acknowledgement back to a producer.
    SendAckResponse(AckResponse),
    /// Abort a running invocation at the invoker.
    AbortInvocation(FullInvocationId),
}

} // verus!
