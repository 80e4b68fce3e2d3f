//! The partition state machine: a single-writer, deterministic
//! `apply(command) -> actions` over the partition's own state.
//!
//! `apply` is a pure function of the current state and the command: it
//! reads no clock, draws no randomness and does no I/O, so every replica
//! replaying the same committed commands reaches the same state and emits
//! the same actions, in the same order. Commands that reference an
//! invocation that cannot be found are idempotent no-ops, expected under
//! at-least-once delivery upstream. The acknowledgement envelope around
//! `apply` suppresses duplicates per producer and answers each producer
//! over its own channel.

use vstd::prelude::*;

verus! {

use crate::actions::{
    Action, Completion, CompletionResult, InvokerEffect, InvokerEffectKind, JournalEntryKind,
    NbisEffect, NbisEffects, OutboxMessage, TimerKey, TimerValue,
};
use crate::commands::{
    AckCommand, AckMode, Command, DeduplicationSource, MessageIndex, spec_acknowledge,
    spec_duplicate, spec_seq_number, spec_target_acknowledge,
};
use crate::dedup::{DedupTable, dedup_keys_unique, dedup_lookup, source_key_model};
use crate::identifiers::{EntryIndex, FullInvocationId, InvocationUuid, ServiceId};
use crate::invocation::{
    InvocationResponse, InvocationTermination, MaybeFullInvocationId, ResponseResult,
    ServiceInvocation, ServiceInvocationResponseSink, TerminationFlavor,
};
use crate::state_mutation::ExternalStateMutation;

/// The user-facing status code delivered with a rejected state mutation.
pub const CONFLICT_CODE: u32 = 9;

/// The user-facing status code delivered with a cancellation.
pub const CANCELED_CODE: u32 = 1;

/// What journal backs an in-flight invocation.
#[derive(Debug, Clone, PartialEq, Eq)]
pub enum JournalKind {
    /// An ordinary journal driven by the invoker.
    Invoker,
    /// A virtual journal owned by a built-in service.
    Virtual { method_name: String },
}

/// The one in-flight invocation of a service instance.
#[derive(Debug, Clone, PartialEq, Eq)]
pub struct ActiveInvocation {
    pub invocation_uuid: InvocationUuid,
    pub journal: JournalKind,
}

/// One keyed service instance: its lock holder and its FIFO inbox.
/// Services are isolated by key, so at most one invocation per instance
/// is ever in flight; the others wait in the inbox in arrival order.
#[derive(Debug, Clone, PartialEq, Eq)]
pub struct ServiceInstance {
    pub service_id: ServiceId,
    pub active: Option<ActiveInvocation>,
    pub inbox: Vec<ServiceInvocation>,
}

/// One message parked in the outbox.
#[derive(Debug, Clone, PartialEq, Eq)]
pub struct OutboxEntry {
    pub seq_number: MessageIndex,
    pub message: OutboxMessage,
}

/// The stored user state of one service instance.
#[derive(Debug, Clone, PartialEq, Eq)]
pub struct UserStateEntry {
    pub service_id: ServiceId,
    pub version: Option<String>,
    pub entries: Vec<(Vec<u8>, Vec<u8>)>,
}

/// All state owned by one partition's apply loop.
#[derive(Debug, Clone, PartialEq, Eq)]
pub struct PartitionState {
    pub instances: Vec<ServiceInstance>,
    pub timers: Vec<TimerValue>,
    pub outbox: Vec<OutboxEntry>,
    /// The sequence number the next outbox message receives.
    pub outbox_next_seq: MessageIndex,
    pub user_states: Vec<UserStateEntry>,
}

/// Why applying a command is refused.
#[derive(Debug, Clone, Copy, PartialEq, Eq, Structural)]
pub enum PartitionError {
    /// A deduplicated producer skipped ahead of its own sequence: a
    /// protocol violation that forces the producer to resync; the command
    /// was not applied.
    SequenceGap { last_applied: MessageIndex, seq_number: MessageIndex },
}

// ---------------------------------------------------------------------
// lookups over the stores
// ---------------------------------------------------------------------

/// Two service ids naming the same instance.
pub open spec fn sid_like(a: ServiceId, b: ServiceId) -> bool {
    &&& a.service_name@ == b.service_name@
    &&& a.key@ == b.key@
    &&& a.partition_key == b.partition_key
}

/// Two full invocation ids naming the same invocation.
pub open spec fn fid_like(a: FullInvocationId, b: FullInvocationId) -> bool {
    sid_like(a.service_id, b.service_id) && a.invocation_uuid == b.invocation_uuid
}

/// Two maybe-full ids naming the same invocation in the same form.
pub open spec fn mfid_like(a: MaybeFullInvocationId, b: MaybeFullInvocationId) -> bool {
    match (a, b) {
        (MaybeFullInvocationId::Partial(x), MaybeFullInvocationId::Partial(y)) => x == y,
        (MaybeFullInvocationId::Full(x), MaybeFullInvocationId::Full(y)) => fid_like(x, y),
        _ => false,
    }
}

/// Two response results carrying the same outcome.
pub open spec fn rres_like(a: ResponseResult, b: ResponseResult) -> bool {
    match (a, b) {
        (ResponseResult::Success(x), ResponseResult::Success(y)) => x@ == y@,
        (ResponseResult::Failure(cx, mx), ResponseResult::Failure(cy, my)) => cx == cy && mx@
            == my@,
        _ => false,
    }
}

/// Two invocation responses carrying the same content.
pub open spec fn resp_like(a: InvocationResponse, b: InvocationResponse) -> bool {
    mfid_like(a.id, b.id) && a.entry_index == b.entry_index && rres_like(a.result, b.result)
}

/// Two invocation sources of the same origin.
pub open spec fn source_like(
    a: crate::invocation::Source,
    b: crate::invocation::Source,
) -> bool {
    match (a, b) {
        (crate::invocation::Source::Ingress, crate::invocation::Source::Ingress) => true,
        (crate::invocation::Source::Internal, crate::invocation::Source::Internal) => true,
        (crate::invocation::Source::Service(x), crate::invocation::Source::Service(y)) => fid_like(
            x,
            y,
        ),
        _ => false,
    }
}

/// Two response sinks naming the same destination.
pub open spec fn sink_like(
    a: ServiceInvocationResponseSink,
    b: ServiceInvocationResponseSink,
) -> bool {
    match (a, b) {
        (
            ServiceInvocationResponseSink::PartitionProcessor { caller: cx, entry_index: ex },
            ServiceInvocationResponseSink::PartitionProcessor { caller: cy, entry_index: ey },
        ) => fid_like(cx, cy) && ex == ey,
        (
            ServiceInvocationResponseSink::NewInvocation {
                target: tx,
                method: mx,
                caller_context: ox,
            },
            ServiceInvocationResponseSink::NewInvocation {
                target: ty,
                method: my,
                caller_context: oy,
            },
        ) => fid_like(tx, ty) && mx@ == my@ && ox@ == oy@,
        (
            ServiceInvocationResponseSink::Ingress(nx),
            ServiceInvocationResponseSink::Ingress(ny),
        ) => nx == ny,
        _ => false,
    }
}

/// Two optional sinks naming the same destination.
pub open spec fn opt_sink_like(
    a: Option<ServiceInvocationResponseSink>,
    b: Option<ServiceInvocationResponseSink>,
) -> bool {
    match (a, b) {
        (None, None) => true,
        (Some(x), Some(y)) => sink_like(x, y),
        _ => false,
    }
}

/// Two service invocations with the same content.
pub open spec fn si_like(a: ServiceInvocation, b: ServiceInvocation) -> bool {
    &&& fid_like(a.fid, b.fid)
    &&& a.method_name@ == b.method_name@
    &&& a.argument@ == b.argument@
    &&& source_like(a.source, b.source)
    &&& opt_sink_like(a.response_sink, b.response_sink)
    &&& a.span_context == b.span_context
}

/// Two terminations of the same invocation and flavor.
pub open spec fn term_like(a: InvocationTermination, b: InvocationTermination) -> bool {
    mfid_like(a.maybe_fid, b.maybe_fid) && a.flavor == b.flavor
}

/// Two outbox messages with the same content.
pub open spec fn msg_like(a: OutboxMessage, b: OutboxMessage) -> bool {
    match (a, b) {
        (OutboxMessage::ServiceInvocation(x), OutboxMessage::ServiceInvocation(y)) => si_like(
            x,
            y,
        ),
        (OutboxMessage::ServiceResponse(x), OutboxMessage::ServiceResponse(y)) => resp_like(x, y),
        (
            OutboxMessage::IngressResponse { to_node: nx, response: rx },
            OutboxMessage::IngressResponse { to_node: ny, response: ry },
        ) => nx == ny && rres_like(rx, ry),
        (
            OutboxMessage::InvocationTermination(x),
            OutboxMessage::InvocationTermination(y),
        ) => term_like(x, y),
        _ => false,
    }
}

/// A timer with the given owner, entry and wake-up time.
pub open spec fn tv_like(
    t: TimerValue,
    fid: FullInvocationId,
    entry_index: EntryIndex,
    wake_up_time: u64,
) -> bool {
    fid_like(t.full_invocation_id, fid) && t.entry_index == entry_index && t.wake_up_time
        == wake_up_time
}

/// The action acknowledging a stored journal entry.
pub open spec fn is_ack_stored(a: Action, fid: FullInvocationId, entry_index: EntryIndex) -> bool {
    &&& a matches Action::AckStoredEntry { full_invocation_id, entry_index: e }
    &&& fid_like(full_invocation_id, fid)
    &&& e == entry_index
}

/// Index of the instance of `(name, key)` at or after `from`, or -1.
pub open spec fn instance_idx_from(
    s: Seq<ServiceInstance>,
    name: Seq<char>,
    key: Seq<u8>,
    from: int,
) -> int
    decreases s.len() - from,
{
    if from < 0 || from >= s.len() {
        -1
    } else if s[from].service_id.service_name@ == name && s[from].service_id.key@ == key {
        from
    } else {
        instance_idx_from(s, name, key, from + 1)
    }
}

/// Index of the instance a service id names, or -1.
pub open spec fn instance_idx(s: Seq<ServiceInstance>, sid: ServiceId) -> int {
    instance_idx_from(s, sid.service_name@, sid.key@, 0)
}

/// Index of the instance whose in-flight invocation is `uuid`, at or
/// after `from`, or -1.
pub open spec fn active_idx_from(s: Seq<ServiceInstance>, uuid: InvocationUuid, from: int) -> int
    decreases s.len() - from,
{
    if from < 0 || from >= s.len() {
        -1
    } else if s[from].active matches Some(a) && a.invocation_uuid == uuid {
        from
    } else {
        active_idx_from(s, uuid, from + 1)
    }
}

/// Index of the instance whose in-flight invocation is `uuid`, or -1.
pub open spec fn active_idx(s: Seq<ServiceInstance>, uuid: InvocationUuid) -> int {
    active_idx_from(s, uuid, 0)
}

/// A found index points at an instance whose in-flight invocation is
/// `uuid`.
pub proof fn lemma_active_idx_found(s: Seq<ServiceInstance>, uuid: InvocationUuid, from: int)
    requires
        active_idx_from(s, uuid, from) >= 0,
    ensures
        ({
            let k = active_idx_from(s, uuid, from);
            &&& from <= k < s.len()
            &&& s[k].active matches Some(a)
            &&& a.invocation_uuid == uuid
        }),
    decreases s.len() - from,
{
    if 0 <= from < s.len() {
        if !(s[from].active matches Some(a) && a.invocation_uuid == uuid) {
            lemma_active_idx_found(s, uuid, from + 1);
        }
    }
}

/// Index of the registered timer of `(uuid, entry_index)` at or after
/// `from`, or -1.
pub open spec fn timer_idx_from(
    s: Seq<TimerValue>,
    uuid: InvocationUuid,
    entry_index: EntryIndex,
    from: int,
) -> int
    decreases s.len() - from,
{
    if from < 0 || from >= s.len() {
        -1
    } else if s[from].full_invocation_id.invocation_uuid == uuid && s[from].entry_index
        == entry_index {
        from
    } else {
        timer_idx_from(s, uuid, entry_index, from + 1)
    }
}

/// Index of the registered timer of `(uuid, entry_index)`, or -1.
pub open spec fn timer_idx(s: Seq<TimerValue>, uuid: InvocationUuid, entry_index: EntryIndex) -> int {
    timer_idx_from(s, uuid, entry_index, 0)
}

/// Index of the stored user state of `(name, key)` at or after `from`,
/// or -1.
pub open spec fn user_state_idx_from(
    s: Seq<UserStateEntry>,
    name: Seq<char>,
    key: Seq<u8>,
    from: int,
) -> int
    decreases s.len() - from,
{
    if from < 0 || from >= s.len() {
        -1
    } else if s[from].service_id.service_name@ == name && s[from].service_id.key@ == key {
        from
    } else {
        user_state_idx_from(s, name, key, from + 1)
    }
}

/// Index of the stored user state a service id names, or -1.
pub open spec fn user_state_idx(s: Seq<UserStateEntry>, sid: ServiceId) -> int {
    user_state_idx_from(s, sid.service_name@, sid.key@, 0)
}

/// The timers of `s` that do not belong to `uuid`, in order.
pub open spec fn timers_pruned(s: Seq<TimerValue>, uuid: InvocationUuid) -> Seq<TimerValue>
    decreases s.len(),
{
    if s.len() == 0 {
        Seq::empty()
    } else {
        let p = timers_pruned(s.drop_last(), uuid);
        if s.last().full_invocation_id.invocation_uuid == uuid {
            p
        } else {
            p.push(s.last())
        }
    }
}

/// The outbox entries of `s` with sequence number above `n`, in order.
pub open spec fn outbox_truncated(s: Seq<OutboxEntry>, n: MessageIndex) -> Seq<OutboxEntry>
    decreases s.len(),
{
    if s.len() == 0 {
        Seq::empty()
    } else {
        let p = outbox_truncated(s.drop_last(), n);
        if s.last().seq_number > n {
            p.push(s.last())
        } else {
            p
        }
    }
}

/// The uuid a maybe-full invocation id refers to.
pub open spec fn maybe_fid_uuid(id: MaybeFullInvocationId) -> InvocationUuid {
    match id {
        MaybeFullInvocationId::Partial(iid) => iid.inner,
        MaybeFullInvocationId::Full(fid) => fid.invocation_uuid,
    }
}

/// The completion carried by a response result.
pub open spec fn completion_of_response(r: ResponseResult) -> CompletionResult {
    match r {
        ResponseResult::Success(v) => CompletionResult::Success(v),
        ResponseResult::Failure(c, m) => CompletionResult::Failure(c, m),
    }
}

// ---------------------------------------------------------------------
// the transition relation
// ---------------------------------------------------------------------

/// Everything but the instance store is unchanged.
pub open spec fn same_but_instances(pre: PartitionState, post: PartitionState) -> bool {
    &&& post.timers@ == pre.timers@
    &&& post.outbox@ == pre.outbox@
    &&& post.outbox_next_seq == pre.outbox_next_seq
    &&& post.user_states@ == pre.user_states@
}

/// The state is unchanged entirely.
pub open spec fn state_unchanged(pre: PartitionState, post: PartitionState) -> bool {
    &&& post.instances@ == pre.instances@
    &&& same_but_instances(pre, post)
}

/// All instances but the one at `i` are unchanged, and none appeared or
/// vanished.
pub open spec fn instances_same_except(
    pre: PartitionState,
    post: PartitionState,
    i: int,
) -> bool {
    &&& post.instances@.len() == pre.instances@.len()
    &&& forall|j: int|
        0 <= j < pre.instances@.len() && j != i ==> post.instances@[j] == #[trigger] pre.instances@[j]
}

/// A new invocation either takes the instance's lock and is handed to
/// the invoker at once, or waits in the instance's FIFO inbox.
pub open spec fn applies_invocation(
    pre: PartitionState,
    si: ServiceInvocation,
    post: PartitionState,
    actions: Seq<Action>,
) -> bool {
    let i = instance_idx(pre.instances@, si.fid.service_id);
    &&& same_but_instances(pre, post)
    &&& if i < 0 {
        // the instance was never seen: record it and start at once
        &&& post.instances@.len() == pre.instances@.len() + 1
        &&& (forall|j: int|
            0 <= j < pre.instances@.len() ==> post.instances@[j] == #[trigger] pre.instances@[j])
        &&& post.instances@.last().service_id == si.fid.service_id
        &&& post.instances@.last().active == Some(
            ActiveInvocation {
                invocation_uuid: si.fid.invocation_uuid,
                journal: JournalKind::Invoker,
            },
        )
        &&& post.instances@.last().inbox@ == Seq::<ServiceInvocation>::empty()
        &&& actions.len() == 1
        &&& actions[0] matches Action::Invoke { full_invocation_id: f }
        &&& fid_like(f, si.fid)
    } else if pre.instances@[i].active is None {
        // the instance is free: take the lock and start at once
        &&& instances_same_except(pre, post, i)
        &&& post.instances@[i].service_id == pre.instances@[i].service_id
        &&& post.instances@[i].active == Some(
            ActiveInvocation {
                invocation_uuid: si.fid.invocation_uuid,
                journal: JournalKind::Invoker,
            },
        )
        &&& post.instances@[i].inbox@ == pre.instances@[i].inbox@
        &&& actions == seq![Action::Invoke { full_invocation_id: si.fid }]
    } else {
        // the instance is busy: wait in line, nothing to do now
        &&& instances_same_except(pre, post, i)
        &&& post.instances@[i].service_id == pre.instances@[i].service_id
        &&& post.instances@[i].active == pre.instances@[i].active
        &&& post.instances@[i].inbox@ == pre.instances@[i].inbox@.push(si)
        &&& actions == Seq::<Action>::empty()
    }
}

/// A response is delivered into the owning invocation's completion slot:
/// to the owner of a virtual journal, or forwarded to the invoker. A
/// response whose invocation cannot be found is a no-op.
pub open spec fn applies_response(
    pre: PartitionState,
    resp: InvocationResponse,
    post: PartitionState,
    actions: Seq<Action>,
) -> bool {
    let uuid = maybe_fid_uuid(resp.id);
    let i = active_idx(pre.instances@, uuid);
    &&& state_unchanged(pre, post)
    &&& if i < 0 {
        actions == Seq::<Action>::empty()
    } else {
        let inst = pre.instances@[i];
        &&& inst.active matches Some(act)
        &&& match act.journal {
            JournalKind::Invoker => {
                &&& actions.len() == 1
                &&& actions[0] matches Action::ForwardCompletion { full_invocation_id, completion }
                &&& fid_like(
                    full_invocation_id,
                    FullInvocationId { service_id: inst.service_id, invocation_uuid: uuid },
                )
                &&& completion == (Completion {
                    entry_index: resp.entry_index,
                    result: completion_of_response(resp.result),
                })
            },
            JournalKind::Virtual { method_name } => {
                &&& actions.len() == 1
                &&& actions[0] matches Action::NotifyVirtualJournalCompletion {
                    target_service,
                    method_name: mn,
                    invocation_uuid,
                    completion,
                }
                &&& sid_like(target_service, inst.service_id)
                &&& mn@ == method_name@
                &&& invocation_uuid == uuid
                &&& completion == (Completion {
                    entry_index: resp.entry_index,
                    result: completion_of_response(resp.result),
                })
            },
        }
    }
}

/// A fired timer completes its journal entry and is deleted if it is
/// still the registered timer of its owner; a stale or superseded timer
/// is dropped without effect.
pub open spec fn applies_timer(
    pre: PartitionState,
    tv: TimerValue,
    post: PartitionState,
    actions: Seq<Action>,
) -> bool {
    let uuid = tv.full_invocation_id.invocation_uuid;
    let i = timer_idx(pre.timers@, uuid, tv.entry_index);
    &&& post.instances@ == pre.instances@
    &&& post.outbox@ == pre.outbox@
    &&& post.outbox_next_seq == pre.outbox_next_seq
    &&& post.user_states@ == pre.user_states@
    &&& if i < 0 || pre.timers@[i].wake_up_time != tv.wake_up_time {
        &&& post.timers@ == pre.timers@
        &&& actions == Seq::<Action>::empty()
    } else {
        &&& post.timers@ == pre.timers@.remove(i)
        &&& actions.len() == 2
        &&& actions[0] matches Action::ForwardCompletion { full_invocation_id, completion }
        &&& fid_like(full_invocation_id, pre.timers@[i].full_invocation_id)
        &&& completion == (Completion {
            entry_index: tv.entry_index,
            result: CompletionResult::Empty,
        })
        &&& actions[1] == Action::DeleteTimer {
            timer_key: TimerKey {
                invocation_uuid: uuid,
                journal_index: tv.entry_index,
                timestamp: tv.wake_up_time,
            },
        }
    }
}

/// Confirmed-delivered outbox entries are dropped.
pub open spec fn applies_truncation(
    pre: PartitionState,
    n: MessageIndex,
    post: PartitionState,
    actions: Seq<Action>,
) -> bool {
    &&& post.instances@ == pre.instances@
    &&& post.timers@ == pre.timers@
    &&& post.outbox@ == outbox_truncated(pre.outbox@, n)
    &&& post.outbox_next_seq == pre.outbox_next_seq
    &&& post.user_states@ == pre.user_states@
    &&& actions == Seq::<Action>::empty()
}

/// The view of an optional version string.
pub open spec fn opt_str_view(v: Option<String>) -> Option<Seq<char>> {
    match v {
        None => None,
        Some(s) => Some(s@),
    }
}

/// The conflict delivered to a rejected mutation's response sink.
pub open spec fn is_conflict_message(m: OutboxMessage, sink: ServiceInvocationResponseSink) -> bool {
    match sink {
        ServiceInvocationResponseSink::PartitionProcessor { caller, entry_index } => {
            &&& m matches OutboxMessage::ServiceResponse(r)
            &&& r.id matches MaybeFullInvocationId::Full(f)
            &&& fid_like(f, caller)
            &&& r.entry_index == entry_index
            &&& is_conflict_result(r.result)
        },
        ServiceInvocationResponseSink::NewInvocation { target, .. } => {
            &&& m matches OutboxMessage::ServiceResponse(r)
            &&& r.id matches MaybeFullInvocationId::Full(f)
            &&& fid_like(f, target)
            &&& r.entry_index == 0
            &&& is_conflict_result(r.result)
        },
        ServiceInvocationResponseSink::Ingress(node) => {
            &&& m matches OutboxMessage::IngressResponse { to_node, response }
            &&& to_node == node
            &&& is_conflict_result(response)
        },
    }
}

/// A failure result naming the version conflict.
pub open spec fn is_conflict_result(r: ResponseResult) -> bool {
    &&& r matches ResponseResult::Failure(code, msg)
    &&& code == CONFLICT_CODE
    &&& msg@ == "state version conflict"@
}

/// A state overwrite applies when its version precondition matches the
/// recorded version, when it carries none, or when no version was ever
/// recorded (the first write establishes one); otherwise it is rejected
/// with a conflict delivered through the outbox to its response sink,
/// never silently dropped. An applied overwrite records the mutation's
/// version as the new one.
pub open spec fn applies_state_mutation(
    pre: PartitionState,
    m: ExternalStateMutation,
    post: PartitionState,
    actions: Seq<Action>,
) -> bool {
    let i = user_state_idx(pre.user_states@, m.service_id);
    let stored: Option<Seq<char>> = if i >= 0 {
        opt_str_view(pre.user_states@[i].version)
    } else {
        None
    };
    let want = opt_str_view(m.version);
    &&& post.instances@ == pre.instances@
    &&& post.timers@ == pre.timers@
    &&& if want is Some && stored is Some && want != stored {
        // version precondition failed: reject with a conflict
        &&& post.user_states@ == pre.user_states@
        &&& match m.response_sink {
            None => {
                &&& post.outbox@ == pre.outbox@
                &&& post.outbox_next_seq == pre.outbox_next_seq
                &&& actions == Seq::<Action>::empty()
            },
            Some(sink) => {
                &&& post.outbox@.len() == pre.outbox@.len() + 1
                &&& (forall|j: int|
                    0 <= j < pre.outbox@.len() ==> post.outbox@[j] == #[trigger] pre.outbox@[j])
                &&& post.outbox@.last().seq_number == pre.outbox_next_seq
                &&& is_conflict_message(post.outbox@.last().message, sink)
                &&& post.outbox_next_seq == pre.outbox_next_seq + 1
                &&& actions.len() == 1
                &&& actions[0] matches Action::NewOutboxMessage { seq_number, message }
                &&& seq_number == pre.outbox_next_seq
                &&& is_conflict_message(message, sink)
            },
        }
    } else {
        // apply the overwrite
        &&& post.outbox@ == pre.outbox@
        &&& post.outbox_next_seq == pre.outbox_next_seq
        &&& actions == Seq::<Action>::empty()
        &&& if i >= 0 {
            &&& post.user_states@.len() == pre.user_states@.len()
            &&& (forall|j: int|
                0 <= j < pre.user_states@.len() && j != i ==> post.user_states@[j]
                    == #[trigger] pre.user_states@[j])
            &&& post.user_states@[i].service_id == pre.user_states@[i].service_id
            &&& post.user_states@[i].version == m.version
            &&& post.user_states@[i].entries == m.state
        } else {
            &&& post.user_states@.len() == pre.user_states@.len() + 1
            &&& (forall|j: int|
                0 <= j < pre.user_states@.len() ==> post.user_states@[j] == #[trigger] pre.user_states@[j])
            &&& post.user_states@.last().service_id == m.service_id
            &&& post.user_states@.last().version == m.version
            &&& post.user_states@.last().entries == m.state
        }
    }
}

/// The action aborting or killing the in-flight invocation of `inst`.
pub open spec fn is_kill_action(a: Action, inst: ServiceInstance, uuid: InvocationUuid) -> bool {
    &&& inst.active matches Some(act)
    &&& match act.journal {
        JournalKind::Invoker => {
            &&& a matches Action::AbortInvocation(fid)
            &&& fid_like(
                fid,
                FullInvocationId { service_id: inst.service_id, invocation_uuid: uuid },
            )
        },
        JournalKind::Virtual { method_name } => {
            &&& a matches Action::NotifyVirtualJournalKill {
                target_service,
                method_name: mn,
                invocation_uuid,
            }
            &&& sid_like(target_service, inst.service_id)
            &&& mn@ == method_name@
            &&& invocation_uuid == uuid
        },
    }
}

/// The cancellation completion delivered into a virtual journal.
pub open spec fn is_cancel_notice(a: Action, inst: ServiceInstance, uuid: InvocationUuid) -> bool {
    &&& inst.active matches Some(act)
    &&& match act.journal {
        JournalKind::Virtual { method_name } => {
            &&& a matches Action::NotifyVirtualJournalCompletion {
                target_service,
                method_name: mn,
                invocation_uuid,
                completion,
            }
            &&& sid_like(target_service, inst.service_id)
            &&& mn@ == method_name@
            &&& invocation_uuid == uuid
            &&& completion.entry_index == 0
            &&& completion.result matches CompletionResult::Failure(code, msg)
            &&& completion.result->Failure_0 == CANCELED_CODE
            &&& completion.result->Failure_1@ == "invocation canceled"@
        },
        JournalKind::Invoker => false,
    }
}

/// The in-flight invocation of the instance at `i` ends: its journal
/// state (registered timers) is dropped, and the first waiting inbox
/// invocation, if any, takes the lock and is handed to the invoker.
/// `n_extra` actions precede the possible `Invoke`.
pub open spec fn releases_instance(
    pre: PartitionState,
    post: PartitionState,
    i: int,
    uuid: InvocationUuid,
    actions: Seq<Action>,
    n_extra: int,
) -> bool {
    let inst = pre.instances@[i];
    &&& instances_same_except(pre, post, i)
    &&& post.timers@ == timers_pruned(pre.timers@, uuid)
    &&& post.outbox@ == pre.outbox@
    &&& post.outbox_next_seq == pre.outbox_next_seq
    &&& post.user_states@ == pre.user_states@
    &&& post.instances@[i].service_id == inst.service_id
    &&& if inst.inbox@.len() > 0 {
        &&& post.instances@[i].active == Some(
            ActiveInvocation {
                invocation_uuid: inst.inbox@[0].fid.invocation_uuid,
                journal: JournalKind::Invoker,
            },
        )
        &&& post.instances@[i].inbox@ == inst.inbox@.drop_first()
        &&& actions.len() == n_extra + 1
        &&& actions.last() == Action::Invoke { full_invocation_id: inst.inbox@[0].fid }
    } else {
        &&& post.instances@[i].active is None
        &&& post.instances@[i].inbox@ == inst.inbox@
        &&& actions.len() == n_extra
    }
}

/// A kill aborts the in-flight invocation at once and drops its pending
/// journal state; a cancel lets a virtual journal clean up gracefully
/// and falls back to kill semantics for invoker-backed journals. A
/// termination whose invocation cannot be found is a no-op.
pub open spec fn applies_terminate(
    pre: PartitionState,
    t: InvocationTermination,
    post: PartitionState,
    actions: Seq<Action>,
) -> bool {
    let uuid = maybe_fid_uuid(t.maybe_fid);
    let i = active_idx(pre.instances@, uuid);
    if i < 0 {
        &&& state_unchanged(pre, post)
        &&& actions == Seq::<Action>::empty()
    } else {
        let inst = pre.instances@[i];
        let graceful = t.flavor is Cancel && (inst.active matches Some(act) && act.journal
            is Virtual);
        if graceful {
            &&& state_unchanged(pre, post)
            &&& actions.len() == 1
            &&& is_cancel_notice(actions[0], inst, uuid)
        } else {
            &&& releases_instance(pre, post, i, uuid, actions, 1)
            &&& is_kill_action(actions[0], inst, uuid)
        }
    }
}

/// An invoker effect is projected into actions per its kind: journal
/// entries are stored and acknowledged (registering timers and parking
/// outbox messages on the way), suspension changes nothing, and the end
/// or failure of the invocation releases its instance. An effect whose
/// invocation is not the in-flight one is a no-op.
pub open spec fn applies_invoker_effect(
    pre: PartitionState,
    eff: InvokerEffect,
    post: PartitionState,
    actions: Seq<Action>,
) -> bool {
    let uuid = eff.full_invocation_id.invocation_uuid;
    let i = active_idx(pre.instances@, uuid);
    if i < 0 || !(pre.instances@[i].active matches Some(act) && act.journal is Invoker) {
        &&& state_unchanged(pre, post)
        &&& actions == Seq::<Action>::empty()
    } else {
        match eff.kind {
            InvokerEffectKind::JournalEntry { entry_index, entry } => {
                match entry {
                    JournalEntryKind::SetTimer { wake_up_time } => {
                        &&& post.instances@ == pre.instances@
                        &&& post.timers@.len() == pre.timers@.len() + 1
                        &&& (forall|j: int|
                            0 <= j < pre.timers@.len() ==> post.timers@[j] == #[trigger] pre.timers@[j])
                        &&& tv_like(
                            post.timers@.last(),
                            eff.full_invocation_id,
                            entry_index,
                            wake_up_time,
                        )
                        &&& post.outbox@ == pre.outbox@
                        &&& post.outbox_next_seq == pre.outbox_next_seq
                        &&& post.user_states@ == pre.user_states@
                        &&& actions.len() == 2
                        &&& actions[0] matches Action::RegisterTimer { timer_value }
                        &&& tv_like(timer_value, eff.full_invocation_id, entry_index, wake_up_time)
                        &&& is_ack_stored(actions[1], eff.full_invocation_id, entry_index)
                    },
                    JournalEntryKind::BackgroundInvoke(si) => {
                        &&& post.instances@ == pre.instances@
                        &&& post.timers@ == pre.timers@
                        &&& post.outbox@ == pre.outbox@.push(
                            OutboxEntry {
                                seq_number: pre.outbox_next_seq,
                                message: OutboxMessage::ServiceInvocation(si),
                            },
                        )
                        &&& post.outbox_next_seq == pre.outbox_next_seq + 1
                        &&& post.user_states@ == pre.user_states@
                        &&& actions.len() == 2
                        &&& actions[0] matches Action::NewOutboxMessage { seq_number, message }
                        &&& seq_number == pre.outbox_next_seq
                        &&& msg_like(message, OutboxMessage::ServiceInvocation(si))
                        &&& is_ack_stored(actions[1], eff.full_invocation_id, entry_index)
                    },
                    JournalEntryKind::CompleteAwakeable { id, entry_index: target_entry, result } => {
                        let out_msg = OutboxMessage::ServiceResponse(
                            InvocationResponse {
                                id: MaybeFullInvocationId::Partial(id),
                                entry_index: target_entry,
                                result,
                            },
                        );
                        &&& post.instances@ == pre.instances@
                        &&& post.timers@ == pre.timers@
                        &&& post.outbox@ == pre.outbox@.push(
                            OutboxEntry { seq_number: pre.outbox_next_seq, message: out_msg },
                        )
                        &&& post.outbox_next_seq == pre.outbox_next_seq + 1
                        &&& post.user_states@ == pre.user_states@
                        &&& actions.len() == 2
                        &&& actions[0] matches Action::NewOutboxMessage { seq_number, message }
                        &&& seq_number == pre.outbox_next_seq
                        &&& msg_like(message, out_msg)
                        &&& is_ack_stored(actions[1], eff.full_invocation_id, entry_index)
                    },
                    JournalEntryKind::Other => {
                        &&& state_unchanged(pre, post)
                        &&& actions.len() == 1
                        &&& is_ack_stored(actions[0], eff.full_invocation_id, entry_index)
                    },
                }
            },
            InvokerEffectKind::Suspended => {
                &&& state_unchanged(pre, post)
                &&& actions == Seq::<Action>::empty()
            },
            InvokerEffectKind::End => releases_instance(pre, post, i, uuid, actions, 0),
            InvokerEffectKind::Failed { .. } => releases_instance(pre, post, i, uuid, actions, 0),
        }
    }
}

/// One effect of a built-in service: opening or closing a virtual
/// journal mutates the instance store silently; an outbox message is
/// parked and announced.
pub open spec fn nbis_step_applies(
    pre: PartitionState,
    e: NbisEffect,
    post: PartitionState,
    actions: Seq<Action>,
) -> bool {
    match e {
        NbisEffect::CreateVirtualJournal { service_id, method_name, invocation_uuid } => {
            let i = instance_idx(pre.instances@, service_id);
            &&& same_but_instances(pre, post)
            &&& actions == Seq::<Action>::empty()
            &&& if i < 0 {
                &&& post.instances@.len() == pre.instances@.len() + 1
                &&& (forall|j: int|
                    0 <= j < pre.instances@.len() ==> post.instances@[j] == #[trigger] pre.instances@[j])
                &&& sid_like(post.instances@.last().service_id, service_id)
                &&& is_virtual_active(post.instances@.last().active, invocation_uuid, method_name@)
                &&& post.instances@.last().inbox@ == Seq::<ServiceInvocation>::empty()
            } else {
                &&& instances_same_except(pre, post, i)
                &&& post.instances@[i].service_id == pre.instances@[i].service_id
                &&& is_virtual_active(post.instances@[i].active, invocation_uuid, method_name@)
                &&& post.instances@[i].inbox@ == pre.instances@[i].inbox@
            }
        },
        NbisEffect::DropJournal { invocation_uuid } => {
            let i = active_idx(pre.instances@, invocation_uuid);
            &&& same_but_instances(pre, post)
            &&& actions == Seq::<Action>::empty()
            &&& if i < 0 {
                post.instances@ == pre.instances@
            } else {
                &&& instances_same_except(pre, post, i)
                &&& post.instances@[i].service_id == pre.instances@[i].service_id
                &&& post.instances@[i].active is None
                &&& post.instances@[i].inbox@ == pre.instances@[i].inbox@
            }
        },
        NbisEffect::OutboxMessage(m) => {
            &&& post.instances@ == pre.instances@
            &&& post.timers@ == pre.timers@
            &&& post.outbox@ == pre.outbox@.push(
                OutboxEntry { seq_number: pre.outbox_next_seq, message: m },
            )
            &&& post.outbox_next_seq == pre.outbox_next_seq + 1
            &&& post.user_states@ == pre.user_states@
            &&& actions.len() == 1
            &&& actions[0] matches Action::NewOutboxMessage { seq_number, message }
            &&& seq_number == pre.outbox_next_seq
            &&& msg_like(message, m)
        },
    }
}

/// An active slot holding a virtual journal of the given owner.
pub open spec fn is_virtual_active(
    a: Option<ActiveInvocation>,
    uuid: InvocationUuid,
    method_name: Seq<char>,
) -> bool {
    &&& a matches Some(act)
    &&& act.invocation_uuid == uuid
    &&& act.journal matches JournalKind::Virtual { method_name: mn }
    &&& mn@ == method_name
}

/// A chain witness: the last effect steps from the intermediate state
/// `mid`, reached by the earlier effects with actions `a1`, to `post`
/// with actions `a2`.
pub open spec fn nbis_chain(
    pre: PartitionState,
    effects: Seq<NbisEffect>,
    mid: PartitionState,
    a1: Seq<Action>,
    post: PartitionState,
    a2: Seq<Action>,
) -> bool {
    nbis_step_applies(mid, effects.last(), post, a2)
}

/// The effects of a built-in service apply one after the other, actions
/// concatenating in effect order.
pub open spec fn nbis_applies(
    pre: PartitionState,
    effects: Seq<NbisEffect>,
    post: PartitionState,
    actions: Seq<Action>,
) -> bool
    decreases effects.len(),
{
    if effects.len() == 0 {
        &&& state_unchanged(pre, post)
        &&& actions == Seq::<Action>::empty()
    } else {
        exists|mid: PartitionState, a1: Seq<Action>, a2: Seq<Action>|
            #[trigger] nbis_chain(pre, effects, mid, a1, post, a2) && nbis_applies(
                pre,
                effects.drop_last(),
                mid,
                a1,
            ) && actions == a1 + a2
    }
}

/// The deterministic transition relation of the partition state machine:
/// exactly how each command moves the state and which actions it emits,
/// in order.
pub open spec fn applies(
    pre: PartitionState,
    cmd: Command,
    post: PartitionState,
    actions: Seq<Action>,
) -> bool {
    match cmd {
        Command::Invocation(si) => applies_invocation(pre, si, post, actions),
        Command::Response(resp) => applies_response(pre, resp, post, actions),
        Command::Timer(tv) => applies_timer(pre, tv, post, actions),
        Command::OutboxTruncation(n) => applies_truncation(pre, n, post, actions),
        Command::ExternalStateMutation(m) => applies_state_mutation(pre, m, post, actions),
        Command::TerminateInvocation(t) => applies_terminate(pre, t, post, actions),
        Command::Invoker(eff) => applies_invoker_effect(pre, eff, post, actions),
        Command::BuiltInInvoker(nbis) => nbis_applies(pre, nbis.effects@, post, actions),
    }
}

/// How many outbox sequence numbers a command can consume.
pub open spec fn outbox_room(cmd: Command) -> int {
    match cmd {
        Command::ExternalStateMutation(_) => 1,
        Command::Invoker(_) => 1,
        Command::BuiltInInvoker(n) => n.effects@.len() as int,
        _ => 0,
    }
}

// ---------------------------------------------------------------------
// executable helpers
// ---------------------------------------------------------------------

/// A byte-for-byte copy of a key.
fn clone_bytes(v: &Vec<u8>) -> (r: Vec<u8>)
    ensures
        r@ == v@,
{
    let mut r: Vec<u8> = Vec::new();
    let n = v.len();
    let mut i: usize = 0;
    while i < n
        invariant
            0 <= i <= n,
            n == v@.len(),
            r@ == v@.take(i as int),
        decreases n - i,
    {
        r.push(v[i]);
        proof {
            assert(r@ =~= v@.take(i + 1));
        }
        i = i + 1;
    }
    proof {
        assert(v@.take(n as int) =~= v@);
    }
    r
}

/// Whether two byte keys are equal.
fn bytes_eq(a: &Vec<u8>, b: &Vec<u8>) -> (r: bool)
    ensures
        r == (a@ == b@),
{
    if a.len() != b.len() {
        return false;
    }
    let n = a.len();
    let mut i: usize = 0;
    while i < n
        invariant
            0 <= i <= n,
            n == a@.len() == b@.len(),
            forall|j: int| 0 <= j < i ==> a@[j] == b@[j],
        decreases n - i,
    {
        if a[i] != b[i] {
            return false;
        }
        i = i + 1;
    }
    proof {
        assert(a@ =~= b@);
    }
    true
}

/// A copy of a service id naming the same instance.
fn dup_service_id(s: &ServiceId) -> (r: ServiceId)
    ensures
        sid_like(r, *s),
{
    ServiceId {
        service_name: s.service_name.clone(),
        key: clone_bytes(&s.key),
        partition_key: s.partition_key,
    }
}

/// A copy of a full invocation id naming the same invocation.
fn dup_fid(f: &FullInvocationId) -> (r: FullInvocationId)
    ensures
        fid_like(r, *f),
{
    FullInvocationId {
        service_id: dup_service_id(&f.service_id),
        invocation_uuid: f.invocation_uuid,
    }
}

/// Whether a service id names the instance of `(name, key)`.
fn sid_matches(sid: &ServiceId, other: &ServiceId) -> (r: bool)
    ensures
        r == (sid.service_name@ == other.service_name@ && sid.key@ == other.key@),
{
    sid.service_name.eq(&other.service_name) && bytes_eq(&sid.key, &other.key)
}

/// The index of the instance `sid` names, if it is recorded.
fn find_instance(instances: &Vec<ServiceInstance>, sid: &ServiceId) -> (r: Option<usize>)
    ensures
        match r {
            Some(i) => instance_idx(instances@, *sid) == i as int && i < instances@.len(),
            None => instance_idx(instances@, *sid) == -1,
        },
{
    let n = instances.len();
    let mut i: usize = 0;
    while i < n
        invariant
            0 <= i <= n,
            n == instances@.len(),
            instance_idx(instances@, *sid) == instance_idx_from(
                instances@,
                sid.service_name@,
                sid.key@,
                i as int,
            ),
        decreases n - i,
    {
        if sid_matches(&instances[i].service_id, sid) {
            return Some(i);
        }
        i = i + 1;
    }
    None
}

/// The index of the instance whose in-flight invocation is `uuid`, if
/// any.
fn find_active(instances: &Vec<ServiceInstance>, uuid: InvocationUuid) -> (r: Option<usize>)
    ensures
        match r {
            Some(i) => active_idx(instances@, uuid) == i as int && i < instances@.len(),
            None => active_idx(instances@, uuid) == -1,
        },
{
    let n = instances.len();
    let mut i: usize = 0;
    while i < n
        invariant
            0 <= i <= n,
            n == instances@.len(),
            active_idx(instances@, uuid) == active_idx_from(instances@, uuid, i as int),
        decreases n - i,
    {
        let hit = match &instances[i].active {
            Some(a) => a.invocation_uuid == uuid,
            None => false,
        };
        if hit {
            return Some(i);
        }
        i = i + 1;
    }
    None
}

/// The index of the registered timer of `(uuid, entry_index)`, if any.
fn find_timer(timers: &Vec<TimerValue>, uuid: InvocationUuid, entry_index: EntryIndex) -> (r:
    Option<usize>)
    ensures
        match r {
            Some(i) => timer_idx(timers@, uuid, entry_index) == i as int && i < timers@.len(),
            None => timer_idx(timers@, uuid, entry_index) == -1,
        },
{
    let n = timers.len();
    let mut i: usize = 0;
    while i < n
        invariant
            0 <= i <= n,
            n == timers@.len(),
            timer_idx(timers@, uuid, entry_index) == timer_idx_from(
                timers@,
                uuid,
                entry_index,
                i as int,
            ),
        decreases n - i,
    {
        if timers[i].full_invocation_id.invocation_uuid == uuid && timers[i].entry_index
            == entry_index {
            return Some(i);
        }
        i = i + 1;
    }
    None
}

/// The index of the stored user state `sid` names, if any.
fn find_user_state(user_states: &Vec<UserStateEntry>, sid: &ServiceId) -> (r: Option<usize>)
    ensures
        match r {
            Some(i) => user_state_idx(user_states@, *sid) == i as int && i < user_states@.len(),
            None => user_state_idx(user_states@, *sid) == -1,
        },
{
    let n = user_states.len();
    let mut i: usize = 0;
    while i < n
        invariant
            0 <= i <= n,
            n == user_states@.len(),
            user_state_idx(user_states@, *sid) == user_state_idx_from(
                user_states@,
                sid.service_name@,
                sid.key@,
                i as int,
            ),
        decreases n - i,
    {
        if sid_matches(&user_states[i].service_id, sid) {
            return Some(i);
        }
        i = i + 1;
    }
    None
}

/// Removes every timer belonging to `uuid`, keeping the others in order.
fn prune_timers(timers: &mut Vec<TimerValue>, uuid: InvocationUuid)
    ensures
        final(timers)@ == timers_pruned(old(timers)@, uuid),
{
    let ghost orig = timers@;
    let mut idx: usize = 0;
    let ghost mut j: int = 0;
    while idx < timers.len()
        invariant
            0 <= j <= orig.len(),
            timers@ == timers_pruned(orig.take(j), uuid) + orig.skip(j),
            idx as int == timers_pruned(orig.take(j), uuid).len(),
        decreases orig.len() - j,
    {
        proof {
            assert(orig.take(j + 1).drop_last() =~= orig.take(j));
            assert(orig.take(j + 1).last() == orig[j]);
        }
        let hit = timers[idx].full_invocation_id.invocation_uuid == uuid;
        if hit {
            timers.remove(idx);
            proof {
                assert(timers@ =~= timers_pruned(orig.take(j + 1), uuid) + orig.skip(j + 1));
            }
        } else {
            idx = idx + 1;
            proof {
                assert(timers@ =~= timers_pruned(orig.take(j + 1), uuid) + orig.skip(j + 1));
            }
        }
        proof {
            j = j + 1;
        }
    }
    proof {
        assert(orig.take(orig.len() as int) =~= orig);
        assert(timers@ =~= timers_pruned(orig, uuid));
    }
}

/// Drops the outbox entries with sequence number at or below `n`.
fn truncate_outbox(outbox: &mut Vec<OutboxEntry>, n: MessageIndex)
    ensures
        final(outbox)@ == outbox_truncated(old(outbox)@, n),
{
    let ghost orig = outbox@;
    let mut idx: usize = 0;
    let ghost mut j: int = 0;
    while idx < outbox.len()
        invariant
            0 <= j <= orig.len(),
            outbox@ == outbox_truncated(orig.take(j), n) + orig.skip(j),
            idx as int == outbox_truncated(orig.take(j), n).len(),
        decreases orig.len() - j,
    {
        proof {
            assert(orig.take(j + 1).drop_last() =~= orig.take(j));
            assert(orig.take(j + 1).last() == orig[j]);
        }
        if outbox[idx].seq_number <= n {
            outbox.remove(idx);
            proof {
                assert(outbox@ =~= outbox_truncated(orig.take(j + 1), n) + orig.skip(j + 1));
            }
        } else {
            idx = idx + 1;
            proof {
                assert(outbox@ =~= outbox_truncated(orig.take(j + 1), n) + orig.skip(j + 1));
            }
        }
        proof {
            j = j + 1;
        }
    }
    proof {
        assert(orig.take(orig.len() as int) =~= orig);
        assert(outbox@ =~= outbox_truncated(orig, n));
    }
}

/// A copy of a maybe-full id naming the same invocation.
fn dup_mfid(m: &MaybeFullInvocationId) -> (r: MaybeFullInvocationId)
    ensures
        mfid_like(r, *m),
{
    match m {
        MaybeFullInvocationId::Partial(iid) => MaybeFullInvocationId::Partial(*iid),
        MaybeFullInvocationId::Full(fid) => MaybeFullInvocationId::Full(dup_fid(fid)),
    }
}

/// A copy of a response result with the same outcome.
fn dup_rres(r0: &ResponseResult) -> (r: ResponseResult)
    ensures
        rres_like(r, *r0),
{
    match r0 {
        ResponseResult::Success(v) => ResponseResult::Success(clone_bytes(v)),
        ResponseResult::Failure(c, m) => ResponseResult::Failure(*c, m.clone()),
    }
}

/// A copy of an invocation response with the same content.
fn dup_resp(r0: &InvocationResponse) -> (r: InvocationResponse)
    ensures
        resp_like(r, *r0),
{
    InvocationResponse {
        id: dup_mfid(&r0.id),
        entry_index: r0.entry_index,
        result: dup_rres(&r0.result),
    }
}

/// A copy of a source with the same origin.
fn dup_source(s: &crate::invocation::Source) -> (r: crate::invocation::Source)
    ensures
        source_like(r, *s),
{
    match s {
        crate::invocation::Source::Ingress => crate::invocation::Source::Ingress,
        crate::invocation::Source::Internal => crate::invocation::Source::Internal,
        crate::invocation::Source::Service(fid) => crate::invocation::Source::Service(
            dup_fid(fid),
        ),
    }
}

/// A copy of a response sink naming the same destination.
fn dup_sink(s: &ServiceInvocationResponseSink) -> (r: ServiceInvocationResponseSink)
    ensures
        sink_like(r, *s),
{
    match s {
        ServiceInvocationResponseSink::PartitionProcessor { caller, entry_index } =>
            ServiceInvocationResponseSink::PartitionProcessor {
            caller: dup_fid(caller),
            entry_index: *entry_index,
        },
        ServiceInvocationResponseSink::NewInvocation { target, method, caller_context } =>
            ServiceInvocationResponseSink::NewInvocation {
            target: dup_fid(target),
            method: method.clone(),
            caller_context: clone_bytes(caller_context),
        },
        ServiceInvocationResponseSink::Ingress(node) => ServiceInvocationResponseSink::Ingress(
            *node,
        ),
    }
}

/// A copy of an invocation with the same content.
fn dup_si(s: &ServiceInvocation) -> (r: ServiceInvocation)
    ensures
        si_like(r, *s),
{
    let response_sink = match &s.response_sink {
        None => None,
        Some(sink) => Some(dup_sink(sink)),
    };
    ServiceInvocation {
        fid: dup_fid(&s.fid),
        method_name: s.method_name.clone(),
        argument: clone_bytes(&s.argument),
        source: dup_source(&s.source),
        response_sink,
        span_context: crate::invocation::ServiceInvocationSpanContext {
            span_context: s.span_context.span_context.duplicate(),
            cause: s.span_context.cause,
        },
    }
}

/// A copy of a termination of the same invocation.
fn dup_term(t: &InvocationTermination) -> (r: InvocationTermination)
    ensures
        term_like(r, *t),
{
    InvocationTermination { maybe_fid: dup_mfid(&t.maybe_fid), flavor: t.flavor }
}

/// A copy of an outbox message with the same content.
fn dup_msg(m: &OutboxMessage) -> (r: OutboxMessage)
    ensures
        msg_like(r, *m),
{
    match m {
        OutboxMessage::ServiceInvocation(si) => OutboxMessage::ServiceInvocation(dup_si(si)),
        OutboxMessage::ServiceResponse(resp) => OutboxMessage::ServiceResponse(dup_resp(resp)),
        OutboxMessage::IngressResponse { to_node, response } => OutboxMessage::IngressResponse {
            to_node: *to_node,
            response: dup_rres(response),
        },
        OutboxMessage::InvocationTermination(t) => OutboxMessage::InvocationTermination(
            dup_term(t),
        ),
    }
}

/// The method name of the virtual journal in `inst`'s active slot, if
/// its in-flight invocation is virtual.
fn virtual_method_of(inst: &ServiceInstance) -> (r: Option<String>)
    ensures
        match r {
            Some(m) => {
                &&& inst.active matches Some(a)
                &&& a.journal matches JournalKind::Virtual { method_name }
                &&& m@ == method_name@
            },
            None => !(inst.active matches Some(a) && a.journal is Virtual),
        },
{
    match &inst.active {
        Some(a) => match &a.journal {
            JournalKind::Virtual { method_name } => Some(method_name.clone()),
            JournalKind::Invoker => None,
        },
        None => None,
    }
}


/// Composing a prefix of applied effects with one more step applies the
/// whole effect list.
proof fn lemma_nbis_applies_step(
    pre: PartitionState,
    effects: Seq<NbisEffect>,
    mid: PartitionState,
    a1: Seq<Action>,
    post: PartitionState,
    a2: Seq<Action>,
)
    requires
        effects.len() > 0,
        nbis_applies(pre, effects.drop_last(), mid, a1),
        nbis_step_applies(mid, effects.last(), post, a2),
    ensures
        nbis_applies(pre, effects, post, a1 + a2),
{
    assert(nbis_chain(pre, effects, mid, a1, post, a2));
}

impl PartitionState {
    /// The empty state a partition starts from.
    pub fn new() -> (r: Self)
        ensures
            r.instances@ == Seq::<ServiceInstance>::empty(),
            r.timers@ == Seq::<TimerValue>::empty(),
            r.outbox@ == Seq::<OutboxEntry>::empty(),
            r.outbox_next_seq == 0,
            r.user_states@ == Seq::<UserStateEntry>::empty(),
    {
        let r = PartitionState {
            instances: Vec::new(),
            timers: Vec::new(),
            outbox: Vec::new(),
            outbox_next_seq: 0,
            user_states: Vec::new(),
        };
        proof {
            assert(r.instances@ =~= Seq::<ServiceInstance>::empty());
            assert(r.timers@ =~= Seq::<TimerValue>::empty());
            assert(r.outbox@ =~= Seq::<OutboxEntry>::empty());
            assert(r.user_states@ =~= Seq::<UserStateEntry>::empty());
        }
        r
    }

    /// Applies one command deterministically, returning the actions for
    /// the external executors in the order their causes were discovered.
    pub fn apply(&mut self, cmd: Command) -> (actions: Vec<Action>)
        requires
            old(self).outbox_next_seq + outbox_room(cmd) <= u64::MAX,
        ensures
            applies(*old(self), cmd, *final(self), actions@),
    {
        match cmd {
            Command::Invocation(si) => self.apply_invocation(si),
            Command::Response(resp) => self.apply_response(resp),
            Command::Timer(tv) => self.apply_timer(tv),
            Command::OutboxTruncation(n) => {
                truncate_outbox(&mut self.outbox, n);
                no_actions()
            },
            Command::ExternalStateMutation(m) => self.apply_state_mutation(m),
            Command::TerminateInvocation(t) => self.apply_terminate(t),
            Command::Invoker(eff) => self.apply_invoker_effect(eff),
            Command::BuiltInInvoker(mut nbis) => {
                let acts = self.apply_nbis(&mut nbis.effects);
                acts
            },
        }
    }

    /// Starts the invocation if its instance is free, else queues it.
    fn apply_invocation(&mut self, si: ServiceInvocation) -> (actions: Vec<Action>)
        ensures
            applies_invocation(*old(self), si, *final(self), actions@),
    {
        let ghost pre = *self;
        match find_instance(&self.instances, &si.fid.service_id) {
            None => {
                // never seen: record the instance and start at once
                let fid_for_action = dup_fid(&si.fid);
                let uuid = si.fid.invocation_uuid;
                let instance = ServiceInstance {
                    service_id: si.fid.service_id,
                    active: Some(
                        ActiveInvocation { invocation_uuid: uuid, journal: JournalKind::Invoker },
                    ),
                    inbox: Vec::new(),
                };
                self.instances.push(instance);
                let mut actions: Vec<Action> = Vec::new();
                actions.push(Action::Invoke { full_invocation_id: fid_for_action });
                proof {
                    assert(self.instances@.last().inbox@ =~= Seq::<ServiceInvocation>::empty());
                }
                actions
            },
            Some(i) => {
                let is_free = self.instances[i].active.is_none();
                if is_free {
                    let uuid = si.fid.invocation_uuid;
                    let inst = &mut self.instances[i];
                    inst.active = Some(
                        ActiveInvocation { invocation_uuid: uuid, journal: JournalKind::Invoker },
                    );
                    let mut actions: Vec<Action> = Vec::new();
                    actions.push(Action::Invoke { full_invocation_id: si.fid });
                    proof {
                        assert(actions@ =~= seq![
                            Action::Invoke { full_invocation_id: si.fid },
                        ]);
                    }
                    actions
                } else {
                    let inst = &mut self.instances[i];
                    inst.inbox.push(si);
                    no_actions()
                }
            },
        }
    }

    /// Delivers a response into the owning invocation's completion slot.
    fn apply_response(&mut self, resp: InvocationResponse) -> (actions: Vec<Action>)
        ensures
            applies_response(*old(self), resp, *final(self), actions@),
    {
        let uuid = resp.id.invocation_uuid();
        match find_active(&self.instances, uuid) {
            None => no_actions(),
            Some(i) => {
                proof {
                    lemma_active_idx_found(self.instances@, uuid, 0);
                }
                let completion = Completion {
                    entry_index: resp.entry_index,
                    result: match resp.result {
                        ResponseResult::Success(v) => CompletionResult::Success(v),
                        ResponseResult::Failure(c, m) => CompletionResult::Failure(c, m),
                    },
                };
                let inst = &self.instances[i];
                let sid = dup_service_id(&inst.service_id);
                let mut actions: Vec<Action> = Vec::new();
                match virtual_method_of(inst) {
                    Some(mn) => {
                        actions.push(
                            Action::NotifyVirtualJournalCompletion {
                                target_service: sid,
                                method_name: mn,
                                invocation_uuid: uuid,
                                completion,
                            },
                        );
                    },
                    None => {
                        actions.push(
                            Action::ForwardCompletion {
                                full_invocation_id: FullInvocationId {
                                    service_id: sid,
                                    invocation_uuid: uuid,
                                },
                                completion,
                            },
                        );
                    },
                }
                actions
            },
        }
    }

    /// Completes a still-registered timer's entry and deletes the timer.
    fn apply_timer(&mut self, tv: TimerValue) -> (actions: Vec<Action>)
        ensures
            applies_timer(*old(self), tv, *final(self), actions@),
    {
        let uuid = tv.full_invocation_id.invocation_uuid;
        match find_timer(&self.timers, uuid, tv.entry_index) {
            None => no_actions(),
            Some(i) => {
                if self.timers[i].wake_up_time != tv.wake_up_time {
                    return no_actions();
                }
                let owner = dup_fid(&self.timers[i].full_invocation_id);
                self.timers.remove(i);
                let mut actions: Vec<Action> = Vec::new();
                actions.push(
                    Action::ForwardCompletion {
                        full_invocation_id: owner,
                        completion: Completion {
                            entry_index: tv.entry_index,
                            result: CompletionResult::Empty,
                        },
                    },
                );
                actions.push(
                    Action::DeleteTimer {
                        timer_key: TimerKey {
                            invocation_uuid: uuid,
                            journal_index: tv.entry_index,
                            timestamp: tv.wake_up_time,
                        },
                    },
                );
                actions
            },
        }
    }

    /// Applies or rejects a user-state overwrite.
    fn apply_state_mutation(&mut self, m: ExternalStateMutation) -> (actions: Vec<Action>)
        requires
            old(self).outbox_next_seq < u64::MAX,
        ensures
            applies_state_mutation(*old(self), m, *final(self), actions@),
    {
        let found = find_user_state(&self.user_states, &m.service_id);
        // a precondition only conflicts with a recorded version
        let conflict = match &m.version {
            None => false,
            Some(want) => match found {
                Some(i) => match &self.user_states[i].version {
                    Some(stored) => !want.eq(stored),
                    None => false,
                },
                None => false,
            },
        };
        if conflict {
            match m.response_sink {
                None => no_actions(),
                Some(sink) => {
                    let seq = self.outbox_next_seq;
                    let message = conflict_message_for(&sink);
                    let message_for_action = dup_msg(&message);
                    self.outbox.push(OutboxEntry { seq_number: seq, message });
                    self.outbox_next_seq = seq + 1;
                    let mut actions: Vec<Action> = Vec::new();
                    actions.push(
                        Action::NewOutboxMessage { seq_number: seq, message: message_for_action },
                    );
                    proof {
                        lemma_conflict_message_like(
                            actions@[0]->NewOutboxMessage_message,
                            self.outbox@.last().message,
                            sink,
                        );
                    }
                    actions
                },
            }
        } else {
            match found {
                Some(i) => {
                    let entry = &mut self.user_states[i];
                    entry.version = m.version;
                    entry.entries = m.state;
                },
                None => {
                    self.user_states.push(
                        UserStateEntry {
                            service_id: m.service_id,
                            version: m.version,
                            entries: m.state,
                        },
                    );
                },
            }
            no_actions()
        }
    }

    /// Frees the instance at `i` whose invocation `uuid` ended: drops the
    /// invocation's timers and starts the next inbox entry, if any.
    fn release_instance(&mut self, i: usize, uuid: InvocationUuid, actions: &mut Vec<Action>)
        requires
            i < old(self).instances@.len(),
        ensures
            releases_instance(
                *old(self),
                *final(self),
                i as int,
                uuid,
                final(actions)@,
                old(actions)@.len() as int,
            ),
            final(actions)@.take(old(actions)@.len() as int) == old(actions)@,
    {
        prune_timers(&mut self.timers, uuid);
        let inst = &mut self.instances[i];
        if inst.inbox.len() > 0 {
            let next = inst.inbox.remove(0);
            let next_uuid = next.fid.invocation_uuid;
            inst.active = Some(
                ActiveInvocation { invocation_uuid: next_uuid, journal: JournalKind::Invoker },
            );
            actions.push(Action::Invoke { full_invocation_id: next.fid });
            proof {
                assert(final(actions)@.take(old(actions)@.len() as int) =~= old(actions)@);
                assert(self.instances@[i as int].inbox@ =~= old(
                    self,
                ).instances@[i as int].inbox@.drop_first());
            }
        } else {
            inst.active = None;
            proof {
                assert(final(actions)@.take(old(actions)@.len() as int) =~= old(actions)@);
            }
        }
    }

    /// Kills or cancels the named in-flight invocation.
    fn apply_terminate(&mut self, t: InvocationTermination) -> (actions: Vec<Action>)
        ensures
            applies_terminate(*old(self), t, *final(self), actions@),
    {
        let uuid = t.maybe_fid.invocation_uuid();
        match find_active(&self.instances, uuid) {
            None => no_actions(),
            Some(i) => {
                proof {
                    lemma_active_idx_found(self.instances@, uuid, 0);
                }
                let vm = virtual_method_of(&self.instances[i]);
                let sid = dup_service_id(&self.instances[i].service_id);
                let graceful = matches!(t.flavor, TerminationFlavor::Cancel) && vm.is_some();
                match vm {
                    Some(mn) if graceful => {
                        // graceful: deliver a cancellation completion into
                        // the virtual journal
                        let mut actions: Vec<Action> = Vec::new();
                        actions.push(
                            Action::NotifyVirtualJournalCompletion {
                                target_service: sid,
                                method_name: mn,
                                invocation_uuid: uuid,
                                completion: Completion {
                                    entry_index: 0,
                                    result: CompletionResult::Failure(
                                        CANCELED_CODE,
                                        String::from_str("invocation canceled"),
                                    ),
                                },
                            },
                        );
                        actions
                    },
                    Some(mn) => {
                        // hard kill of a virtual journal
                        let mut actions: Vec<Action> = Vec::new();
                        actions.push(
                            Action::NotifyVirtualJournalKill {
                                target_service: sid,
                                method_name: mn,
                                invocation_uuid: uuid,
                            },
                        );
                        let ghost with_kill = actions@;
                        self.release_instance(i, uuid, &mut actions);
                        proof {
                            assert(actions@.take(1) == with_kill);
                            assert(actions@[0] == with_kill[0]);
                        }
                        actions
                    },
                    None => {
                        // hard kill of an invoker-backed invocation
                        let mut actions: Vec<Action> = Vec::new();
                        actions.push(
                            Action::AbortInvocation(
                                FullInvocationId { service_id: sid, invocation_uuid: uuid },
                            ),
                        );
                        let ghost with_kill = actions@;
                        self.release_instance(i, uuid, &mut actions);
                        proof {
                            assert(actions@.take(1) == with_kill);
                            assert(actions@[0] == with_kill[0]);
                        }
                        actions
                    },
                }
            },
        }
    }

    /// Projects one invoker effect into actions and state changes.
    fn apply_invoker_effect(&mut self, eff: InvokerEffect) -> (actions: Vec<Action>)
        requires
            old(self).outbox_next_seq < u64::MAX,
        ensures
            applies_invoker_effect(*old(self), eff, *final(self), actions@),
    {
        let uuid = eff.full_invocation_id.invocation_uuid;
        let found = find_active(&self.instances, uuid);
        let i = match found {
            None => {
                return no_actions();
            },
            Some(i) => i,
        };
        proof {
            lemma_active_idx_found(self.instances@, uuid, 0);
        }
        let backed_by_invoker = match &self.instances[i].active {
            Some(a) => matches!(a.journal, JournalKind::Invoker),
            None => false,
        };
        if !backed_by_invoker {
            return no_actions();
        }
        let InvokerEffect { full_invocation_id: fid, kind } = eff;
        match kind {
            InvokerEffectKind::JournalEntry { entry_index, entry } => {
                match entry {
                    JournalEntryKind::SetTimer { wake_up_time } => {
                        let tv_stored = TimerValue {
                            full_invocation_id: dup_fid(&fid),
                            entry_index,
                            wake_up_time,
                        };
                        self.timers.push(tv_stored);
                        let tv_announced = TimerValue {
                            full_invocation_id: dup_fid(&fid),
                            entry_index,
                            wake_up_time,
                        };
                        let mut actions: Vec<Action> = Vec::new();
                        actions.push(Action::RegisterTimer { timer_value: tv_announced });
                        actions.push(
                            Action::AckStoredEntry { full_invocation_id: fid, entry_index },
                        );
                        actions
                    },
                    JournalEntryKind::BackgroundInvoke(si) => {
                        let seq = self.outbox_next_seq;
                        let si_announced = dup_si(&si);
                        self.outbox.push(
                            OutboxEntry {
                                seq_number: seq,
                                message: OutboxMessage::ServiceInvocation(si),
                            },
                        );
                        self.outbox_next_seq = seq + 1;
                        let mut actions: Vec<Action> = Vec::new();
                        actions.push(
                            Action::NewOutboxMessage {
                                seq_number: seq,
                                message: OutboxMessage::ServiceInvocation(si_announced),
                            },
                        );
                        actions.push(
                            Action::AckStoredEntry { full_invocation_id: fid, entry_index },
                        );
                        actions
                    },
                    JournalEntryKind::CompleteAwakeable { id, entry_index: target_entry, result } => {
                        let seq = self.outbox_next_seq;
                        let resp = InvocationResponse {
                            id: MaybeFullInvocationId::Partial(id),
                            entry_index: target_entry,
                            result,
                        };
                        let resp_announced = dup_resp(&resp);
                        self.outbox.push(
                            OutboxEntry {
                                seq_number: seq,
                                message: OutboxMessage::ServiceResponse(resp),
                            },
                        );
                        self.outbox_next_seq = seq + 1;
                        let mut actions: Vec<Action> = Vec::new();
                        actions.push(
                            Action::NewOutboxMessage {
                                seq_number: seq,
                                message: OutboxMessage::ServiceResponse(resp_announced),
                            },
                        );
                        actions.push(
                            Action::AckStoredEntry { full_invocation_id: fid, entry_index },
                        );
                        actions
                    },
                    JournalEntryKind::Other => {
                        let mut actions: Vec<Action> = Vec::new();
                        actions.push(
                            Action::AckStoredEntry { full_invocation_id: fid, entry_index },
                        );
                        actions
                    },
                }
            },
            InvokerEffectKind::Suspended => no_actions(),
            InvokerEffectKind::End => {
                let mut actions: Vec<Action> = Vec::new();
                self.release_instance(i, uuid, &mut actions);
                actions
            },
            InvokerEffectKind::Failed { .. } => {
                let mut actions: Vec<Action> = Vec::new();
                self.release_instance(i, uuid, &mut actions);
                actions
            },
        }
    }

    /// Applies one built-in-service effect.
    fn apply_nbis_step(&mut self, e: NbisEffect) -> (actions: Vec<Action>)
        requires
            old(self).outbox_next_seq < u64::MAX,
        ensures
            nbis_step_applies(*old(self), e, *final(self), actions@),
    {
        match e {
            NbisEffect::CreateVirtualJournal { service_id, method_name, invocation_uuid } => {
                match find_instance(&self.instances, &service_id) {
                    None => {
                        self.instances.push(
                            ServiceInstance {
                                service_id,
                                active: Some(
                                    ActiveInvocation {
                                        invocation_uuid,
                                        journal: JournalKind::Virtual { method_name },
                                    },
                                ),
                                inbox: Vec::new(),
                            },
                        );
                        proof {
                            assert(self.instances@.last().inbox@ =~= Seq::<
                                ServiceInvocation,
                            >::empty());
                        }
                        no_actions()
                    },
                    Some(i) => {
                        let inst = &mut self.instances[i];
                        inst.active = Some(
                            ActiveInvocation {
                                invocation_uuid,
                                journal: JournalKind::Virtual { method_name },
                            },
                        );
                        no_actions()
                    },
                }
            },
            NbisEffect::DropJournal { invocation_uuid } => {
                match find_active(&self.instances, invocation_uuid) {
                    None => no_actions(),
                    Some(i) => {
                        let inst = &mut self.instances[i];
                        inst.active = None;
                        no_actions()
                    },
                }
            },
            NbisEffect::OutboxMessage(m) => {
                let seq = self.outbox_next_seq;
                let announced = dup_msg(&m);
                self.outbox.push(OutboxEntry { seq_number: seq, message: m });
                self.outbox_next_seq = seq + 1;
                let mut actions: Vec<Action> = Vec::new();
                actions.push(Action::NewOutboxMessage { seq_number: seq, message: announced });
                actions
            },
        }
    }

    /// Applies the effects of a built-in service one after the other.
    fn apply_nbis(&mut self, effects: &mut Vec<NbisEffect>) -> (actions: Vec<Action>)
        requires
            old(self).outbox_next_seq + old(effects)@.len() <= u64::MAX,
        ensures
            nbis_applies(*old(self), old(effects)@, *final(self), actions@),
            final(self).outbox_next_seq <= old(self).outbox_next_seq + old(effects)@.len(),
        decreases old(effects)@.len(),
    {
        let ghost orig = effects@;
        match effects.pop() {
            None => {
                proof {
                    assert(orig.len() == 0);
                }
                no_actions()
            },
            Some(e) => {
                let ghost rest = effects@;
                let mut actions = self.apply_nbis(effects);
                let ghost mid = *self;
                let ghost a1 = actions@;
                let mut tail_actions = self.apply_nbis_step(e);
                let ghost a2 = tail_actions@;
                actions.append(&mut tail_actions);
                proof {
                    assert(orig.drop_last() =~= rest);
                    assert(orig.last() == e);
                    lemma_nbis_applies_step(*old(self), orig, mid, a1, *self, a2);
                    assert(actions@ == a1 + a2);
                }
                actions
            },
        }
    }
}

/// No actions: the empty action list.
fn no_actions() -> (r: Vec<Action>)
    ensures
        r@ == Seq::<Action>::empty(),
{
    let r: Vec<Action> = Vec::new();
    proof {
        assert(r@ =~= Seq::<Action>::empty());
    }
    r
}

/// The conflict notice delivered to the given sink.
fn conflict_message_for(sink: &ServiceInvocationResponseSink) -> (r: OutboxMessage)
    ensures
        is_conflict_message(r, *sink),
{
    let result = ResponseResult::Failure(
        CONFLICT_CODE,
        String::from_str("state version conflict"),
    );
    match sink {
        ServiceInvocationResponseSink::PartitionProcessor { caller, entry_index } =>
            OutboxMessage::ServiceResponse(
            InvocationResponse {
                id: MaybeFullInvocationId::Full(dup_fid(caller)),
                entry_index: *entry_index,
                result,
            },
        ),
        ServiceInvocationResponseSink::NewInvocation { target, .. } =>
            OutboxMessage::ServiceResponse(
            InvocationResponse {
                id: MaybeFullInvocationId::Full(dup_fid(target)),
                entry_index: 0,
                result,
            },
        ),
        ServiceInvocationResponseSink::Ingress(node) => OutboxMessage::IngressResponse {
            to_node: *node,
            response: result,
        },
    }
}

/// Two conflict notices for the same sink satisfy the same description.
proof fn lemma_conflict_message_like(
    a: OutboxMessage,
    b: OutboxMessage,
    sink: ServiceInvocationResponseSink,
)
    requires
        msg_like(a, b),
        is_conflict_message(b, sink),
    ensures
        is_conflict_message(a, sink),
{
}

/// One partition's state machine: its replicated state plus the producer
/// deduplication table, both owned exclusively by the single apply loop.
#[derive(Debug, Clone, PartialEq, Eq)]
pub struct PartitionStateMachine {
    pub state: PartitionState,
    pub dedup: DedupTable,
}

impl PartitionStateMachine {
    /// A freshly started partition: empty state, nothing applied yet.
    pub fn new() -> (r: Self)
        ensures
            r.state.instances@ == Seq::<ServiceInstance>::empty(),
            r.state.timers@ == Seq::<TimerValue>::empty(),
            r.state.outbox@ == Seq::<OutboxEntry>::empty(),
            r.state.outbox_next_seq == 0,
            r.state.user_states@ == Seq::<UserStateEntry>::empty(),
            r.dedup.entries@ == Seq::<crate::dedup::DedupEntry>::empty(),
            dedup_keys_unique(r.dedup.entries@),
    {
        PartitionStateMachine { state: PartitionState::new(), dedup: DedupTable::new() }
    }

    /// Applies one enveloped command.
    ///
    /// With duplicate suppression requested, a message at or below the
    /// producer's last applied sequence number is never reapplied: the
    /// state is left exactly as it was and the producer receives a
    /// `Duplicate` acknowledgement naming its own sequence number and the
    /// last applied one. The first message of a producer, or the next in
    /// sequence, is applied, advances the producer's record, and is
    /// acknowledged. A producer that skips ahead is refused with a
    /// sequence-gap error and nothing is applied.
    pub fn on_ack_command(&mut self, envelope: AckCommand) -> (r: Result<
        Vec<Action>,
        PartitionError,
    >)
        requires
            old(self).state.outbox_next_seq + outbox_room(envelope.cmd) <= u64::MAX,
            dedup_keys_unique(old(self).dedup.entries@),
        ensures
            dedup_keys_unique(final(self).dedup.entries@),
            match envelope.ack_mode {
                AckMode::Dedup(source) => {
                    let key = source_key_model(source);
                    let seq = spec_seq_number(source);
                    match dedup_lookup(old(self).dedup.entries@, key) {
                        Some(last) => if seq <= last {
                            // a duplicate changes nothing and is answered as such
                            &&& r matches Ok(a)
                            &&& a@ == seq![Action::SendAckResponse(spec_duplicate(source, last))]
                            &&& *final(self) == *old(self)
                        } else if seq == last + 1 {
                            &&& on_ack_applied(*old(self), envelope.cmd, source, seq, *final(self), r)
                        } else {
                            // a sequence gap is a protocol violation: refuse
                            &&& r == Err::<Vec<Action>, PartitionError>(
                                PartitionError::SequenceGap { last_applied: last, seq_number: seq },
                            )
                            &&& *final(self) == *old(self)
                        },
                        None => on_ack_applied(*old(self), envelope.cmd, source, seq, *final(self), r),
                    }
                },
                AckMode::Ack(target) => {
                    &&& r matches Ok(a)
                    &&& a@.len() >= 1
                    &&& applies(old(self).state, envelope.cmd, final(self).state, a@.drop_last())
                    &&& a@.last() == Action::SendAckResponse(spec_target_acknowledge(target))
                    &&& final(self).dedup == old(self).dedup
                },
                AckMode::NoAck => {
                    &&& r matches Ok(a)
                    &&& applies(old(self).state, envelope.cmd, final(self).state, a@)
                    &&& final(self).dedup == old(self).dedup
                },
            },
    {
        let AckCommand { cmd, ack_mode } = envelope;
        match ack_mode {
            AckMode::Dedup(source) => {
                let seq = source.seq_number();
                let last = self.dedup.get(&source);
                match last {
                    Some(last) if seq <= last => {
                        let mut actions: Vec<Action> = Vec::new();
                        actions.push(Action::SendAckResponse(source.duplicate(last)));
                        proof {
                            assert(actions@ =~= seq![
                                Action::SendAckResponse(spec_duplicate(source, last)),
                            ]);
                        }
                        Ok(actions)
                    },
                    Some(last) if seq > last && seq - last > 1 => {
                        Err(PartitionError::SequenceGap { last_applied: last, seq_number: seq })
                    },
                    _ => {
                        let mut actions = self.state.apply(cmd);
                        self.dedup.record(&source, seq);
                        let ghost inner = actions@;
                        actions.push(Action::SendAckResponse(source.acknowledge()));
                        proof {
                            assert(actions@.drop_last() =~= inner);
                        }
                        Ok(actions)
                    },
                }
            },
            AckMode::Ack(target) => {
                let mut actions = self.state.apply(cmd);
                let ghost inner = actions@;
                actions.push(Action::SendAckResponse(target.acknowledge()));
                proof {
                    assert(actions@.drop_last() =~= inner);
                }
                Ok(actions)
            },
            AckMode::NoAck => {
                let actions = self.state.apply(cmd);
                Ok(actions)
            },
        }
    }
}

/// The applied half of a deduplicated delivery: the command took effect
/// once, the producer's record advanced to `seq`, no other producer's
/// record moved, and the producer was acknowledged after the command's
/// own actions.
pub open spec fn on_ack_applied(
    pre: PartitionStateMachine,
    cmd: Command,
    source: DeduplicationSource,
    seq: MessageIndex,
    post: PartitionStateMachine,
    r: Result<Vec<Action>, PartitionError>,
) -> bool {
    &&& r matches Ok(a)
    &&& a@.len() >= 1
    &&& applies(pre.state, cmd, post.state, a@.drop_last())
    &&& a@.last() == Action::SendAckResponse(spec_acknowledge(source))
    &&& dedup_lookup(post.dedup.entries@, source_key_model(source)) == Some(seq)
    &&& (forall|k: crate::dedup::DedupKeyModel|
        k != source_key_model(source) ==> #[trigger] dedup_lookup(post.dedup.entries@, k)
            == dedup_lookup(pre.dedup.entries@, k))
}

} // verus!
