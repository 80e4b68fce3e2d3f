//! Core types representing one service invocation, its response routing,
//! and the deterministic tracing context attached to it.

use vstd::prelude::*;

verus! {

use crate::identifiers::{
    EntryIndex, FullInvocationId, InvocationId, InvocationUuid, PartitionKey, ServiceId,
    WithPartitionKey,
};

/// Identifies one node generation in the cluster.
#[derive(Debug, Clone, Copy, PartialEq, Eq, Structural, Hash)]
pub struct GenerationalNodeId {
    pub id: u32,
    pub generation: u32,
}

/// Status code accompanying a failed invocation result.
pub type UserErrorCode = u32;

/// A 128-bit trace identifier.
pub type TraceId = u128;

/// A 64-bit span identifier.
pub type SpanId = u64;

/// The low 64 bits of a uuid, used as a span id.
pub open spec fn span_id_of_uuid(uuid: u128) -> SpanId {
    (uuid & 0xFFFF_FFFF_FFFF_FFFF) as u64
}

/// A span id with its eight bytes in reverse order, used for the pointer
/// span of a linked trace so the two span ids differ but determine each
/// other.
pub open spec fn reversed_span_id(v: u64) -> SpanId {
    ((v & 0xFF) << 56) | (((v >> 8) & 0xFF) << 48) | (((v >> 16) & 0xFF) << 40) | (((v >> 24)
        & 0xFF) << 32) | (((v >> 32) & 0xFF) << 24) | (((v >> 40) & 0xFF) << 16) | (((v >> 48)
        & 0xFF) << 8) | ((v >> 56) & 0xFF)
}

/// One remote span context: the wire-level identity of a span.
#[derive(Debug, Clone, PartialEq, Eq)]
pub struct SpanContext {
    pub trace_id: TraceId,
    pub span_id: SpanId,
    /// Bit 0 is the sampled flag.
    pub trace_flags: u8,
    pub is_remote: bool,
    /// The propagated tracing state header; empty when none.
    pub trace_state: String,
}

/// Whether a span context carries the sampled flag.
pub open spec fn span_context_sampled(c: SpanContext) -> bool {
    c.trace_flags & 1 == 1
}

impl SpanContext {
    /// A span context from its parts.
    pub fn new(
        trace_id: TraceId,
        span_id: SpanId,
        trace_flags: u8,
        is_remote: bool,
        trace_state: String,
    ) -> (r: Self)
        ensures
            r == (SpanContext { trace_id, span_id, trace_flags, is_remote, trace_state }),
    {
        SpanContext { trace_id, span_id, trace_flags, is_remote, trace_state }
    }

    /// The all-zero, unsampled context.
    pub fn empty_context() -> (r: Self)
        ensures
            r.trace_id == 0,
            r.span_id == 0,
            r.trace_flags == 0,
            !r.is_remote,
            r.trace_state@ == Seq::<char>::empty(),
    {
        SpanContext {
            trace_id: 0,
            span_id: 0,
            trace_flags: 0,
            is_remote: false,
            trace_state: String::new(),
        }
    }

    /// Whether this span is sampled.
    pub fn is_sampled(&self) -> (r: bool)
        ensures
            r == span_context_sampled(*self),
    {
        self.trace_flags & 1 == 1
    }

    /// A copy of this context, equal field by field.
    pub fn duplicate(&self) -> (r: Self)
        ensures
            r == *self,
    {
        SpanContext {
            trace_id: self.trace_id,
            span_id: self.span_id,
            trace_flags: self.trace_flags,
            is_remote: self.is_remote,
            trace_state: self.trace_state.clone(),
        }
    }
}

/// How a new invocation's span relates to the span that caused it.
#[derive(Debug, Clone, PartialEq, Eq)]
pub enum SpanRelation {
    /// No causing span.
    Unrelated,
    Parent(SpanContext),
    Linked(SpanContext),
}

/// Whether the causing span, if any, is sampled.
pub open spec fn span_relation_sampled(rel: SpanRelation) -> bool {
    match rel {
        SpanRelation::Unrelated => false,
        SpanRelation::Parent(c) => span_context_sampled(c),
        SpanRelation::Linked(c) => span_context_sampled(c),
    }
}

impl SpanRelation {
    /// Whether the causing span, if any, is sampled.
    pub fn is_sampled(&self) -> (r: bool)
        ensures
            r == span_relation_sampled(*self),
    {
        match self {
            SpanRelation::Unrelated => false,
            SpanRelation::Parent(span_context) => span_context.is_sampled(),
            SpanRelation::Linked(span_context) => span_context.is_sampled(),
        }
    }
}

/// The stored cause of an invocation span: enough to rebuild the causing
/// relation without storing the whole causing context.
#[derive(Debug, Clone, Copy, PartialEq, Eq, Structural)]
pub enum SpanRelationCause {
    Parent(SpanId),
    Linked(TraceId, SpanId),
}

/// The span information stored with a service invocation, from which
/// related spans are created.
#[derive(Debug, Clone, PartialEq, Eq)]
pub struct ServiceInvocationSpanContext {
    pub span_context: SpanContext,
    pub cause: Option<SpanRelationCause>,
}

/// The span context stored for an unsampled invocation: nothing.
pub open spec fn span_context_is_empty(c: ServiceInvocationSpanContext) -> bool {
    &&& c.span_context.trace_id == 0
    &&& c.span_context.span_id == 0
    &&& c.span_context.trace_flags == 0
    &&& !c.span_context.is_remote
    &&& c.span_context.trace_state@ == Seq::<char>::empty()
    &&& c.cause is None
}

/// Exactly what `ServiceInvocationSpanContext::start` stores for the
/// given invocation uuid and causing relation. The function is
/// deterministic: replicas replaying the same command derive the same
/// context.
pub open spec fn span_context_starts(
    r: ServiceInvocationSpanContext,
    uuid: u128,
    related_span: SpanRelation,
) -> bool {
    if !span_relation_sampled(related_span) {
        span_context_is_empty(r)
    } else {
        match related_span {
            SpanRelation::Linked(linked) => {
                // a fresh trace rooted in the invocation id, pointed to by a
                // reversed-span-id link in the causing trace
                &&& r.span_context.trace_id == uuid
                &&& r.span_context.span_id == span_id_of_uuid(uuid)
                &&& r.span_context.trace_flags == linked.trace_flags
                &&& !r.span_context.is_remote
                &&& r.span_context.trace_state@ == Seq::<char>::empty()
                &&& r.cause == Some(
                    SpanRelationCause::Linked(
                        linked.trace_id,
                        reversed_span_id(span_id_of_uuid(uuid)),
                    ),
                )
            },
            SpanRelation::Parent(parent) => {
                // a child span within the causing trace
                &&& r.span_context.trace_id == parent.trace_id
                &&& r.span_context.span_id == span_id_of_uuid(uuid)
                &&& r.span_context.trace_flags == parent.trace_flags
                &&& !r.span_context.is_remote
                &&& r.span_context.trace_state@ == parent.trace_state@
                &&& r.cause == Some(SpanRelationCause::Parent(parent.span_id))
            },
            SpanRelation::Unrelated => false,
        }
    }
}

impl ServiceInvocationSpanContext {
    /// A span context from already-derived parts.
    pub fn new(span_context: SpanContext, cause: Option<SpanRelationCause>) -> (r: Self)
        ensures
            r.span_context == span_context,
            r.cause == cause,
    {
        ServiceInvocationSpanContext { span_context, cause }
    }

    /// The context stored for unsampled invocations.
    pub fn empty() -> (r: Self)
        ensures
            span_context_is_empty(r),
    {
        ServiceInvocationSpanContext { span_context: SpanContext::empty_context(), cause: None }
    }

    /// Derives the span context of a new invocation from its id and the
    /// causing span. Deterministic: no clock and no randomness; unsampled
    /// causes store nothing, a linked cause roots a fresh trace in the
    /// invocation id, and a parent cause continues the causing trace.
    pub fn start(full_invocation_id: &FullInvocationId, related_span: SpanRelation) -> (r:
        ServiceInvocationSpanContext)
        ensures
            span_context_starts(r, full_invocation_id.invocation_uuid.0, related_span),
    {
        if !related_span.is_sampled() {
            // don't spend storage on unsampled traces
            return ServiceInvocationSpanContext::empty();
        }
        let uuid = full_invocation_id.invocation_uuid.0;
        let span_id: SpanId = (uuid & 0xFFFF_FFFF_FFFF_FFFF) as u64;
        match related_span {
            SpanRelation::Linked(linked_span_context) => {
                let pointer_span_id = reverse_span_id_bytes(span_id);
                let new_span_context = SpanContext {
                    trace_id: uuid,
                    span_id,
                    trace_flags: linked_span_context.trace_flags,
                    is_remote: false,
                    trace_state: String::new(),
                };
                let cause = SpanRelationCause::Linked(
                    linked_span_context.trace_id,
                    pointer_span_id,
                );
                ServiceInvocationSpanContext { span_context: new_span_context, cause: Some(cause) }
            },
            SpanRelation::Parent(parent_span_context) => {
                let new_span_context = SpanContext {
                    trace_id: parent_span_context.trace_id,
                    span_id,
                    trace_flags: parent_span_context.trace_flags,
                    is_remote: false,
                    trace_state: parent_span_context.trace_state.clone(),
                };
                let cause = SpanRelationCause::Parent(parent_span_context.span_id);
                ServiceInvocationSpanContext { span_context: new_span_context, cause: Some(cause) }
            },
            SpanRelation::Unrelated => {
                // unreachable under the sampling check above
                ServiceInvocationSpanContext::empty()
            },
        }
    }

    /// The relation this invocation's span was created under, rebuilt
    /// from the stored cause.
    pub fn causing_span_relation(&self) -> (r: SpanRelation)
        ensures
            match self.cause {
                None => r == SpanRelation::Unrelated,
                Some(SpanRelationCause::Parent(span_id)) => {
                    &&& r matches SpanRelation::Parent(c)
                    &&& c.trace_id == self.span_context.trace_id
                    &&& c.span_id == span_id
                    &&& c.trace_flags == self.span_context.trace_flags
                    &&& !c.is_remote
                    &&& c.trace_state@ == self.span_context.trace_state@
                },
                Some(SpanRelationCause::Linked(trace_id, span_id)) => {
                    &&& r matches SpanRelation::Linked(c)
                    &&& c.trace_id == trace_id
                    &&& c.span_id == span_id
                    &&& c.trace_flags == self.span_context.trace_flags
                    &&& !c.is_remote
                    &&& c.trace_state@ == Seq::<char>::empty()
                },
            },
    {
        match &self.cause {
            None => SpanRelation::Unrelated,
            Some(SpanRelationCause::Parent(span_id)) => SpanRelation::Parent(
                SpanContext {
                    trace_id: self.span_context.trace_id,
                    span_id: *span_id,
                    trace_flags: self.span_context.trace_flags,
                    is_remote: false,
                    trace_state: self.span_context.trace_state.clone(),
                },
            ),
            Some(SpanRelationCause::Linked(trace_id, span_id)) => SpanRelation::Linked(
                SpanContext {
                    trace_id: *trace_id,
                    span_id: *span_id,
                    trace_flags: self.span_context.trace_flags,
                    is_remote: false,
                    trace_state: String::new(),
                },
            ),
        }
    }

    /// The stored span context.
    pub fn span_context(&self) -> (r: &SpanContext)
        ensures
            r == &self.span_context,
    {
        &self.span_context
    }

    /// The stored cause, if any.
    pub fn span_cause(&self) -> (r: Option<&SpanRelationCause>)
        ensures
            match r {
                Some(c) => self.cause == Some(*c),
                None => self.cause is None,
            },
    {
        self.cause.as_ref()
    }

    /// This context as the link target of a new trace.
    pub fn as_linked(&self) -> (r: SpanRelation)
        ensures
            r matches SpanRelation::Linked(c) && c == self.span_context,
    {
        SpanRelation::Linked(self.span_context.duplicate())
    }

    /// This context as the parent of a child span.
    pub fn as_parent(&self) -> (r: SpanRelation)
        ensures
            r matches SpanRelation::Parent(c) && c == self.span_context,
    {
        SpanRelation::Parent(self.span_context.duplicate())
    }

    /// Whether this invocation's trace is sampled.
    pub fn is_sampled(&self) -> (r: bool)
        ensures
            r == span_context_sampled(self.span_context),
    {
        self.span_context.trace_flags & 1 == 1
    }

    /// The trace this invocation belongs to.
    pub fn trace_id(&self) -> (r: TraceId)
        ensures
            r == self.span_context.trace_id,
    {
        self.span_context.trace_id
    }
}

/// The span id with its bytes in reverse order.
fn reverse_span_id_bytes(v: u64) -> (r: u64)
    ensures
        r == reversed_span_id(v),
{
    ((v & 0xFF) << 56) | (((v >> 8) & 0xFF) << 48) | (((v >> 16) & 0xFF) << 40) | (((v >> 24)
        & 0xFF) << 32) | (((v >> 32) & 0xFF) << 24) | (((v >> 40) & 0xFF) << 16) | (((v >> 48)
        & 0xFF) << 8) | ((v >> 56) & 0xFF)
}

/// Definition of the sink where the result of an invocation is sent.
#[derive(Debug, Clone, PartialEq, Eq)]
pub enum ServiceInvocationResponseSink {
    /// The invocation was created by a partition processor waiting on a
    /// journal entry.
    PartitionProcessor { caller: FullInvocationId, entry_index: EntryIndex },
    /// The result becomes the input of a new invocation.
    NewInvocation { target: FullInvocationId, method: String, caller_context: Vec<u8> },
    /// The invocation came in at an ingress whose client awaits the
    /// response.
    Ingress(GenerationalNodeId),
}

/// Who produced an invocation.
#[derive(Debug, Clone, PartialEq, Eq)]
pub enum Source {
    Ingress,
    Service(FullInvocationId),
    /// Internal calls for the non-deterministic built-in services.
    Internal,
}

/// An invocation of a service, as appended to a partition's log.
#[derive(Debug, Clone, PartialEq, Eq)]
pub struct ServiceInvocation {
    pub fid: FullInvocationId,
    pub method_name: String,
    pub argument: Vec<u8>,
    pub source: Source,
    pub response_sink: Option<ServiceInvocationResponseSink>,
    pub span_context: ServiceInvocationSpanContext,
}

impl ServiceInvocation {
    /// An invocation of `fid`'s service with the span context derived
    /// deterministically from `related_span`.
    pub fn new(
        fid: FullInvocationId,
        method_name: String,
        argument: Vec<u8>,
        source: Source,
        response_sink: Option<ServiceInvocationResponseSink>,
        related_span: SpanRelation,
    ) -> (r: Self)
        ensures
            r.fid == fid,
            r.method_name == method_name,
            r.argument == argument,
            r.source == source,
            r.response_sink == response_sink,
            span_context_starts(r.span_context, fid.invocation_uuid.0, related_span),
    {
        let span_context = ServiceInvocationSpanContext::start(&fid, related_span);
        ServiceInvocation { fid, method_name, argument, source, response_sink, span_context }
    }
}

/// An invocation id that may or may not still carry the service name and
/// key.
#[derive(Debug, Clone, PartialEq, Eq)]
pub enum MaybeFullInvocationId {
    Partial(InvocationId),
    Full(FullInvocationId),
}

impl MaybeFullInvocationId {
    /// Projects to the short invocation id; for a full id this drops the
    /// service name and key irreversibly.
    pub fn to_invocation_id(self) -> (r: InvocationId)
        ensures
            match self {
                MaybeFullInvocationId::Partial(iid) => r == iid,
                MaybeFullInvocationId::Full(fid) => r.partition_key
                    == fid.service_id.partition_key && r.inner == fid.invocation_uuid,
            },
    {
        match self {
            MaybeFullInvocationId::Partial(iid) => iid,
            MaybeFullInvocationId::Full(fid) => fid.to_invocation_id(),
        }
    }

    /// The uuid component, common to both forms.
    pub fn invocation_uuid(&self) -> (r: InvocationUuid)
        ensures
            match self {
                MaybeFullInvocationId::Partial(iid) => r == iid.inner,
                MaybeFullInvocationId::Full(fid) => r == fid.invocation_uuid,
            },
    {
        match self {
            MaybeFullInvocationId::Partial(iid) => iid.inner,
            MaybeFullInvocationId::Full(fid) => fid.invocation_uuid,
        }
    }
}

impl WithPartitionKey for MaybeFullInvocationId {
    fn partition_key(&self) -> PartitionKey {
        match self {
            MaybeFullInvocationId::Partial(iid) => iid.partition_key,
            MaybeFullInvocationId::Full(fid) => fid.service_id.partition_key,
        }
    }
}

/// The outcome carried by an invocation response.
#[derive(Debug, Clone, PartialEq, Eq)]
pub enum ResponseResult {
    Success(Vec<u8>),
    Failure(UserErrorCode, String),
}

/// A response for a caller, delivered into its pending completion slot.
#[derive(Debug, Clone, PartialEq, Eq)]
pub struct InvocationResponse {
    /// Which invocation awaits this response.
    pub id: MaybeFullInvocationId,
    /// Which journal entry of that invocation awaits it.
    pub entry_index: EntryIndex,
    pub result: ResponseResult,
}

/// A request to terminate a running invocation.
#[derive(Debug, Clone, PartialEq, Eq)]
pub struct InvocationTermination {
    pub maybe_fid: MaybeFullInvocationId,
    pub flavor: TerminationFlavor,
}

impl InvocationTermination {
    /// A hard termination: no clean-up by the invocation.
    pub fn kill(maybe_fid: MaybeFullInvocationId) -> (r: Self)
        ensures
            r.maybe_fid == maybe_fid,
            r.flavor == TerminationFlavor::Kill,
    {
        InvocationTermination { maybe_fid, flavor: TerminationFlavor::Kill }
    }

    /// A graceful termination, letting the invocation clean up.
    pub fn cancel(maybe_fid: MaybeFullInvocationId) -> (r: Self)
        ensures
            r.maybe_fid == maybe_fid,
            r.flavor == TerminationFlavor::Cancel,
    {
        InvocationTermination { maybe_fid, flavor: TerminationFlavor::Cancel }
    }
}

/// Flavor of a termination: hard stop or graceful cancel.
#[derive(Debug, Clone, Copy, PartialEq, Eq, Structural)]
pub enum TerminationFlavor {
    /// Hard termination, no clean up.
    Kill,
    /// Graceful termination allowing the invocation to clean up.
    Cancel,
}

} // verus!
