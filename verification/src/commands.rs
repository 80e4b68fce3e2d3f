//! The envelope around every state-machine input: a command plus an
//! optional exactly-once delivery contract.
//!
//! A producer may ask for a plain reception acknowledgement, for
//! duplicate suppression against its own sequence numbers, or for
//! nothing. The envelope is orthogonal to the command it carries.

use vstd::prelude::*;

verus! {

use crate::actions::{InvokerEffect, NbisEffects, TimerValue};
use crate::identifiers::{PartitionId, PeerId};
use crate::invocation::{
    GenerationalNodeId, InvocationResponse, InvocationTermination, ServiceInvocation,
};
use crate::state_mutation::ExternalStateMutation;

/// Sequence number of a message within one producer's stream.
pub type MessageIndex = u64;

/// The acknowledgement sent back for one received message.
#[derive(Debug, Clone, Copy, PartialEq, Eq, Structural)]
pub enum AckKind {
    /// The message with this sequence number was applied.
    Acknowledge(MessageIndex),
    /// The message was a duplicate and was not reapplied.
    Duplicate {
        /// The duplicate's own sequence number.
        seq_number: MessageIndex,
        /// The highest sequence number applied for this producer.
        last_known_seq_number: MessageIndex,
    },
}

/// State machine input commands.
#[derive(Debug, Clone, PartialEq, Eq)]
pub enum Command {
    ExternalStateMutation(ExternalStateMutation),
    TerminateInvocation(InvocationTermination),
    Invoker(InvokerEffect),
    Timer(TimerValue),
    OutboxTruncation(MessageIndex),
    Invocation(ServiceInvocation),
    Response(InvocationResponse),
    BuiltInInvoker(NbisEffects),
}

impl Command {
    /// A human-readable name for the command's kind.
    pub fn type_human(&self) -> (r: &'static str)
        ensures
            match self {
                Command::TerminateInvocation(_) => r@ == "InvocationTermination"@,
                Command::Invoker(_) => r@ == "InvokerEffect"@,
                Command::Timer(_) => r@ == "TimerValue"@,
                Command::OutboxTruncation(_) => r@ == "OutboxTruncation"@,
                Command::Invocation(_) => r@ == "ServiceInvocation"@,
                Command::Response(_) => r@ == "InvocationResponse"@,
                Command::BuiltInInvoker(_) => r@ == "NBISEffects"@,
                Command::ExternalStateMutation(_) => r@ == "ExternalStateMutation"@,
            },
    {
        match self {
            Command::TerminateInvocation(_) => "InvocationTermination",
            Command::Invoker(_) => "InvokerEffect",
            Command::Timer(_) => "TimerValue",
            Command::OutboxTruncation(_) => "OutboxTruncation",
            Command::Invocation(_) => "ServiceInvocation",
            Command::Response(_) => "InvocationResponse",
            Command::BuiltInInvoker(_) => "NBISEffects",
            Command::ExternalStateMutation(_) => "ExternalStateMutation",
        }
    }
}

/// A sequenced producer identity against which duplicates are detected,
/// together with the sequence number of one message.
#[derive(Debug, Clone, PartialEq, Eq)]
pub enum DeduplicationSource {
    /// A shuffle peer moving outbox messages between partitions.
    Shuffle {
        producing_partition_id: PartitionId,
        shuffle_id: PeerId,
        seq_number: MessageIndex,
    },
    /// An ingress request stream.
    Ingress {
        from_node_id: GenerationalNodeId,
        /// Distinguishes different sequence-number indexes produced by
        /// the ingress.
        source_id: String,
        seq_number: MessageIndex,
    },
}

impl DeduplicationSource {
    /// A shuffle-peer source.
    pub fn shuffle(
        shuffle_id: PeerId,
        producing_partition_id: PartitionId,
        seq_number: MessageIndex,
    ) -> (r: Self)
        ensures
            r == (DeduplicationSource::Shuffle { producing_partition_id, shuffle_id, seq_number }),
    {
        DeduplicationSource::Shuffle { shuffle_id, producing_partition_id, seq_number }
    }

    /// An ingress-stream source.
    pub fn ingress(
        from_node_id: GenerationalNodeId,
        source_id: String,
        seq_number: MessageIndex,
    ) -> (r: Self)
        ensures
            r == (DeduplicationSource::Ingress { from_node_id, source_id, seq_number }),
    {
        DeduplicationSource::Ingress { from_node_id, source_id, seq_number }
    }

    /// The sequence number this source attached to its message.
    pub fn seq_number(&self) -> (r: MessageIndex)
        ensures
            r == spec_seq_number(*self),
    {
        match self {
            DeduplicationSource::Shuffle { seq_number, .. } => *seq_number,
            DeduplicationSource::Ingress { seq_number, .. } => *seq_number,
        }
    }

    /// The acknowledgement for this message having been applied.
    pub fn acknowledge(self) -> (r: AckResponse)
        ensures
            r == spec_acknowledge(self),
    {
        match self {
            DeduplicationSource::Shuffle { shuffle_id, seq_number, .. } => AckResponse::Shuffle(
                ShuffleDeduplicationResponse {
                    shuffle_target: shuffle_id,
                    kind: AckKind::Acknowledge(seq_number),
                },
            ),
            DeduplicationSource::Ingress { from_node_id, seq_number, source_id } =>
                AckResponse::Ingress(
                IngressAckResponse {
                    from_node_id,
                    dedup_source: Some(source_id),
                    kind: AckKind::Acknowledge(seq_number),
                },
            ),
        }
    }

    /// The response for this message being a duplicate: it echoes the
    /// duplicate's own sequence number and names the highest one applied.
    pub fn duplicate(self, last_known_seq_number: MessageIndex) -> (r: AckResponse)
        ensures
            r == spec_duplicate(self, last_known_seq_number),
    {
        match self {
            DeduplicationSource::Shuffle { shuffle_id, seq_number, .. } => AckResponse::Shuffle(
                ShuffleDeduplicationResponse {
                    shuffle_target: shuffle_id,
                    kind: AckKind::Duplicate { seq_number, last_known_seq_number },
                },
            ),
            DeduplicationSource::Ingress { from_node_id, seq_number, source_id } =>
                AckResponse::Ingress(
                IngressAckResponse {
                    from_node_id,
                    dedup_source: Some(source_id),
                    kind: AckKind::Duplicate { seq_number, last_known_seq_number },
                },
            ),
        }
    }
}

/// The sequence number a deduplication source carries.
pub open spec fn spec_seq_number(s: DeduplicationSource) -> MessageIndex {
    match s {
        DeduplicationSource::Shuffle { seq_number, .. } => seq_number,
        DeduplicationSource::Ingress { seq_number, .. } => seq_number,
    }
}

/// The acknowledgement response a source receives when its message is
/// applied.
pub open spec fn spec_acknowledge(s: DeduplicationSource) -> AckResponse {
    match s {
        DeduplicationSource::Shuffle { shuffle_id, seq_number, .. } => AckResponse::Shuffle(
            ShuffleDeduplicationResponse {
                shuffle_target: shuffle_id,
                kind: AckKind::Acknowledge(seq_number),
            },
        ),
        DeduplicationSource::Ingress { from_node_id, seq_number, source_id } =>
            AckResponse::Ingress(
            IngressAckResponse {
                from_node_id,
                dedup_source: Some(source_id),
                kind: AckKind::Acknowledge(seq_number),
            },
        ),
    }
}

/// The response a source receives when its message is a duplicate.
pub open spec fn spec_duplicate(
    s: DeduplicationSource,
    last_known_seq_number: MessageIndex,
) -> AckResponse {
    match s {
        DeduplicationSource::Shuffle { shuffle_id, seq_number, .. } => AckResponse::Shuffle(
            ShuffleDeduplicationResponse {
                shuffle_target: shuffle_id,
                kind: AckKind::Duplicate { seq_number, last_known_seq_number },
            },
        ),
        DeduplicationSource::Ingress { from_node_id, seq_number, source_id } =>
            AckResponse::Ingress(
            IngressAckResponse {
                from_node_id,
                dedup_source: Some(source_id),
                kind: AckKind::Duplicate { seq_number, last_known_seq_number },
            },
        ),
    }
}

/// The plain acknowledgement an ack target receives.
pub open spec fn spec_target_acknowledge(t: AckTarget) -> AckResponse {
    match t {
        AckTarget::Ingress { node_id, seq_number } => AckResponse::Ingress(
            IngressAckResponse {
                from_node_id: node_id,
                dedup_source: None,
                kind: AckKind::Acknowledge(seq_number),
            },
        ),
    }
}

/// Where a plain reception acknowledgement is sent.
#[derive(Debug, Clone, PartialEq, Eq)]
pub enum AckTarget {
    Ingress { node_id: GenerationalNodeId, seq_number: MessageIndex },
}

impl AckTarget {
    /// An ingress acknowledgement target.
    pub fn ingress(node_id: GenerationalNodeId, seq_number: MessageIndex) -> (r: Self)
        ensures
            r == (AckTarget::Ingress { node_id, seq_number }),
    {
        AckTarget::Ingress { node_id, seq_number }
    }

    /// The plain acknowledgement for this target.
    pub fn acknowledge(self) -> (r: AckResponse)
        ensures
            r == spec_target_acknowledge(self),
    {
        match self {
            AckTarget::Ingress { node_id, seq_number } => AckResponse::Ingress(
                IngressAckResponse {
                    from_node_id: node_id,
                    dedup_source: None,
                    kind: AckKind::Acknowledge(seq_number),
                },
            ),
        }
    }
}

/// An acknowledgement on its way back to a producer.
#[derive(Debug, Clone, PartialEq, Eq)]
pub enum AckResponse {
    Shuffle(ShuffleDeduplicationResponse),
    Ingress(IngressAckResponse),
}

/// An acknowledgement for a shuffle peer.
#[derive(Debug, Clone, Copy, PartialEq, Eq, Structural)]
pub struct ShuffleDeduplicationResponse {
    /// The shuffle this response is routed to.
    pub shuffle_target: PeerId,
    pub kind: AckKind,
}

/// An acknowledgement for an ingress.
#[derive(Debug, Clone, PartialEq, Eq)]
pub struct IngressAckResponse {
    pub from_node_id: GenerationalNodeId,
    /// The sequence-number index this acknowledgement belongs to, echoed
    /// back; `None` for plain acknowledgements.
    pub dedup_source: Option<String>,
    pub kind: AckKind,
}

/// How a command wants to be acknowledged.
#[derive(Debug, Clone, PartialEq, Eq)]
pub enum AckMode {
    /// Acknowledge reception, without duplicate suppression.
    Ack(AckTarget),
    /// Suppress duplicates against the producer's sequence numbers.
    Dedup(DeduplicationSource),
    /// Fire and forget.
    NoAck,
}

/// Envelope for a command that might require an explicit acknowledge.
#[derive(Debug, Clone, PartialEq, Eq)]
pub struct AckCommand {
    pub cmd: Command,
    pub ack_mode: AckMode,
}

impl AckCommand {
    /// A command that requires an acknowledgement upon reception.
    pub fn ack(cmd: Command, ack_target: AckTarget) -> (r: Self)
        ensures
            r.cmd == cmd,
            r.ack_mode == AckMode::Ack(ack_target),
    {
        AckCommand { cmd, ack_mode: AckMode::Ack(ack_target) }
    }

    /// A command to be deduplicated against the producer's sequence
    /// number by the receiver.
    pub fn dedup(cmd: Command, deduplication_source: DeduplicationSource) -> (r: Self)
        ensures
            r.cmd == cmd,
            r.ack_mode == AckMode::Dedup(deduplication_source),
    {
        AckCommand { cmd, ack_mode: AckMode::Dedup(deduplication_source) }
    }

    /// A command that should not be acknowledged.
    pub fn no_ack(cmd: Command) -> (r: Self)
        ensures
            r.cmd == cmd,
            r.ack_mode == AckMode::NoAck,
    {
        AckCommand { cmd, ack_mode: AckMode::NoAck }
    }

    /// The command and its acknowledgement mode.
    pub fn into_inner(self) -> (r: (Command, AckMode))
        ensures
            r.0 == self.cmd,
            r.1 == self.ack_mode,
    {
        (self.cmd, self.ack_mode)
    }
}

} // verus!
