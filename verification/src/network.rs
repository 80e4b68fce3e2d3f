//! Routing targets of the network layer: where a message leaving a
//! partition goes, and how message types declare it.

use vstd::prelude::*;

verus! {

use crate::identifiers::{PartitionId, PartitionKey, PeerId};

/// Messages that are sent to the shuffle component.
pub trait TargetShuffle {
    /// Returns the target shuffle, identified by its peer id.
    fn shuffle_target(&self) -> PeerId;
}

/// A message bound for the consensus module or an ingress.
#[derive(Debug, Clone, PartialEq, Eq)]
pub enum ConsensusOrIngressTarget<C, I> {
    Consensus(C),
    Ingress(I),
}

/// Messages that are sent to the consensus module or an ingress.
pub trait TargetConsensusOrIngress<C, I> {
    /// Splits the message by its target: either an ingress or the
    /// consensus module.
    fn into_target(self) -> ConsensusOrIngressTarget<C, I>;
}

/// A message bound for the consensus module or a shuffle.
#[derive(Debug, Clone, PartialEq, Eq)]
pub enum ConsensusOrShuffleTarget<C, S> {
    Consensus(C),
    Shuffle(S),
}

/// Messages that are sent to the consensus module or a shuffle.
pub trait TargetConsensusOrShuffle<C, S> {
    /// Splits the message by its target: either the consensus module or
    /// a shuffle.
    fn into_target(self) -> ConsensusOrShuffleTarget<C, S>;
}

/// A message bound for a shuffle or an ingress.
#[derive(Debug, Clone, PartialEq, Eq)]
pub enum ShuffleOrIngressTarget<S, I> {
    Shuffle(S),
    Ingress(I),
}

/// Messages that are sent to a shuffle or an ingress.
pub trait TargetShuffleOrIngress<S, I> {
    /// Splits the message by its target: either a shuffle or an ingress.
    fn into_target(self) -> ShuffleOrIngressTarget<S, I>;
}

/// No partition owns the given key.
#[derive(Debug, Clone, Copy, PartialEq, Eq, Structural)]
pub struct PartitionTableError(pub PartitionKey);

/// Tables that route a partition key to the partition owning it.
pub trait FindPartition {
    /// The partition responsible for `partition_key`.
    fn find_partition_id(&self, partition_key: PartitionKey) -> Result<
        PartitionId,
        PartitionTableError,
    >;
}

} // verus!
