//! A user-state overwrite requested from outside the partition.

use vstd::prelude::*;

verus! {

use crate::identifiers::ServiceId;
use crate::invocation::ServiceInvocationResponseSink;

/// Replaces the whole user state of one service instance. When a version
/// precondition is given and does not match the stored version, the
/// mutation is rejected with a conflict delivered to its response sink,
/// never silently dropped.
#[derive(Debug, Clone, PartialEq, Eq)]
pub struct ExternalStateMutation {
    /// Whose state to replace.
    pub service_id: ServiceId,
    /// If set, the stored version must equal this for the overwrite to
    /// apply.
    pub version: Option<String>,
    /// The new state entries, replacing the previous state entirely.
    pub state: Vec<(Vec<u8>, Vec<u8>)>,
    /// Where a conflict is reported.
    pub response_sink: Option<ServiceInvocationResponseSink>,
}

} // verus!
