//! Requests of the service-metadata surface that reach the partition's
//! own state.

use vstd::prelude::*;

verus! {

/// Changes whether a service is reachable through the ingress.
#[derive(Debug, Clone, Copy, PartialEq, Eq, Structural)]
pub struct ModifyServiceRequest {
    /// If true, the service can be invoked through the ingress; if
    /// false, only from another service.
    pub public: bool,
}

/// Replaces the user state of one service instance, guarded by an
/// optional version precondition.
#[derive(Debug, Clone, PartialEq, Eq)]
pub struct ModifyServiceStateRequest {
    /// If set, the stored version is compared with this value and the
    /// operation fails when they differ.
    pub version: Option<String>,
    /// The service key to apply the change to.
    pub service_key: String,
    /// The new state replacing the previous one.
    pub new_state: Vec<(String, Vec<u8>)>,
}

} // verus!
