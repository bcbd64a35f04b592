//! Resource selectors: what the operator named, before it is resolved.

use vstd::prelude::*;

verus! {

/// The family that a selector's identifiers belong to.
#[derive(Clone, Copy, Debug, PartialEq, Eq, Structural)]
pub enum ShushResourceType {
    /// Infrastructure instance ids.
    Node,
    /// Subscription names.
    Sub,
    /// Monitoring client names.
    Client,
}

/// A resource selector: identifiers of one family.
#[derive(Debug, PartialEq, Eq)]
pub struct ShushResources {
    pub res_type: ShushResourceType,
    pub resources: Vec<String>,
}

} // verus!
