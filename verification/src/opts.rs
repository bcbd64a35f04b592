//! What the operator asked for, as the command line gave it.

use vstd::prelude::*;
use crate::expire::Expire;
use crate::resources::ShushResources;

verus! {

/// The targets and the expiration of a silence.
#[derive(Debug)]
pub struct SilenceOpts {
    pub resources: Option<ShushResources>,
    pub checks: Option<Vec<String>>,
    pub expire: Expire,
}

/// The targets whose silences are cleared.
#[derive(Debug)]
pub struct ClearOpts {
    pub resources: Option<ShushResources>,
    pub checks: Option<Vec<String>>,
}

/// The patterns that listed silences must match.
#[derive(Debug)]
pub struct ListOpts {
    pub sub: Option<String>,
    pub chk: Option<String>,
}

/// One of the three commands, with its options.
#[derive(Debug)]
pub enum ShushOpts {
    Silence(SilenceOpts),
    Clear(ClearOpts),
    List(ListOpts),
}

} // verus!
