//! When a silence ends.

use vstd::prelude::*;
use crate::text::{decimal, decimal_text};

verus! {

/// The expiration of a silence.
#[derive(Clone, Copy, Debug, PartialEq, Eq, Structural)]
pub enum Expire {
    /// No time limit; `on_resolve` ends the silence when the check resolves.
    NoExpiration { on_resolve: bool },
    /// The silence ends after `seconds`, or earlier when the check resolves
    /// where `on_resolve` is set.
    After { seconds: u64, on_resolve: bool },
}

impl Expire {
    /// The number of seconds after which the silence ends, if it has one.
    pub open spec fn seconds(self) -> Option<u64> {
        match self {
            Expire::NoExpiration { .. } => None,
            Expire::After { seconds, .. } => Some(seconds),
        }
    }

    /// Whether the silence ends when the check resolves.
    pub open spec fn on_resolve(self) -> bool {
        match self {
            Expire::NoExpiration { on_resolve } => on_resolve,
            Expire::After { on_resolve, .. } => on_resolve,
        }
    }

    /// What the silence will do, in words that follow "and will ".
    pub open spec fn text_view(self) -> Seq<char> {
        match self {
            Expire::NoExpiration { on_resolve } => if on_resolve {
                "expire on resolve"@
            } else {
                "never expire"@
            },
            Expire::After { seconds, on_resolve } => "expire in "@ + decimal_text(seconds as nat)
                + if on_resolve {
                " seconds or on resolve"@
            } else {
                " seconds"@
            },
        }
    }

    /// What the silence will do, in words that follow "and will ".
    pub fn text(&self) -> (s: String)
        ensures
            s@ == self.text_view(),
    {
        match self {
            Expire::NoExpiration { on_resolve } => if *on_resolve {
                String::from_str("expire on resolve")
            } else {
                String::from_str("never expire")
            },
            Expire::After { seconds, on_resolve } => {
                let head = String::from_str("expire in ").concat(decimal(*seconds).as_str());
                if *on_resolve {
                    head.concat(" seconds or on resolve")
                } else {
                    head.concat(" seconds")
                }
            },
        }
    }
}

} // verus!
