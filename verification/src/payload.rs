//! The body of a silence or clear request.

use vstd::prelude::*;
use crate::codec::{member_views, Scalar, ScalarView};
use crate::expire::Expire;

verus! {

/// What a silence or clear request asks for. A field that is `None` is left
/// out of the request.
#[derive(Debug, PartialEq, Eq)]
pub struct SensuPayload {
    /// The resource's identifier; `None` stands for every resource.
    pub res: Option<String>,
    /// The check's name; `None` stands for every check.
    pub chk: Option<String>,
    /// When the silence ends; `None` in a clear request.
    pub expire: Option<Expire>,
}

/// The mathematical model of a [`SensuPayload`].
pub struct PayloadView {
    pub res: Option<Seq<char>>,
    pub chk: Option<Seq<char>>,
    pub expire: Option<Expire>,
}

impl View for SensuPayload {
    type V = PayloadView;

    open spec fn view(&self) -> PayloadView {
        PayloadView {
            res: match self.res {
                Some(r) => Some(r@),
                None => None,
            },
            chk: match self.chk {
                Some(c) => Some(c@),
                None => None,
            },
            expire: self.expire,
        }
    }
}

/// The member that names the resource, if one is given.
pub open spec fn resource_member(res: Option<Seq<char>>) -> Seq<(Seq<char>, ScalarView)> {
    match res {
        Some(r) => seq![("resource"@, ScalarView::Text(r))],
        None => Seq::empty(),
    }
}

/// The member that names the check, if one is given.
pub open spec fn check_member(chk: Option<Seq<char>>) -> Seq<(Seq<char>, ScalarView)> {
    match chk {
        Some(c) => seq![("check"@, ScalarView::Text(c))],
        None => Seq::empty(),
    }
}

/// The members that state the expiration, if one is given: `expire` with the
/// number of seconds where there is a time limit, and `expire_on_resolve`.
pub open spec fn expire_members(expire: Option<Expire>) -> Seq<(Seq<char>, ScalarView)> {
    match expire {
        Some(Expire::NoExpiration { on_resolve }) => seq![
            ("expire_on_resolve"@, ScalarView::Flag(on_resolve)),
        ],
        Some(Expire::After { seconds, on_resolve }) => seq![
            ("expire"@, ScalarView::Count(seconds)),
            ("expire_on_resolve"@, ScalarView::Flag(on_resolve)),
        ],
        None => Seq::empty(),
    }
}

impl PayloadView {
    /// The members of the request body. A field that is absent has no
    /// member: nothing is sent as null.
    pub open spec fn members(self) -> Seq<(Seq<char>, ScalarView)> {
        resource_member(self.res) + check_member(self.chk) + expire_members(self.expire)
    }
}

impl SensuPayload {
    /// The members of the request body.
    pub fn members(&self) -> (list: Vec<(String, Scalar)>)
        ensures
            member_views(list@) == self@.members(),
    {
        let mut list: Vec<(String, Scalar)> = Vec::new();
        if let Some(r) = &self.res {
            list.push((String::from_str("resource"), Scalar::Text(r.clone())));
        }
        if let Some(c) = &self.chk {
            list.push((String::from_str("check"), Scalar::Text(c.clone())));
        }
        match self.expire {
            Some(Expire::NoExpiration { on_resolve }) => {
                list.push((String::from_str("expire_on_resolve"), Scalar::Flag(on_resolve)));
            },
            Some(Expire::After { seconds, on_resolve }) => {
                list.push((String::from_str("expire"), Scalar::Count(seconds)));
                list.push((String::from_str("expire_on_resolve"), Scalar::Flag(on_resolve)));
            },
            None => {},
        }
        list
    }
}

} // verus!
