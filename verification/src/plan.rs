//! The batch of requests that a silence or clear command dispatches.
//!
//! Resources and checks that are both given are crossed: one request for each
//! pair, the checks running fastest. Where only one side is given there is one
//! request for each of its entries, the other field left out. Where neither is
//! given there is no batch at all.

use vstd::prelude::*;
use vstd::arithmetic::div_mod::lemma_fundamental_div_mod_converse;
use crate::expire::Expire;
use crate::notice;
use crate::payload::{PayloadView, SensuPayload};
use crate::text::texts;

verus! {

/// The command that a batch belongs to.
#[derive(Clone, Copy, Debug, PartialEq, Eq, Structural)]
pub enum Command {
    /// Create silences that end as the expiration says.
    Silence(Expire),
    /// Remove silences.
    Clear,
}

/// One request of a batch, with the line that announces it.
#[derive(Debug, PartialEq, Eq)]
pub struct Dispatch {
    pub notice: String,
    pub payload: SensuPayload,
}

/// The mathematical model of a [`Dispatch`].
pub struct DispatchView {
    pub notice: Seq<char>,
    pub payload: PayloadView,
}

impl View for Dispatch {
    type V = DispatchView;

    open spec fn view(&self) -> DispatchView {
        DispatchView { notice: self.notice@, payload: self.payload@ }
    }
}

/// The models of the requests in `v`, in order.
pub open spec fn dispatch_views(v: Seq<Dispatch>) -> Seq<DispatchView> {
    Seq::new(v.len(), |i: int| v[i]@)
}

impl Command {
    /// The expiration that the command's requests carry.
    pub open spec fn expire(self) -> Option<Expire> {
        match self {
            Command::Silence(expire) => Some(expire),
            Command::Clear => None,
        }
    }

    /// The request for one check on one resource.
    pub open spec fn pair(self, resource: Seq<char>, check: Seq<char>) -> DispatchView {
        DispatchView {
            notice: match self {
                Command::Silence(expire) => notice::silencing_pair_text(resource, check, expire),
                Command::Clear => notice::clearing_pair_text(resource, check),
            },
            payload: PayloadView { res: Some(resource), chk: Some(check), expire: self.expire() },
        }
    }

    /// The request for every check on one resource.
    pub open spec fn resource_only(self, resource: Seq<char>) -> DispatchView {
        DispatchView {
            notice: match self {
                Command::Silence(expire) => notice::silencing_resource_text(resource, expire),
                Command::Clear => notice::clearing_resource_text(resource),
            },
            payload: PayloadView { res: Some(resource), chk: None, expire: self.expire() },
        }
    }

    /// The request for one check on every resource.
    pub open spec fn check_only(self, check: Seq<char>) -> DispatchView {
        DispatchView {
            notice: match self {
                Command::Silence(expire) => notice::silencing_check_text(check, expire),
                Command::Clear => notice::clearing_check_text(check),
            },
            payload: PayloadView { res: None, chk: Some(check), expire: self.expire() },
        }
    }

    /// The cross product of `resources` and `checks`: the request at
    /// position `k` pairs resource `k / |checks|` with check `k % |checks|`.
    pub open spec fn cross(self, resources: Seq<Seq<char>>, checks: Seq<Seq<char>>) -> Seq<
        DispatchView,
    > {
        Seq::new(
            resources.len() * checks.len(),
            |k: int| self.pair(resources[k / (checks.len() as int)], checks[k % (checks.len() as int)]),
        )
    }

    /// The batch for the given targets; `None` where no target is given.
    pub open spec fn plan_view(
        self,
        resources: Option<Seq<Seq<char>>>,
        checks: Option<Seq<Seq<char>>>,
    ) -> Option<Seq<DispatchView>> {
        match (resources, checks) {
            (Some(r), Some(c)) => Some(self.cross(r, c)),
            (Some(r), None) => Some(Seq::new(r.len(), |k: int| self.resource_only(r[k]))),
            (None, Some(c)) => Some(Seq::new(c.len(), |k: int| self.check_only(c[k]))),
            (None, None) => None,
        }
    }

    fn expire_of(&self) -> (e: Option<Expire>)
        ensures
            e == self.expire(),
    {
        match self {
            Command::Silence(expire) => Some(*expire),
            Command::Clear => None,
        }
    }

    fn make_pair(&self, resource: &String, check: &String) -> (d: Dispatch)
        ensures
            d@ == self.pair(resource@, check@),
    {
        let line = match self {
            Command::Silence(expire) => notice::silencing_pair(
                resource.as_str(),
                check.as_str(),
                *expire,
            ),
            Command::Clear => notice::clearing_pair(resource.as_str(), check.as_str()),
        };
        Dispatch {
            notice: line,
            payload: SensuPayload {
                res: Some(resource.clone()),
                chk: Some(check.clone()),
                expire: self.expire_of(),
            },
        }
    }

    fn make_resource_only(&self, resource: &String) -> (d: Dispatch)
        ensures
            d@ == self.resource_only(resource@),
    {
        let line = match self {
            Command::Silence(expire) => notice::silencing_resource(resource.as_str(), *expire),
            Command::Clear => notice::clearing_resource(resource.as_str()),
        };
        Dispatch {
            notice: line,
            payload: SensuPayload { res: Some(resource.clone()), chk: None, expire: self.expire_of() },
        }
    }

    fn make_check_only(&self, check: &String) -> (d: Dispatch)
        ensures
            d@ == self.check_only(check@),
    {
        let line = match self {
            Command::Silence(expire) => notice::silencing_check(check.as_str(), *expire),
            Command::Clear => notice::clearing_check(check.as_str()),
        };
        Dispatch {
            notice: line,
            payload: SensuPayload { res: None, chk: Some(check.clone()), expire: self.expire_of() },
        }
    }

    fn make_cross(&self, resources: &Vec<String>, checks: &Vec<String>) -> (batch: Vec<Dispatch>)
        ensures
            dispatch_views(batch@) == self.cross(texts(resources@), texts(checks@)),
    {
        let ghost n: int = checks@.len() as int;
        let mut batch: Vec<Dispatch> = Vec::new();
        let mut i: usize = 0;
        while i < resources.len()
            invariant
                i <= resources.len(),
                n == checks@.len(),
                batch@.len() == i * n,
                forall|k: int|
                    0 <= k < batch@.len() ==> (#[trigger] batch@[k])@ == self.pair(
                        resources@[k / n]@,
                        checks@[k % n]@,
                    ),
            decreases resources.len() - i,
        {
            let mut j: usize = 0;
            while j < checks.len()
                invariant
                    i < resources.len(),
                    j <= checks.len(),
                    n == checks@.len(),
                    batch@.len() == i * n + j,
                    forall|k: int|
                        0 <= k < batch@.len() ==> (#[trigger] batch@[k])@ == self.pair(
                            resources@[k / n]@,
                            checks@[k % n]@,
                        ),
                decreases checks.len() - j,
            {
                proof {
                    lemma_fundamental_div_mod_converse(i * n + j, n, i as int, j as int);
                }
                batch.push(self.make_pair(&resources[i], &checks[j]));
                j += 1;
            }
            assert(i * n + n == (i + 1) * n) by (nonlinear_arith);
            i += 1;
        }
        proof {
            let r = texts(resources@);
            let c = texts(checks@);
            assert forall|k: int| 0 <= k < batch@.len() implies dispatch_views(batch@)[k]
                == self.cross(r, c)[k] by {
                assert(n > 0) by (nonlinear_arith)
                    requires
                        0 <= k < resources@.len() * n,
                        n >= 0,
                ;
                assert(0 <= k / n < resources@.len()) by (nonlinear_arith)
                    requires
                        0 <= k < resources@.len() * n,
                        n > 0,
                ;
                assert(0 <= k % n < n) by (nonlinear_arith)
                    requires
                        n > 0,
                ;
            }
        }
        batch
    }

    /// Builds the batch for the given targets; `None` where no target is
    /// given.
    pub fn plan(&self, resources: &Option<Vec<String>>, checks: &Option<Vec<String>>) -> (batch:
        Option<Vec<Dispatch>>)
        ensures
            match batch {
                Some(b) => Some(dispatch_views(b@)),
                None => None,
            } == self.plan_view(
                match resources {
                    Some(r) => Some(texts(r@)),
                    None => None,
                },
                match checks {
                    Some(c) => Some(texts(c@)),
                    None => None,
                },
            ),
    {
        match (resources, checks) {
            (Some(r), Some(c)) => Some(self.make_cross(r, c)),
            (Some(r), None) => {
                let mut batch: Vec<Dispatch> = Vec::new();
                let mut i: usize = 0;
                while i < r.len()
                    invariant
                        i <= r.len(),
                        batch@.len() == i,
                        forall|k: int|
                            0 <= k < i ==> (#[trigger] batch@[k])@ == self.resource_only(r@[k]@),
                    decreases r.len() - i,
                {
                    batch.push(self.make_resource_only(&r[i]));
                    i += 1;
                }
                Some(batch)
            },
            (None, Some(c)) => {
                let mut batch: Vec<Dispatch> = Vec::new();
                let mut i: usize = 0;
                while i < c.len()
                    invariant
                        i <= c.len(),
                        batch@.len() == i,
                        forall|k: int|
                            0 <= k < i ==> (#[trigger] batch@[k])@ == self.check_only(c@[k]@),
                    decreases c.len() - i,
                {
                    batch.push(self.make_check_only(&c[i]));
                    i += 1;
                }
                Some(batch)
            },
            (None, None) => None,
        }
    }
}

} // verus!
