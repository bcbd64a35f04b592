//! Resolution of a selector into validated resources.
//!
//! Resolution needs exchanges with the monitoring service, which the caller
//! performs. A [`Resolution`] is the state between two exchanges: it is
//! started with a selector, asks for one exchange at a time, and is resumed
//! with each reply until it hands out the resolved resources.
//!
//! - Instance ids are looked up in the node map, which is built from the
//!   clients list; a failure to get that list fails the resolution. An id
//!   without an entry is passed over with a warning. The client of an id
//!   with an entry is validated, and kept unless it is definitely absent.
//! - Subscription names are validated as a batch against the clients list.
//! - Client names are validated one by one.

use vstd::prelude::*;
use crate::ask::{Ask, AskView};
use crate::err::{ErrorView, SensuError};
use crate::json::{Json, JsonView};
use crate::nodes::{get_node_to_client_map, node_map_of, NodeClientMap};
use crate::notice;
use crate::resource::{resource_views, ResourceView, SensuResource};
use crate::resources::{ShushResourceType, ShushResources};
use crate::text::{lemma_texts_push, no_texts, texts};
use crate::reply::reply_view;
use crate::validate::{
    valid_subscriptions,
    valid_subscriptions_notices,
    validate_client,
    validate_subscriptions,
    ClientStatus,
};

verus! {

/// Where a walk over instance ids stops.
pub struct Seek {
    /// The position after the id that was found, or the number of ids.
    pub next: int,
    /// The client of the id that was found; `None` where the ids ran out.
    pub found: Option<Seq<char>>,
    /// The mapping that is left.
    pub map: Map<Seq<char>, Seq<char>>,
    /// One warning for each id that was passed over.
    pub warnings: Seq<Seq<char>>,
}

/// Walks `ids` from position `from` to the first id that `map` holds. That
/// id's entry leaves the mapping; each id before it has no entry and gets a
/// warning.
pub open spec fn seek_view(map: Map<Seq<char>, Seq<char>>, ids: Seq<Seq<char>>, from: int) -> Seek
    decreases ids.len() - from,
{
    if from < 0 || from >= ids.len() {
        Seek { next: ids.len() as int, found: None, map, warnings: Seq::empty() }
    } else if map.contains_key(ids[from]) {
        Seek {
            next: from + 1,
            found: Some(map[ids[from]]),
            map: map.remove(ids[from]),
            warnings: Seq::empty(),
        }
    } else {
        let rest = seek_view(map, ids, from + 1);
        Seek {
            next: rest.next,
            found: rest.found,
            map: rest.map,
            warnings: seq![notice::unregistered_text(ids[from])] + rest.warnings,
        }
    }
}

/// The state of a resolution that awaits a reply.
#[derive(Debug)]
pub enum Resolution {
    /// Instance ids: awaits the clients list, from which the node map is
    /// built.
    Mapping { ids: Vec<String> },
    /// Instance ids: awaits the verdict on the client `pending`; the ids from
    /// position `next` on are still to be looked up in `map`.
    Nodes {
        ids: Vec<String>,
        next: usize,
        map: NodeClientMap,
        pending: String,
        kept: Vec<SensuResource>,
    },
    /// Client names: awaits the verdict on the client `pending`; the names
    /// from position `next` on are still to be validated.
    Clients { names: Vec<String>, next: usize, pending: String, kept: Vec<SensuResource> },
    /// Subscription names: awaits the clients list that validates them.
    Subscriptions { names: Vec<String> },
}

/// The mathematical model of a [`Resolution`].
pub enum ResolutionView {
    Mapping { ids: Seq<Seq<char>> },
    Nodes {
        ids: Seq<Seq<char>>,
        next: int,
        map: Map<Seq<char>, Seq<char>>,
        pending: Seq<char>,
        kept: Seq<ResourceView>,
    },
    Clients { names: Seq<Seq<char>>, next: int, pending: Seq<char>, kept: Seq<ResourceView> },
    Subscriptions { names: Seq<Seq<char>> },
}

impl View for Resolution {
    type V = ResolutionView;

    open spec fn view(&self) -> ResolutionView {
        match self {
            Resolution::Mapping { ids } => ResolutionView::Mapping { ids: texts(ids@) },
            Resolution::Nodes { ids, next, map, pending, kept } => ResolutionView::Nodes {
                ids: texts(ids@),
                next: *next as int,
                map: map@,
                pending: pending@,
                kept: resource_views(kept@),
            },
            Resolution::Clients { names, next, pending, kept } => ResolutionView::Clients {
                names: texts(names@),
                next: *next as int,
                pending: pending@,
                kept: resource_views(kept@),
            },
            Resolution::Subscriptions { names } => ResolutionView::Subscriptions {
                names: texts(names@),
            },
        }
    }
}

/// What a step of a resolution comes to.
#[derive(Debug)]
pub enum Resolved {
    /// The exchange to perform next, and the state to resume with its reply.
    Ask(Resolution, Ask),
    /// The resolved resources.
    Done(Vec<SensuResource>),
    /// The resolution failed as a whole.
    Failed(SensuError),
}

/// The mathematical model of a [`Resolved`].
pub enum ResolvedView {
    Ask(ResolutionView, AskView),
    Done(Seq<ResourceView>),
    Failed(ErrorView),
}

impl View for Resolved {
    type V = ResolvedView;

    open spec fn view(&self) -> ResolvedView {
        match self {
            Resolved::Ask(state, ask) => ResolvedView::Ask(state@, ask@),
            Resolved::Done(resources) => ResolvedView::Done(resource_views(resources@)),
            Resolved::Failed(e) => ResolvedView::Failed(e@),
        }
    }
}

/// One step of a resolution: the notices for the operator, then the outcome.
#[derive(Debug)]
pub struct ResolveStep {
    pub notices: Vec<String>,
    pub outcome: Resolved,
}

/// The mathematical model of a [`ResolveStep`].
pub struct ResolveStepView {
    pub notices: Seq<Seq<char>>,
    pub outcome: ResolvedView,
}

impl View for ResolveStep {
    type V = ResolveStepView;

    open spec fn view(&self) -> ResolveStepView {
        ResolveStepView { notices: texts(self.notices@), outcome: self.outcome@ }
    }
}

/// Each name as a subscription resource.
pub open spec fn as_subscriptions(names: Seq<Seq<char>>) -> Seq<ResourceView> {
    Seq::new(names.len(), |i: int| ResourceView::Subscription(names[i]))
}

/// What is kept after the verdict on the client `pending`.
pub open spec fn keep_if_valid(
    kept: Seq<ResourceView>,
    pending: Seq<char>,
    reply: Result<Option<JsonView>, ErrorView>,
) -> Seq<ResourceView> {
    if ClientStatus::of(reply).is_valid() {
        kept.push(ResourceView::Client(pending))
    } else {
        kept
    }
}

/// Goes on with the instance ids from position `from`: asks for the verdict
/// on the next client that an id maps to, or is done where the ids ran out.
pub open spec fn continue_nodes(
    ids: Seq<Seq<char>>,
    from: int,
    map: Map<Seq<char>, Seq<char>>,
    kept: Seq<ResourceView>,
) -> ResolveStepView {
    let s = seek_view(map, ids, from);
    ResolveStepView {
        notices: s.warnings,
        outcome: match s.found {
            Some(client) => ResolvedView::Ask(
                ResolutionView::Nodes { ids, next: s.next, map: s.map, pending: client, kept },
                AskView::client(client),
            ),
            None => ResolvedView::Done(kept),
        },
    }
}

/// Goes on with the client names from position `from`.
pub open spec fn continue_clients(names: Seq<Seq<char>>, from: int, kept: Seq<ResourceView>) -> ResolveStepView {
    ResolveStepView {
        notices: Seq::empty(),
        outcome: if 0 <= from < names.len() {
            ResolvedView::Ask(
                ResolutionView::Clients { names, next: from + 1, pending: names[from], kept },
                AskView::client(names[from]),
            )
        } else {
            ResolvedView::Done(kept)
        },
    }
}

impl ResolutionView {
    /// The first step of the resolution of a selector. Instance ids ask for
    /// the clients list, from which the node map is built; subscription
    /// names ask for the clients list that validates them; client names are
    /// validated one by one, from the first.
    pub open spec fn start(res_type: ShushResourceType, names: Seq<Seq<char>>) -> ResolveStepView {
        match res_type {
            ShushResourceType::Node => ResolveStepView {
                notices: Seq::empty(),
                outcome: ResolvedView::Ask(ResolutionView::Mapping { ids: names }, AskView::clients()),
            },
            ShushResourceType::Sub => ResolveStepView {
                notices: Seq::empty(),
                outcome: ResolvedView::Ask(
                    ResolutionView::Subscriptions { names },
                    AskView::clients(),
                ),
            },
            ShushResourceType::Client => continue_clients(names, 0, Seq::empty()),
        }
    }

    /// The step that the reply to the pending exchange leads to.
    pub open spec fn step(self, reply: Result<Option<JsonView>, ErrorView>) -> ResolveStepView {
        match self {
            ResolutionView::Mapping { ids } => match reply {
                Err(e) => ResolveStepView {
                    notices: Seq::empty(),
                    outcome: ResolvedView::Failed(e),
                },
                Ok(body) => continue_nodes(ids, 0, node_map_of(body), Seq::empty()),
            },
            ResolutionView::Nodes { ids, next, map, pending, kept } => continue_nodes(
                ids,
                next,
                map,
                keep_if_valid(kept, pending, reply),
            ),
            ResolutionView::Clients { names, next, pending, kept } => continue_clients(
                names,
                next,
                keep_if_valid(kept, pending, reply),
            ),
            ResolutionView::Subscriptions { names } => ResolveStepView {
                notices: valid_subscriptions_notices(as_subscriptions(names), reply),
                outcome: ResolvedView::Done(valid_subscriptions(as_subscriptions(names), reply)),
            },
        }
    }
}

/// Walks `ids` from position `from` to the first id that `map` holds, and
/// removes that id's entry.
pub fn seek(map: &mut NodeClientMap, ids: &Vec<String>, from: usize) -> (found: (
    usize,
    Option<String>,
    Vec<String>,
))
    ensures
        ({
            let s = seek_view(old(map)@, texts(ids@), from as int);
            &&& found.0 == s.next
            &&& match found.1 {
                Some(client) => s.found == Some(client@),
                None => s.found is None,
            }
            &&& final(map)@ == s.map
            &&& texts(found.2@) == s.warnings
        }),
{
    let ghost all = texts(ids@);
    let ghost start = map@;
    let ghost goal = seek_view(start, all, from as int);
    let mut warnings: Vec<String> = Vec::new();
    let mut i: usize = from;
    while i < ids.len()
        invariant
            from <= i,
            all == texts(ids@),
            map@ == start,
            start == old(map)@,
            goal == seek_view(start, all, from as int),
            seek_view(start, all, i as int).next == goal.next,
            seek_view(start, all, i as int).found == goal.found,
            seek_view(start, all, i as int).map == goal.map,
            texts(warnings@) + seek_view(start, all, i as int).warnings == goal.warnings,
        decreases ids.len() - i,
    {
        match map.remove(&ids[i]) {
            Some(client) => {
                return (i + 1, Some(client), warnings);
            },
            None => {
                let line = notice::unregistered(ids[i].as_str());
                proof {
                    lemma_texts_push(warnings@, line);
                }
                warnings.push(line);
            },
        }
        i += 1;
    }
    (ids.len(), None, warnings)
}

fn go_on_with_nodes(ids: Vec<String>, from: usize, map: NodeClientMap, kept: Vec<SensuResource>) -> (step:
    ResolveStep)
    ensures
        step@ == continue_nodes(texts(ids@), from as int, map@, resource_views(kept@)),
{
    let mut map = map;
    let (next, found, warnings) = seek(&mut map, &ids, from);
    match found {
        Some(client) => {
            let ask = Ask::client(&client);
            ResolveStep {
                notices: warnings,
                outcome: Resolved::Ask(
                    Resolution::Nodes { ids, next, map, pending: client, kept },
                    ask,
                ),
            }
        },
        None => ResolveStep { notices: warnings, outcome: Resolved::Done(kept) },
    }
}

fn no_resources() -> (kept: Vec<SensuResource>)
    ensures
        resource_views(kept@) == Seq::<ResourceView>::empty(),
{
    let kept: Vec<SensuResource> = Vec::new();
    kept
}

fn go_on_with_clients(names: Vec<String>, from: usize, kept: Vec<SensuResource>) -> (step:
    ResolveStep)
    ensures
        step@ == continue_clients(texts(names@), from as int, resource_views(kept@)),
{
    let notices = no_texts();
    if from < names.len() {
        let pending = names[from].clone();
        let ask = Ask::client(&pending);
        ResolveStep {
            notices,
            outcome: Resolved::Ask(
                Resolution::Clients { names, next: from + 1, pending, kept },
                ask,
            ),
        }
    } else {
        ResolveStep { notices, outcome: Resolved::Done(kept) }
    }
}

fn keep_client(kept: Vec<SensuResource>, pending: String, reply: &Result<Option<Json>, SensuError>) -> (out:
    Vec<SensuResource>)
    ensures
        resource_views(out@) == keep_if_valid(resource_views(kept@), pending@, reply_view(*reply)),
{
    let mut kept = kept;
    if validate_client(reply) {
        let resource = SensuResource::Client(pending);
        kept.push(resource);
    }
    kept
}

fn subscriptions_from(names: &Vec<String>) -> (subs: Vec<SensuResource>)
    ensures
        resource_views(subs@) == as_subscriptions(texts(names@)),
{
    let mut subs: Vec<SensuResource> = Vec::new();
    let mut i: usize = 0;
    while i < names.len()
        invariant
            i <= names.len(),
            subs@.len() == i,
            forall|k: int| 0 <= k < i ==> (#[trigger] subs@[k])@ == ResourceView::Subscription(names@[k]@),
        decreases names.len() - i,
    {
        subs.push(SensuResource::Subscription(names[i].clone()));
        i += 1;
    }
    subs
}

impl Resolution {
    /// Starts the resolution of `selector`.
    pub fn start(selector: ShushResources) -> (step: ResolveStep)
        ensures
            step@ == ResolutionView::start(selector.res_type, texts(selector.resources@)),
    {
        match selector.res_type {
            ShushResourceType::Node => ResolveStep {
                notices: no_texts(),
                outcome: Resolved::Ask(
                    Resolution::Mapping { ids: selector.resources },
                    Ask::clients(),
                ),
            },
            ShushResourceType::Sub => ResolveStep {
                notices: no_texts(),
                outcome: Resolved::Ask(
                    Resolution::Subscriptions { names: selector.resources },
                    Ask::clients(),
                ),
            },
            ShushResourceType::Client => go_on_with_clients(selector.resources, 0, no_resources()),
        }
    }

    /// Resumes the resolution with the reply to the exchange it asked for.
    pub fn resume(self, reply: Result<Option<Json>, SensuError>) -> (step: ResolveStep)
        ensures
            step@ == self@.step(reply_view(reply)),
    {
        match self {
            Resolution::Mapping { ids } => match get_node_to_client_map(&reply) {
                Ok(map) => go_on_with_nodes(ids, 0, map, no_resources()),
                Err(e) => ResolveStep { notices: no_texts(), outcome: Resolved::Failed(e) },
            },
            Resolution::Nodes { ids, next, map, pending, kept } => {
                let kept = keep_client(kept, pending, &reply);
                go_on_with_nodes(ids, next, map, kept)
            },
            Resolution::Clients { names, next, pending, kept } => {
                let kept = keep_client(kept, pending, &reply);
                go_on_with_clients(names, next, kept)
            },
            Resolution::Subscriptions { names } => {
                let checked = validate_subscriptions(subscriptions_from(&names), &reply);
                ResolveStep { notices: checked.notices, outcome: Resolved::Done(checked.kept) }
            },
        }
    }
}

} // verus!
