//! The validators: each holds candidates against the live state of the
//! monitoring service, and trusts them where that state cannot be had.

use vstd::prelude::*;
use crate::err::{ErrorView, SensuError};
use crate::json::{elements, Json, JsonView};
use crate::notice;
use crate::reply::{listed, reply_view};
use crate::resource::{resource_views, ResourceView, SensuResource};
use crate::text::{contains_text, lemma_texts_push, one_text, texts};

verus! {

/// What is known of a client after asking the service for it.
#[derive(Clone, Copy, Debug, PartialEq, Eq, Structural)]
pub enum ClientStatus {
    /// The service answered for the client.
    Confirmed,
    /// The service said that there is no such client.
    DefinitelyAbsent,
    /// The exchange failed: nothing is known.
    Unknown,
}

impl ClientStatus {
    /// The status that a reply to "get single client" gives.
    pub open spec fn of(reply: Result<Option<JsonView>, ErrorView>) -> ClientStatus {
        match reply {
            Ok(_) => ClientStatus::Confirmed,
            Err(ErrorView::NotFound) => ClientStatus::DefinitelyAbsent,
            Err(ErrorView::Message(_)) => ClientStatus::Unknown,
        }
    }

    /// Whether the client is kept as a target: only a definitive absence
    /// drops it.
    pub open spec fn is_valid(self) -> bool {
        !(self is DefinitelyAbsent)
    }

    /// Reads the status from a reply to "get single client".
    pub fn from_reply(reply: &Result<Option<Json>, SensuError>) -> (status: ClientStatus)
        ensures
            status == ClientStatus::of(reply_view(*reply)),
    {
        match reply {
            Ok(_) => ClientStatus::Confirmed,
            Err(SensuError::NotFound) => ClientStatus::DefinitelyAbsent,
            Err(SensuError::Message(_)) => ClientStatus::Unknown,
        }
    }

    /// Whether the client is kept as a target.
    pub fn valid(&self) -> (b: bool)
        ensures
            b == self.is_valid(),
    {
        match self {
            ClientStatus::DefinitelyAbsent => false,
            _ => true,
        }
    }
}

/// Whether a client is kept after the reply to "get single client": always,
/// but for the definitive "not found".
pub fn validate_client(reply: &Result<Option<Json>, SensuError>) -> (valid: bool)
    ensures
        valid == !(reply_view(*reply) matches Err(ErrorView::NotFound)),
        valid == ClientStatus::of(reply_view(*reply)).is_valid(),
{
    ClientStatus::from_reply(reply).valid()
}

/// The name of the check that one entry of the results list reports.
pub open spec fn check_name_of(entry: JsonView) -> Option<Seq<char>> {
    match entry.get("check"@) {
        Some(check) => match check.get("name"@) {
            Some(name) => name.as_str(),
            None => None,
        },
        None => None,
    }
}

/// The names of the checks that the results list reports, in order.
pub open spec fn check_names(results: Seq<JsonView>) -> Seq<Seq<char>>
    decreases results.len(),
{
    if results.len() == 0 {
        Seq::empty()
    } else {
        match check_name_of(results.last()) {
            Some(name) => check_names(results.drop_last()).push(name),
            None => check_names(results.drop_last()),
        }
    }
}

/// The texts of the strings among `items`, in order.
pub open spec fn strings_of(items: Seq<JsonView>) -> Seq<Seq<char>>
    decreases items.len(),
{
    if items.len() == 0 {
        Seq::empty()
    } else {
        match items.last().as_str() {
            Some(s) => strings_of(items.drop_last()).push(s),
            None => strings_of(items.drop_last()),
        }
    }
}

/// The subscriptions that one entry of the clients list holds.
pub open spec fn subscriptions_of(client: JsonView) -> Seq<Seq<char>> {
    match client.get("subscriptions"@) {
        Some(JsonView::Array(items)) => strings_of(items),
        _ => Seq::empty(),
    }
}

/// The subscriptions that the clients of the list hold, client by client.
pub open spec fn all_subscriptions(clients: Seq<JsonView>) -> Seq<Seq<char>>
    decreases clients.len(),
{
    if clients.len() == 0 {
        Seq::empty()
    } else {
        all_subscriptions(clients.drop_last()) + subscriptions_of(clients.last())
    }
}

/// The test "is among `known`".
pub open spec fn is_known(known: Seq<Seq<char>>) -> spec_fn(Seq<char>) -> bool {
    |name: Seq<char>| known.contains(name)
}

/// The test "is not among `known`".
pub open spec fn is_unknown(known: Seq<Seq<char>>) -> spec_fn(Seq<char>) -> bool {
    |name: Seq<char>| !known.contains(name)
}

/// The test "its name is among `known`".
pub open spec fn is_known_resource(known: Seq<Seq<char>>) -> spec_fn(ResourceView) -> bool {
    |r: ResourceView| known.contains(r.name())
}

/// The test "its name is not among `known`".
pub open spec fn is_unknown_resource(known: Seq<Seq<char>>) -> spec_fn(ResourceView) -> bool {
    |r: ResourceView| !known.contains(r.name())
}

/// The notice for each check of `dropped`.
pub open spec fn check_notices(dropped: Seq<Seq<char>>) -> Seq<Seq<char>> {
    Seq::new(dropped.len(), |i: int| notice::check_filtered_text(dropped[i]))
}

/// The notice for each resource of `dropped`.
pub open spec fn subscription_notices(dropped: Seq<ResourceView>) -> Seq<Seq<char>> {
    Seq::new(dropped.len(), |i: int| notice::subscription_filtered_text(dropped[i].text()))
}

/// The notice for a validator whose fetch failed: the failure's own text
/// where it has one, else `fallback`.
pub open spec fn unchecked_notice(reply: Result<Option<JsonView>, ErrorView>, fallback: Seq<char>) -> Seq<
    char,
> {
    match reply {
        Err(ErrorView::Message(m)) => m,
        _ => fallback,
    }
}

/// The checks that pass validation against the reply to "check results".
pub open spec fn valid_checks(checks: Seq<Seq<char>>, reply: Result<Option<JsonView>, ErrorView>) -> Seq<
    Seq<char>,
> {
    match listed(reply) {
        Some(results) => checks.filter(is_known(check_names(results))),
        None => checks,
    }
}

/// The notices that validating `checks` emits.
pub open spec fn valid_checks_notices(
    checks: Seq<Seq<char>>,
    reply: Result<Option<JsonView>, ErrorView>,
) -> Seq<Seq<char>> {
    match listed(reply) {
        Some(results) => check_notices(checks.filter(is_unknown(check_names(results)))),
        None => seq![unchecked_notice(reply, notice::checks_unchecked_text())],
    }
}

/// The resources that pass validation against the reply to "list clients".
pub open spec fn valid_subscriptions(
    subscriptions: Seq<ResourceView>,
    reply: Result<Option<JsonView>, ErrorView>,
) -> Seq<ResourceView> {
    match listed(reply) {
        Some(clients) => subscriptions.filter(is_known_resource(all_subscriptions(clients))),
        None => subscriptions,
    }
}

/// The notices that validating `subscriptions` emits.
pub open spec fn valid_subscriptions_notices(
    subscriptions: Seq<ResourceView>,
    reply: Result<Option<JsonView>, ErrorView>,
) -> Seq<Seq<char>> {
    match listed(reply) {
        Some(clients) => subscription_notices(
            subscriptions.filter(is_unknown_resource(all_subscriptions(clients))),
        ),
        None => seq![unchecked_notice(reply, notice::subscriptions_unchecked_text())],
    }
}

/// What a validator hands back: the candidates that stay, and the notices
/// for the operator.
#[derive(Debug)]
pub struct Validated<T> {
    pub kept: Vec<T>,
    pub notices: Vec<String>,
}

fn collect_check_names(results: &Vec<Json>) -> (names: Vec<String>)
    ensures
        texts(names@) == check_names(elements(results@)),
{
    let ghost all = elements(results@);
    let mut names: Vec<String> = Vec::new();
    let mut i: usize = 0;
    while i < results.len()
        invariant
            i <= results.len(),
            all == elements(results@),
            texts(names@) == check_names(all.take(i as int)),
        decreases results.len() - i,
    {
        proof {
            assert(all.take(i + 1).drop_last() =~= all.take(i as int));
        }
        if let Some(check) = results[i].get("check") {
            if let Some(name) = check.get("name") {
                if let Some(s) = name.as_str() {
                    let owned = String::from_str(s);
                    proof {
                        lemma_texts_push(names@, owned);
                    }
                    names.push(owned);
                }
            }
        }
        i += 1;
    }
    assert(all.take(results@.len() as int) =~= all);
    names
}

fn collect_strings(items: &Vec<Json>, names: &mut Vec<String>)
    ensures
        texts(final(names)@) == texts(old(names)@) + strings_of(elements(items@)),
{
    let ghost all = elements(items@);
    let ghost before = texts(names@);
    let mut i: usize = 0;
    while i < items.len()
        invariant
            i <= items.len(),
            all == elements(items@),
            texts(names@) == before + strings_of(all.take(i as int)),
        decreases items.len() - i,
    {
        proof {
            assert(all.take(i + 1).drop_last() =~= all.take(i as int));
        }
        if let Some(s) = items[i].as_str() {
            let owned = String::from_str(s);
            proof {
                lemma_texts_push(names@, owned);
            }
            names.push(owned);
        }
        i += 1;
    }
    assert(all.take(items@.len() as int) =~= all);
}

fn collect_subscriptions(clients: &Vec<Json>) -> (names: Vec<String>)
    ensures
        texts(names@) == all_subscriptions(elements(clients@)),
{
    let ghost all = elements(clients@);
    let mut names: Vec<String> = Vec::new();
    let mut i: usize = 0;
    while i < clients.len()
        invariant
            i <= clients.len(),
            all == elements(clients@),
            texts(names@) == all_subscriptions(all.take(i as int)),
        decreases clients.len() - i,
    {
        proof {
            assert(all.take(i + 1).drop_last() =~= all.take(i as int));
        }
        if let Some(held) = clients[i].get("subscriptions") {
            if let Some(items) = held.as_array() {
                collect_strings(items, &mut names);
            }
        }
        i += 1;
    }
    assert(all.take(clients@.len() as int) =~= all);
    names
}

/// Validates check names against the reply to "check results". Where the
/// reply holds a list, the checks that it names stay, in their order, and
/// each of the others gets a notice. Where it holds none (a failure, an empty
/// body, a document that is no array) every check stays and one notice says
/// that nothing was validated.
pub fn validate_checks(checks: Vec<String>, reply: &Result<Option<Json>, SensuError>) -> (out:
    Validated<String>)
    ensures
        texts(out.kept@) == valid_checks(texts(checks@), reply_view(*reply)),
        texts(out.notices@) == valid_checks_notices(texts(checks@), reply_view(*reply)),
        listed(reply_view(*reply)) is None ==> texts(out.kept@) == texts(checks@),
{
    let ghost before = texts(checks@);
    let results = match reply {
        Ok(Some(Json::Array(results))) => {
            assert(reply_view(*reply)->Ok_0->Some_0->Array_0 =~= elements(results@));
            results
        },
        Err(SensuError::Message(m)) => {
            return Validated { kept: checks, notices: one_text(m.clone()) };
        },
        _ => {
            return Validated { kept: checks, notices: one_text(notice::checks_unchecked()) };
        },
    };
    let names = collect_check_names(results);
    let ghost known = texts(names@);
    let mut kept: Vec<String> = Vec::new();
    let mut notices: Vec<String> = Vec::new();
    let mut i: usize = 0;
    proof {
        reveal(Seq::filter);
    }
    while i < checks.len()
        invariant
            i <= checks.len(),
            before == texts(checks@),
            known == texts(names@),
            texts(kept@) == before.take(i as int).filter(is_known(known)),
            texts(notices@) == check_notices(before.take(i as int).filter(is_unknown(known))),
        decreases checks.len() - i,
    {
        proof {
            assert(before.take(i + 1) =~= before.take(i as int).push(checks@[i as int]@));
            before.take(i as int).lemma_filter_push(checks@[i as int]@, is_known(known));
            before.take(i as int).lemma_filter_push(checks@[i as int]@, is_unknown(known));
        }
        if contains_text(&names, &checks[i]) {
            let owned = checks[i].clone();
            proof {
                lemma_texts_push(kept@, owned);
            }
            kept.push(owned);
        } else {
            let line = notice::check_filtered(checks[i].as_str());
            proof {
                lemma_texts_push(notices@, line);
            }
            notices.push(line);
        }
        i += 1;
    }
    assert(before.take(checks@.len() as int) =~= before);
    Validated { kept, notices }
}

/// Validates resources against the reply to "list clients". Where the reply
/// holds a list, the resources whose name is a subscription of some client
/// stay, in their order, and each of the others gets a notice. Where it holds
/// none every resource stays and one notice says that nothing was validated.
pub fn validate_subscriptions(
    subscriptions: Vec<SensuResource>,
    reply: &Result<Option<Json>, SensuError>,
) -> (out: Validated<SensuResource>)
    ensures
        resource_views(out.kept@) == valid_subscriptions(
            resource_views(subscriptions@),
            reply_view(*reply),
        ),
        texts(out.notices@) == valid_subscriptions_notices(
            resource_views(subscriptions@),
            reply_view(*reply),
        ),
        listed(reply_view(*reply)) is None ==> resource_views(out.kept@) == resource_views(
            subscriptions@,
        ),
{
    let ghost before = resource_views(subscriptions@);
    let clients = match reply {
        Ok(Some(Json::Array(clients))) => {
            assert(reply_view(*reply)->Ok_0->Some_0->Array_0 =~= elements(clients@));
            clients
        },
        Err(SensuError::Message(m)) => {
            return Validated { kept: subscriptions, notices: one_text(m.clone()) };
        },
        _ => {
            return Validated {
                kept: subscriptions,
                notices: one_text(notice::subscriptions_unchecked()),
            };
        },
    };
    let names = collect_subscriptions(clients);
    let ghost known = texts(names@);
    let mut kept: Vec<SensuResource> = Vec::new();
    let mut notices: Vec<String> = Vec::new();
    let mut i: usize = 0;
    proof {
        reveal(Seq::filter);
    }
    while i < subscriptions.len()
        invariant
            i <= subscriptions.len(),
            before == resource_views(subscriptions@),
            known == texts(names@),
            resource_views(kept@) == before.take(i as int).filter(is_known_resource(known)),
            texts(notices@) == subscription_notices(
                before.take(i as int).filter(is_unknown_resource(known)),
            ),
        decreases subscriptions.len() - i,
    {
        let ghost current = subscriptions@[i as int]@;
        proof {
            assert(before.take(i + 1) =~= before.take(i as int).push(current));
            before.take(i as int).lemma_filter_push(current, is_known_resource(known));
            before.take(i as int).lemma_filter_push(current, is_unknown_resource(known));
        }
        if contains_text(&names, subscriptions[i].name()) {
            let owned = match &subscriptions[i] {
                SensuResource::Client(name) => SensuResource::Client(name.clone()),
                SensuResource::Subscription(name) => SensuResource::Subscription(name.clone()),
            };
            kept.push(owned);
        } else {
            let line = notice::subscription_filtered(subscriptions[i].text().as_str());
            proof {
                lemma_texts_push(notices@, line);
            }
            notices.push(line);
        }
        i += 1;
    }
    assert(before.take(subscriptions@.len() as int) =~= before);
    Validated { kept, notices }
}

} // verus!
