//! What holds of whole runs: a run is a first step and the replies that the
//! caller hands back, one for each exchange that is asked for.

use vstd::prelude::*;
use crate::ask::{AskView, Method};
use crate::engine::{resource_texts, ActionView, StepView, EXIT_FAILURE};
use crate::err::ErrorView;
use crate::expire::Expire;
use crate::json::JsonView;
use crate::listing::{listing_notices, record_of, shown};
use crate::nodes::node_map_of;
use crate::notice;
use crate::pattern::Pattern;
use crate::plan::{Command, DispatchView};
use crate::resolve::{
    continue_nodes,
    keep_if_valid,
    seek_view,
    ResolutionView,
    ResolveStepView,
    ResolvedView,
};
use crate::resource::ResourceView;
use crate::resources::ShushResourceType;
use crate::reply::listed;
use crate::validate::{
    valid_checks,
    valid_checks_notices,
    valid_subscriptions,
    valid_subscriptions_notices,
    ClientStatus,
};

verus! {

/// The outcome that a resolution reaches from `step` when its exchanges are
/// answered by `replies`, in order: the first outcome that asks for nothing,
/// or the exchange that is left unanswered.
pub open spec fn resolution_end(
    step: ResolveStepView,
    replies: Seq<Result<Option<JsonView>, ErrorView>>,
) -> ResolvedView
    decreases replies.len(),
{
    match step.outcome {
        ResolvedView::Ask(state, _) => if replies.len() > 0 {
            resolution_end(state.step(replies[0]), replies.drop_first())
        } else {
            step.outcome
        },
        _ => step.outcome,
    }
}

/// The exchanges that a command asks for from `step` on when they are
/// answered by `replies`, in order.
pub open spec fn asks_of(step: StepView, replies: Seq<Result<Option<JsonView>, ErrorView>>) -> Seq<
    AskView,
>
    decreases replies.len(),
{
    match step.action {
        ActionView::Ask(run, ask) => if replies.len() > 0 {
            seq![ask] + asks_of(run.step(replies[0]), replies.drop_first())
        } else {
            seq![ask]
        },
        _ => Seq::empty(),
    }
}

/// The action that a command reaches from `step` when its exchanges are
/// answered by `replies`, in order.
pub open spec fn end_of(step: StepView, replies: Seq<Result<Option<JsonView>, ErrorView>>) -> ActionView
    decreases replies.len(),
{
    match step.action {
        ActionView::Ask(run, _) => if replies.len() > 0 {
            end_of(run.step(replies[0]), replies.drop_first())
        } else {
            step.action
        },
        _ => step.action,
    }
}

/// Whether `client` is what `map` holds for one of `ids`.
pub open spec fn registered_among(
    map: Map<Seq<char>, Seq<char>>,
    ids: Seq<Seq<char>>,
    client: Seq<char>,
) -> bool {
    exists|i: int| 0 <= i < ids.len() && map.contains_key(#[trigger] ids[i]) && map[ids[i]] == client
}

/// Whether each of `resources` is the client that `map` holds for one of
/// `ids`.
pub open spec fn all_registered(
    map: Map<Seq<char>, Seq<char>>,
    ids: Seq<Seq<char>>,
    resources: Seq<ResourceView>,
) -> bool {
    forall|k: int|
        0 <= k < resources.len() ==> ((#[trigger] resources[k]) matches ResourceView::Client(c)
            && registered_among(map, ids, c))
}

/// Whether `part` holds nothing but entries of `whole`.
pub open spec fn within(part: Map<Seq<char>, Seq<char>>, whole: Map<Seq<char>, Seq<char>>) -> bool {
    forall|id: Seq<char>| #[trigger]
        part.contains_key(id) ==> whole.contains_key(id) && whole[id] == part[id]
}

/// A walk over instance ids passes over exactly the ids without an entry,
/// with one warning each, and stops at the first id that has one.
pub proof fn seek_passes_over_unregistered(
    map: Map<Seq<char>, Seq<char>>,
    ids: Seq<Seq<char>>,
    from: int,
)
    requires
        0 <= from <= ids.len(),
    ensures
        ({
            let s = seek_view(map, ids, from);
            &&& from <= s.next <= ids.len()
            &&& within(s.map, map)
            &&& match s.found {
                Some(client) => {
                    &&& s.next > from
                    &&& map.contains_key(ids[s.next - 1])
                    &&& client == map[ids[s.next - 1]]
                    &&& s.map == map.remove(ids[s.next - 1])
                    &&& s.warnings.len() == s.next - 1 - from
                    &&& forall|k: int| from <= k < s.next - 1 ==> !map.contains_key(#[trigger] ids[k])
                },
                None => {
                    &&& s.next == ids.len()
                    &&& s.map == map
                    &&& s.warnings.len() == ids.len() - from
                    &&& forall|k: int| from <= k < ids.len() ==> !map.contains_key(#[trigger] ids[k])
                },
            }
        }),
    decreases ids.len() - from,
{
    if from < ids.len() && !map.contains_key(ids[from]) {
        seek_passes_over_unregistered(map, ids, from + 1);
    }
}

/// The warnings for the ids from position `from` on, one for each.
pub open spec fn warnings_from(ids: Seq<Seq<char>>, from: int) -> Seq<Seq<char>> {
    Seq::new((ids.len() - from) as nat, |k: int| notice::unregistered_text(ids[from + k]))
}

/// Where none of the ids that are left has an entry, the resolution is done
/// at once: each id gets its warning, nothing is asked for, and nothing is
/// added to what was kept.
pub proof fn unregistered_ids_only_warn(
    map: Map<Seq<char>, Seq<char>>,
    ids: Seq<Seq<char>>,
    from: int,
    kept: Seq<ResourceView>,
)
    requires
        0 <= from <= ids.len(),
        forall|k: int| from <= k < ids.len() ==> !map.contains_key(#[trigger] ids[k]),
    ensures
        continue_nodes(ids, from, map, kept) == (ResolveStepView {
            notices: warnings_from(ids, from),
            outcome: ResolvedView::Done(kept),
        }),
    decreases ids.len() - from,
{
    if from < ids.len() {
        unregistered_ids_only_warn(map, ids, from + 1, kept);
        assert(seek_view(map, ids, from).warnings =~= warnings_from(ids, from));
    } else {
        assert(seek_view(map, ids, from).warnings =~= warnings_from(ids, from));
    }
}

proof fn lemma_nodes_run(
    whole: Map<Seq<char>, Seq<char>>,
    ids: Seq<Seq<char>>,
    from: int,
    map: Map<Seq<char>, Seq<char>>,
    kept: Seq<ResourceView>,
    replies: Seq<Result<Option<JsonView>, ErrorView>>,
)
    requires
        0 <= from <= ids.len(),
        within(map, whole),
        all_registered(whole, ids, kept),
    ensures
        ({
            let end = resolution_end(continue_nodes(ids, from, map, kept), replies);
            &&& !(end is Failed)
            &&& end matches ResolvedView::Done(resources) ==> all_registered(whole, ids, resources)
        }),
    decreases replies.len(),
{
    let s = seek_view(map, ids, from);
    seek_passes_over_unregistered(map, ids, from);
    match s.found {
        Some(client) => {
            if replies.len() > 0 {
                let after = keep_if_valid(kept, client, replies[0]);
                assert(registered_among(whole, ids, client)) by {
                }
                lemma_nodes_run(whole, ids, s.next, s.map, after, replies.drop_first());
            }
        },
        None => {},
    }
}

/// Resolving instance ids never fails once the clients list is had, and
/// every resource that it hands out is the client that the list registers
/// for one of the ids: an id without a registered client adds nothing.
pub proof fn node_resolution_keeps_registered_only(
    body: Option<JsonView>,
    ids: Seq<Seq<char>>,
    replies: Seq<Result<Option<JsonView>, ErrorView>>,
)
    ensures
        ({
            let begun = (ResolutionView::Mapping { ids }).step(Ok(body));
            let end = resolution_end(begun, replies);
            &&& !(end is Failed)
            &&& end matches ResolvedView::Done(resources) ==> all_registered(
                node_map_of(body),
                ids,
                resources,
            )
        }),
{
    lemma_nodes_run(node_map_of(body), ids, 0, node_map_of(body), Seq::empty(), replies);
}

/// A validator whose fetch of the live state failed keeps every candidate,
/// in the order given: the checks of a silence, and the subscriptions of a
/// selector.
pub proof fn failed_fetch_keeps_candidates(
    checks: Seq<Seq<char>>,
    subscriptions: Seq<ResourceView>,
    reply: Result<Option<JsonView>, ErrorView>,
)
    requires
        listed(reply) is None,
    ensures
        valid_checks(checks, reply) == checks,
        valid_subscriptions(subscriptions, reply) == subscriptions,
        valid_checks_notices(checks, reply).len() == 1,
        valid_subscriptions_notices(subscriptions, reply).len() == 1,
{
}

/// A client is kept after every failure but the definitive "not found",
/// and after every success.
pub proof fn only_not_found_drops_a_client(reply: Result<Option<JsonView>, ErrorView>)
    ensures
        ClientStatus::of(reply).is_valid() <==> !(reply matches Err(ErrorView::NotFound)),
{
}

/// The batch for resources and checks that are both given has one request
/// for each pair.
pub proof fn cross_product_has_every_pair(
    command: Command,
    resources: Seq<Seq<char>>,
    checks: Seq<Seq<char>>,
)
    ensures
        command.plan_view(Some(resources), Some(checks)) == Some(command.cross(resources, checks)),
        command.cross(resources, checks).len() == resources.len() * checks.len(),
        forall|i: int, j: int|
            0 <= i < resources.len() && 0 <= j < checks.len() ==> 0 <= i * checks.len() + j
                < resources.len() * checks.len() && #[trigger] command.cross(
                resources,
                checks,
            )[i * checks.len() + j] == command.pair(resources[i], checks[j]),
{
    let n: int = checks.len() as int;
    assert forall|i: int, j: int| 0 <= i < resources.len() && 0 <= j < checks.len() implies 0 <= i
        * checks.len() + j < resources.len() * checks.len() && #[trigger] command.cross(
        resources,
        checks,
    )[i * checks.len() + j] == command.pair(resources[i], checks[j]) by {
        let k: int = i * n + j;
        assert(0 <= k < resources.len() * n) by (nonlinear_arith)
            requires
                0 <= i < resources.len(),
                0 <= j < n,
                k == i * n + j,
        ;
        vstd::arithmetic::div_mod::lemma_fundamental_div_mod_converse(k, n, i, j);
    }
}

/// The requests of `batch` from position `from` on.
pub open spec fn posts_from(command: Command, batch: Seq<DispatchView>, from: int) -> Seq<AskView> {
    Seq::new((batch.len() - from) as nat, |k: int| command.post(batch[from + k]))
}

/// A batch whose requests all succeed is dispatched whole: one request for
/// each entry, in the batch's order, and then the command is done.
pub proof fn batch_is_dispatched_in_order(
    command: Command,
    batch: Seq<DispatchView>,
    from: int,
    replies: Seq<Result<Option<JsonView>, ErrorView>>,
)
    requires
        0 <= from <= batch.len(),
        replies.len() == batch.len() - from,
        forall|k: int| 0 <= k < replies.len() ==> (#[trigger] replies[k]) is Ok,
    ensures
        asks_of(command.dispatch_from(batch, from), replies) == posts_from(command, batch, from),
        end_of(command.dispatch_from(batch, from), replies) == ActionView::Done,
    decreases replies.len(),
{
    if from < batch.len() {
        let rest = replies.drop_first();
        assert forall|k: int| 0 <= k < rest.len() implies (#[trigger] rest[k]) is Ok by {
        }
        batch_is_dispatched_in_order(command, batch, from + 1, rest);
    } else {
    }
}

/// The first request that fails ends the batch: nothing after it is
/// dispatched, and the process ends with a failure status.
pub proof fn batch_stops_at_first_failure(
    command: Command,
    batch: Seq<DispatchView>,
    from: int,
    replies: Seq<Result<Option<JsonView>, ErrorView>>,
    failed: int,
)
    requires
        0 <= from,
        0 <= failed < replies.len(),
        from + failed < batch.len(),
        replies[failed] is Err,
        forall|k: int| 0 <= k < failed ==> (#[trigger] replies[k]) is Ok,
    ensures
        asks_of(command.dispatch_from(batch, from), replies) == posts_from(
            command,
            batch,
            from,
        ).take(failed + 1),
        end_of(command.dispatch_from(batch, from), replies) == ActionView::Exit(EXIT_FAILURE),
    decreases failed,
{
    let rest = replies.drop_first();
    reveal_with_fuel(asks_of, 2);
    reveal_with_fuel(end_of, 2);
    if failed > 0 {
        assert forall|k: int| 0 <= k < failed - 1 implies (#[trigger] rest[k]) is Ok by {
        }
        batch_stops_at_first_failure(command, batch, from + 1, rest, failed - 1);
    }
}

/// Resources and checks that are both given are crossed: where every
/// request succeeds, exactly `|resources| * |checks|` requests are
/// dispatched, the request for resource `i` and check `j` at position
/// `i * |checks| + j`.
pub proof fn cross_product_is_dispatched(
    command: Command,
    resources: Seq<Seq<char>>,
    checks: Seq<Seq<char>>,
    replies: Seq<Result<Option<JsonView>, ErrorView>>,
)
    requires
        replies.len() == resources.len() * checks.len(),
        forall|k: int| 0 <= k < replies.len() ==> (#[trigger] replies[k]) is Ok,
    ensures
        ({
            let asks = asks_of(command.after_checks(Some(resources), Some(checks)), replies);
            &&& asks.len() == resources.len() * checks.len()
            &&& forall|i: int, j: int|
                0 <= i < resources.len() && 0 <= j < checks.len() ==> 0 <= i * checks.len() + j
                    < asks.len() && #[trigger] asks[i * checks.len() + j] == command.post(
                    command.pair(resources[i], checks[j]),
                )
        }),
        end_of(command.after_checks(Some(resources), Some(checks)), replies) == ActionView::Done,
{
    let batch = command.cross(resources, checks);
    cross_product_has_every_pair(command, resources, checks);
    batch_is_dispatched_in_order(command, batch, 0, replies);
    let asks = asks_of(command.after_checks(Some(resources), Some(checks)), replies);
    assert forall|i: int, j: int| 0 <= i < resources.len() && 0 <= j < checks.len() implies 0 <= i
        * checks.len() + j < asks.len() && #[trigger] asks[i * checks.len() + j] == command.post(
        command.pair(resources[i], checks[j]),
    ) by {
        assert(batch[i * checks.len() + j] == command.pair(resources[i], checks[j]));
    }
}

/// The POST requests among the exchanges that a command asks for from
/// `step` on when they are answered by `replies`, in order.
pub open spec fn posts_of(step: StepView, replies: Seq<Result<Option<JsonView>, ErrorView>>) -> Seq<
    AskView,
>
    decreases replies.len(),
{
    match step.action {
        ActionView::Ask(run, ask) => {
            let rest = if replies.len() > 0 {
                posts_of(run.step(replies[0]), replies.drop_first())
            } else {
                Seq::empty()
            };
            if ask.method == Method::Post {
                seq![ask] + rest
            } else {
                rest
            }
        },
        _ => Seq::empty(),
    }
}

/// The number of replies that a resolution takes from `step` on, until it
/// asks for nothing more or the replies run out.
pub open spec fn resolution_takes(
    step: ResolveStepView,
    replies: Seq<Result<Option<JsonView>, ErrorView>>,
) -> int
    decreases replies.len(),
{
    match step.outcome {
        ResolvedView::Ask(state, _) => if replies.len() > 0 {
            1 + resolution_takes(state.step(replies[0]), replies.drop_first())
        } else {
            0
        },
        _ => 0,
    }
}

/// Whether a step of a resolution asks for nothing but a GET.
pub open spec fn asks_for_get(step: ResolveStepView) -> bool {
    step.outcome matches ResolvedView::Ask(_, ask) ==> ask.method == Method::Get
}

/// A resolution starts with nothing but a GET.
pub proof fn resolution_starts_with_a_get(res_type: ShushResourceType, names: Seq<Seq<char>>)
    ensures
        asks_for_get(ResolutionView::start(res_type, names)),
{
}

/// A resolution goes on with nothing but a GET, whatever the reply.
pub proof fn resolution_goes_on_with_a_get(
    state: ResolutionView,
    reply: Result<Option<JsonView>, ErrorView>,
)
    ensures
        asks_for_get(state.step(reply)),
{
}

proof fn lemma_batch_posts(
    command: Command,
    batch: Seq<DispatchView>,
    from: int,
    replies: Seq<Result<Option<JsonView>, ErrorView>>,
)
    requires
        0 <= from <= batch.len(),
        replies.len() == batch.len() - from,
        forall|k: int| 0 <= k < replies.len() ==> (#[trigger] replies[k]) is Ok,
    ensures
        posts_of(command.dispatch_from(batch, from), replies) == posts_from(command, batch, from),
    decreases replies.len(),
{
    if from < batch.len() {
        let rest = replies.drop_first();
        assert(replies[0] is Ok);
        assert forall|k: int| 0 <= k < rest.len() implies (#[trigger] rest[k]) is Ok by {
            assert(rest[k] == replies[k + 1]);
        }
        lemma_batch_posts(command, batch, from + 1, rest);
    }
    assert(posts_of(command.dispatch_from(batch, from), replies) =~= posts_from(
        command,
        batch,
        from,
    ));
}

proof fn lemma_resolving(
    command: Command,
    checks: Option<Seq<Seq<char>>>,
    resolved: ResolveStepView,
    replies: Seq<Result<Option<JsonView>, ErrorView>>,
)
    requires
        asks_for_get(resolved),
        resolution_end(resolved, replies) is Done,
    ensures
        ({
            let taken = resolution_takes(resolved, replies);
            let then = command.after_resources(
                Some(resource_texts(resolution_end(resolved, replies)->Done_0)),
                checks,
            );
            &&& 0 <= taken <= replies.len()
            &&& posts_of(command.resolving(checks, resolved), replies) == posts_of(
                then,
                replies.skip(taken),
            )
            &&& end_of(command.resolving(checks, resolved), replies) == end_of(
                then,
                replies.skip(taken),
            )
        }),
    decreases replies.len(),
{
    match resolved.outcome {
        ResolvedView::Ask(state, ask) => {
            let next = state.step(replies[0]);
            let rest = replies.drop_first();
            resolution_goes_on_with_a_get(state, replies[0]);
            lemma_resolving(command, checks, next, rest);
            assert(rest.skip(resolution_takes(next, rest)) =~= replies.skip(
                resolution_takes(resolved, replies),
            ));
        },
        ResolvedView::Done(resources) => {
            assert(replies.skip(0) =~= replies);
        },
        ResolvedView::Failed(_) => {},
    }
}

/// A clear that names resources and checks dispatches their cross product:
/// once the selector is resolved to the resources `R`, and where every
/// request of the batch succeeds, the POSTs of the whole run are exactly the
/// `|R| * |checks|` requests of the batch, in its order, and the command is
/// done.
pub proof fn clear_dispatches_the_cross_product(
    res_type: ShushResourceType,
    names: Seq<Seq<char>>,
    checks: Seq<Seq<char>>,
    replies: Seq<Result<Option<JsonView>, ErrorView>>,
)
    requires
        resolution_end(ResolutionView::start(res_type, names), replies) is Done,
        ({
            let begun = ResolutionView::start(res_type, names);
            let taken = resolution_takes(begun, replies);
            let resources = resource_texts(resolution_end(begun, replies)->Done_0);
            &&& replies.len() == taken + resources.len() * checks.len()
            &&& forall|k: int| taken <= k < replies.len() ==> (#[trigger] replies[k]) is Ok
        }),
    ensures
        ({
            let begun = ResolutionView::start(res_type, names);
            let resources = resource_texts(resolution_end(begun, replies)->Done_0);
            let first = Command::Clear.start(Some((res_type, names)), Some(checks));
            let batch = Command::Clear.cross(resources, checks);
            &&& posts_of(first, replies) == posts_from(Command::Clear, batch, 0)
            &&& posts_of(first, replies).len() == resources.len() * checks.len()
            &&& end_of(first, replies) == ActionView::Done
        }),
{
    let begun = ResolutionView::start(res_type, names);
    let taken = resolution_takes(begun, replies);
    let resources = resource_texts(resolution_end(begun, replies)->Done_0);
    let batch = Command::Clear.cross(resources, checks);
    resolution_starts_with_a_get(res_type, names);
    lemma_resolving(Command::Clear, Some(checks), begun, replies);
    let rest = replies.skip(taken);
    assert forall|k: int| 0 <= k < rest.len() implies (#[trigger] rest[k]) is Ok by {
        assert(rest[k] == replies[taken + k]);
    }
    lemma_batch_posts(Command::Clear, batch, 0, rest);
    batch_is_dispatched_in_order(Command::Clear, batch, 0, rest);
}

/// A silence that names resources and checks dispatches their cross
/// product: once the selector is resolved to the resources `R` and the
/// checks are validated to `C` by the reply that follows, and where every
/// request of the batch succeeds, the POSTs of the whole run are exactly the
/// `|R| * |C|` requests of the batch, in its order, and the command is done.
pub proof fn silence_dispatches_the_cross_product(
    expire: Expire,
    res_type: ShushResourceType,
    names: Seq<Seq<char>>,
    checks: Seq<Seq<char>>,
    replies: Seq<Result<Option<JsonView>, ErrorView>>,
)
    requires
        resolution_end(ResolutionView::start(res_type, names), replies) is Done,
        ({
            let begun = ResolutionView::start(res_type, names);
            let taken = resolution_takes(begun, replies);
            let resources = resource_texts(resolution_end(begun, replies)->Done_0);
            &&& taken < replies.len()
            &&& replies.len() == taken + 1 + resources.len() * valid_checks(
                checks,
                replies[taken],
            ).len()
            &&& forall|k: int| taken < k < replies.len() ==> (#[trigger] replies[k]) is Ok
        }),
    ensures
        ({
            let begun = ResolutionView::start(res_type, names);
            let taken = resolution_takes(begun, replies);
            let resources = resource_texts(resolution_end(begun, replies)->Done_0);
            let validated = valid_checks(checks, replies[taken]);
            let first = Command::Silence(expire).start(Some((res_type, names)), Some(checks));
            let batch = Command::Silence(expire).cross(resources, validated);
            &&& posts_of(first, replies) == posts_from(Command::Silence(expire), batch, 0)
            &&& posts_of(first, replies).len() == resources.len() * validated.len()
            &&& end_of(first, replies) == ActionView::Done
        }),
{
    let command = Command::Silence(expire);
    let begun = ResolutionView::start(res_type, names);
    let taken = resolution_takes(begun, replies);
    let resources = resource_texts(resolution_end(begun, replies)->Done_0);
    let validated = valid_checks(checks, replies[taken]);
    let batch = command.cross(resources, validated);
    resolution_starts_with_a_get(res_type, names);
    lemma_resolving(command, Some(checks), begun, replies);
    let after = replies.skip(taken);
    let rest = after.drop_first();
    assert(after[0] == replies[taken]);
    assert forall|k: int| 0 <= k < rest.len() implies (#[trigger] rest[k]) is Ok by {
        assert(rest[k] == replies[taken + 1 + k]);
    }
    lemma_batch_posts(command, batch, 0, rest);
    batch_is_dispatched_in_order(command, batch, 0, rest);
    let asking = command.after_resources(Some(resources), Some(checks));
    let dispatching = command.dispatch_from(batch, 0);
    let settled = dispatching.after(valid_checks_notices(checks, after[0]));
    assert(asking.action->Ask_0.step(after[0]) == settled);
    assert(posts_of(settled, rest) == posts_of(dispatching, rest));
    assert(end_of(settled, rest) == end_of(dispatching, rest));
    assert(posts_of(asking, after) == posts_of(settled, rest));
    assert(end_of(asking, after) == end_of(settled, rest));
}


/// A command that names neither a resource nor a check asks for no
/// exchange at all, and ends the process with a status that is not zero.
pub proof fn no_targets_is_a_usage_error(
    command: Command,
    replies: Seq<Result<Option<JsonView>, ErrorView>>,
)
    ensures
        asks_of(command.start(None, None), replies) == Seq::<AskView>::empty(),
        end_of(command.start(None, None), replies) == ActionView::Exit(EXIT_FAILURE),
        EXIT_FAILURE != 0,
{
}

/// An entry whose subscription fails the subscription pattern is not shown,
/// and neither is one whose check fails the check pattern.
pub proof fn unmatched_entry_is_not_shown(entry: JsonView, sub: Pattern, chk: Pattern)
    requires
        record_of(entry) matches Some(record) && !(sub.accepts(record.subscription)
            && chk.accepts(record.check)),
    ensures
        shown(sub, chk)(entry) is None,
{
}

/// Every record in the list stands for an entry whose subscription and
/// check match their patterns.
pub proof fn listed_records_match(
    entries: Seq<JsonView>,
    sub: Pattern,
    chk: Pattern,
    line: Seq<char>,
)
    requires
        entries.len() > 0,
        listing_notices(Some(JsonView::Array(entries)), sub, chk).contains(line),
    ensures
        exists|i: int|
            0 <= i < entries.len() && (record_of(#[trigger] entries[i]) matches Some(record)
                && record.passes(sub, chk) && line == record.text()),
{
    entries.lemma_filter_map_contains(shown(sub, chk), line);
    let entry = choose|t: JsonView| #[trigger] entries.contains(t) && shown(sub, chk)(t) == Some(line);
    let i: int = choose|i: int| 0 <= i < entries.len() && entries[i] == entry;
}

} // verus!
