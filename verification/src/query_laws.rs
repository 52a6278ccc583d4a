//! What holds of the registry of in-flight queries across its events.

use vstd::prelude::*;

use crate::active_queries::{
    after_cancel, after_setup, cancel_action, is_cancellable, is_cancelled, kept_for, CancelAction,
    Kept, QueryContext, SetupOutcome,
};
use crate::task::PanicPayload;

verus! {

/// An event of the registry.
pub enum QueryEvent {
    /// The setup of a query begins, which can be cancelled or not.
    Begin(i64, bool),
    /// The setup of a query ended.
    Setup(i64, SetupOutcome<()>),
    /// A query is cancelled.
    Cancel(i64),
    /// The stream of a query is closed.
    Close(i64),
}

/// The query that an event is about.
pub open spec fn event_id(event: QueryEvent) -> i64 {
    match event {
        QueryEvent::Begin(id, _) => id,
        QueryEvent::Setup(id, _) => id,
        QueryEvent::Cancel(id) => id,
        QueryEvent::Close(id) => id,
    }
}

/// The registry after one event.
pub open spec fn apply_event(
    queries: Map<i64, QueryContext>,
    event: QueryEvent,
) -> Map<i64, QueryContext> {
    match event {
        QueryEvent::Begin(id, cancellable) => queries.insert(id, QueryContext::fresh(cancellable)),
        QueryEvent::Setup(id, outcome) => after_setup(queries, id, outcome),
        QueryEvent::Cancel(id) => after_cancel(queries, id),
        QueryEvent::Close(id) => queries.remove(id),
    }
}

/// The registry after a run of events.
pub open spec fn run_events(
    queries: Map<i64, QueryContext>,
    events: Seq<QueryEvent>,
) -> Map<i64, QueryContext>
    decreases events.len(),
{
    if events.len() == 0 {
        queries
    } else {
        apply_event(run_events(queries, events.drop_last()), events.last())
    }
}

/// A query that was just entered is present and not cancelled, and leaves no trace once it is
/// taken out again.
pub proof fn law_enter_and_leave(queries: Map<i64, QueryContext>, id: i64, cancellable: bool)
    ensures
        ({
            let entered = queries.insert(id, QueryContext::fresh(cancellable));
            &&& entered.contains_key(id)
            &&& is_cancellable(entered, id) == cancellable
            &&& !is_cancelled(entered, id)
            &&& !entered.remove(id).contains_key(id)
            &&& entered.remove(id) == queries.remove(id)
            &&& !queries.contains_key(id) ==> entered.remove(id) == queries
        }),
{
    let entered = queries.insert(id, QueryContext::fresh(cancellable));
    assert(entered.remove(id) =~= queries.remove(id));
    if !queries.contains_key(id) {
        assert(queries.remove(id) =~= queries);
    }
}

/// Taking out a query that is not there changes nothing, and so does taking one out twice.
pub proof fn law_remove_absent_is_noop(queries: Map<i64, QueryContext>, id: i64)
    ensures
        !queries.contains_key(id) ==> queries.remove(id) == queries,
        queries.remove(id).remove(id) == queries.remove(id),
{
    if !queries.contains_key(id) {
        assert(queries.remove(id) =~= queries);
    }
    assert(queries.remove(id).remove(id) =~= queries.remove(id));
}

/// Every event is about one query and leaves all others as they were.
pub proof fn law_events_touch_one_query(
    queries: Map<i64, QueryContext>,
    event: QueryEvent,
    other: i64,
)
    requires
        other != event_id(event),
    ensures
        apply_event(queries, event).contains_key(other) == queries.contains_key(other),
        queries.contains_key(other) ==> apply_event(queries, event)[other] == queries[other],
        is_cancelled(apply_event(queries, event), other) == is_cancelled(queries, other),
        cancel_action(apply_event(queries, event), other) == cancel_action(queries, other),
{
}

/// Cancelling a registered query that can be cancelled marks it and keeps its place and its handle;
/// cancelling it again changes nothing more; cancelling an unknown one changes nothing at all.
pub proof fn law_cancel(queries: Map<i64, QueryContext>, id: i64)
    ensures
        is_cancellable(queries, id) ==> is_cancelled(after_cancel(queries, id), id),
        queries.contains_key(id) ==> after_cancel(queries, id)[id].cpu_abort_handle
            == queries[id].cpu_abort_handle,
        after_cancel(queries, id).dom() == queries.dom(),
        after_cancel(after_cancel(queries, id), id) == after_cancel(queries, id),
        cancel_action(after_cancel(queries, id), id) == cancel_action(queries, id),
        !queries.contains_key(id) ==> after_cancel(queries, id) == queries && cancel_action(
            queries,
            id,
        ) == CancelAction::UnknownQuery,
{
    assert(after_cancel(queries, id).dom() =~= queries.dom());
    assert(after_cancel(after_cancel(queries, id), id) =~= after_cancel(queries, id));
}

/// Cancelling a query that cannot be cancelled does nothing: the registry is as it was, and there is
/// nothing to signal and nothing to abort.
pub proof fn law_cancel_passes_over_uncancellable(queries: Map<i64, QueryContext>, id: i64)
    requires
        queries.contains_key(id),
        !is_cancellable(queries, id),
    ensures
        after_cancel(queries, id) == queries,
        cancel_action(queries, id) == CancelAction::NotCancellable,
{
    assert(after_cancel(queries, id) =~= queries);
}

/// `id` is not begun anew in a run of events.
pub open spec fn not_begun(events: Seq<QueryEvent>, id: i64) -> bool {
    forall|i: int|
        0 <= i < events.len() ==> !(#[trigger] events[i] matches QueryEvent::Begin(begun, _)
            && begun == id)
}

proof fn lemma_not_begun_rest(events: Seq<QueryEvent>, id: i64)
    requires
        events.len() > 0,
        not_begun(events, id),
    ensures
        not_begun(events.drop_last(), id),
        !(events.last() matches QueryEvent::Begin(begun, _) && begun == id),
{
    let rest = events.drop_last();
    assert forall|i: int| 0 <= i < rest.len() implies !(
    #[trigger] rest[i] matches QueryEvent::Begin(begun, _) && begun == id) by {
        assert(rest[i] == events[i]);
    }
    assert(events.last() == events[events.len() - 1]);
}

/// A query that cannot be cancelled never is, whatever happens, for as long as it is registered,
/// unless the same number is begun anew: nothing marks it and no handle is attached.
pub proof fn law_uncancellable_query_runs_on(
    queries: Map<i64, QueryContext>,
    events: Seq<QueryEvent>,
    id: i64,
)
    requires
        queries.contains_key(id) ==> queries[id] == QueryContext::fresh(false),
        not_begun(events, id),
    ensures
        run_events(queries, events).contains_key(id) ==> run_events(queries, events)[id]
            == QueryContext::fresh(false),
    decreases events.len(),
{
    if events.len() > 0 {
        lemma_not_begun_rest(events, id);
        law_uncancellable_query_runs_on(queries, events.drop_last(), id);
        let before = run_events(queries, events.drop_last());
        if event_id(events.last()) != id {
            law_events_touch_one_query(before, events.last(), id);
        }
    }
}

/// Every event keeps every entry well formed.
pub proof fn law_events_keep_entries_well_formed(
    queries: Map<i64, QueryContext>,
    event: QueryEvent,
)
    requires
        forall|id: i64| #[trigger]
            queries.contains_key(id) ==> queries[id].well_formed(),
    ensures
        forall|id: i64| #[trigger]
            apply_event(queries, event).contains_key(id) ==> apply_event(
                queries,
                event,
            )[id].well_formed(),
{
    assert forall|id: i64| #[trigger]
        apply_event(queries, event).contains_key(id) implies apply_event(
        queries,
        event,
    )[id].well_formed() by {
        if event_id(event) != id {
            law_events_touch_one_query(queries, event, id);
        }
        if queries.contains_key(id) {
            assert(queries[id].well_formed());
        }
    }
}

/// A cancelled query stays cancelled for as long as it is registered, whatever happens, unless
/// the same number is begun anew.
pub proof fn law_cancellation_sticks(
    queries: Map<i64, QueryContext>,
    events: Seq<QueryEvent>,
    id: i64,
)
    requires
        queries.contains_key(id) ==> is_cancelled(queries, id),
        not_begun(events, id),
    ensures
        run_events(queries, events).contains_key(id) ==> is_cancelled(
            run_events(queries, events),
            id,
        ),
    decreases events.len(),
{
    if events.len() > 0 {
        lemma_not_begun_rest(events, id);
        law_cancellation_sticks(queries, events.drop_last(), id);
        let before = run_events(queries, events.drop_last());
        if event_id(events.last()) != id {
            law_events_touch_one_query(before, events.last(), id);
        }
    }
}

/// A query whose setup fails, panics or is cancelled leaves the registry then and there, and nothing
/// else does.
pub proof fn law_failed_setup_leaves<E>(
    queries: Map<i64, QueryContext>,
    id: i64,
    error: E,
    payload: PanicPayload,
)
    ensures
        after_setup(queries, id, SetupOutcome::Failed(error)) == queries.remove(id),
        after_setup::<E>(queries, id, SetupOutcome::Cancelled) == queries.remove(id),
        after_setup::<E>(queries, id, SetupOutcome::Panicked(payload)) == queries.remove(id),
        !queries.remove(id).contains_key(id),
{
}

/// A query whose setup succeeds keeps its place, and whether it was cancelled; of several handles
/// the first stays; without an entry that can be cancelled a handle is dropped.
pub proof fn law_started_query_stays(
    queries: Map<i64, QueryContext>,
    id: i64,
    stream: i64,
    abort_handle: Option<u64>,
)
    ensures
        ({
            let after = after_setup::<()>(
                queries,
                id,
                SetupOutcome::Started { stream, abort_handle },
            );
            &&& after.dom() == queries.dom()
            &&& is_cancelled(after, id) == is_cancelled(queries, id)
            &&& (queries.contains_key(id) && queries[id].cpu_abort_handle is Some
                ==> after[id].cpu_abort_handle == queries[id].cpu_abort_handle)
            &&& (is_cancellable(queries, id) && queries[id].cpu_abort_handle is None
                ==> after[id].cpu_abort_handle == abort_handle)
            &&& (!is_cancellable(queries, id) ==> after == queries)
            &&& (!queries.contains_key(id) ==> after == queries)
        }),
{
    let after = after_setup::<()>(queries, id, SetupOutcome::Started { stream, abort_handle });
    assert(after.dom() =~= queries.dom());
    if !is_cancellable(queries, id) {
        assert(after =~= queries);
    }
}

/// Once the stream exists a cancellation aborts its task, and before that it only signals.
pub proof fn law_cancel_aborts_running_task(
    queries: Map<i64, QueryContext>,
    id: i64,
    stream: i64,
    handle: u64,
)
    ensures
        ({
            let begun = queries.insert(id, QueryContext::fresh(true));
            let started = after_setup::<()>(
                begun,
                id,
                SetupOutcome::Started { stream, abort_handle: Some(handle) },
            );
            &&& cancel_action(begun, id) == CancelAction::SignalOnly
            &&& cancel_action(started, id) == CancelAction::SignalAndAbort(handle)
        }),
{
}

/// The setup of a query ends without a stream.
pub open spec fn ends_without_stream(outcome: SetupOutcome<()>) -> bool {
    outcome !is Started
}

/// Whichever way a query goes, the registry ends as it was without it: its setup fails, panics or is
/// cancelled, or it starts and its stream is closed, with or without a cancellation before each of
/// these.
pub proof fn law_every_query_leaves(
    queries: Map<i64, QueryContext>,
    id: i64,
    cancellable: bool,
    stream: i64,
    abort_handle: Option<u64>,
    outcome: SetupOutcome<()>,
)
    requires
        ends_without_stream(outcome),
    ensures
        ({
            let begin = QueryEvent::Begin(id, cancellable);
            let started = QueryEvent::Setup(id, SetupOutcome::Started { stream, abort_handle });
            let ended = QueryEvent::Setup(id, outcome);
            let cancel = QueryEvent::Cancel(id);
            let close = QueryEvent::Close(id);
            &&& run_events(queries, seq![begin, ended]) == queries.remove(id)
            &&& run_events(queries, seq![begin, cancel, ended]) == queries.remove(id)
            &&& run_events(queries, seq![begin, started, close]) == queries.remove(id)
            &&& run_events(queries, seq![begin, cancel, started, close]) == queries.remove(id)
            &&& run_events(queries, seq![begin, started, cancel, close]) == queries.remove(id)
        }),
{
    let begin = QueryEvent::Begin(id, cancellable);
    let started = QueryEvent::Setup(id, SetupOutcome::Started { stream, abort_handle });
    let ended = QueryEvent::Setup(id, outcome);
    let cancel = QueryEvent::Cancel(id);
    let close = QueryEvent::Close(id);
    reveal_with_fuel(run_events, 5);
    assert(seq![begin, ended].drop_last() =~= seq![begin]);
    assert(seq![begin, cancel, ended].drop_last() =~= seq![begin, cancel]);
    assert(seq![begin, cancel].drop_last() =~= seq![begin]);
    assert(seq![begin, started, close].drop_last() =~= seq![begin, started]);
    assert(seq![begin, started].drop_last() =~= seq![begin]);
    assert(seq![begin, cancel, started, close].drop_last() =~= seq![begin, cancel, started]);
    assert(seq![begin, cancel, started].drop_last() =~= seq![begin, cancel]);
    assert(seq![begin, started, cancel, close].drop_last() =~= seq![begin, started, cancel]);
    assert(seq![begin, started, cancel].drop_last() =~= seq![begin, started]);
    assert(seq![begin].drop_last() =~= Seq::<QueryEvent>::empty());
    assert(run_events(queries, seq![begin, ended]) =~= queries.remove(id));
    assert(run_events(queries, seq![begin, cancel, ended]) =~= queries.remove(id));
    assert(run_events(queries, seq![begin, started, close]) =~= queries.remove(id));
    assert(run_events(queries, seq![begin, cancel, started, close]) =~= queries.remove(id));
    assert(run_events(queries, seq![begin, started, cancel, close]) =~= queries.remove(id));
}

/// What is held outside for a query follows its events: a signal from its begin on if it can be
/// cancelled, the first handle from its start on, neither changed by a cancellation, and nothing once
/// it has left. What is held for other queries never changes.
pub proof fn law_kept_follows_queries(
    queries: Map<i64, QueryContext>,
    event: QueryEvent,
    other: i64,
)
    ensures
        other != event_id(event) ==> kept_for(apply_event(queries, event), other) == kept_for(
            queries,
            other,
        ),
        kept_for(apply_event(queries, event), event_id(event)) == (match event {
            QueryEvent::Begin(_, cancellable) => Kept { signal: cancellable, handle: None },
            QueryEvent::Setup(id, SetupOutcome::Started { stream, abort_handle }) => Kept {
                signal: is_cancellable(queries, id),
                handle: if is_cancellable(queries, id) && kept_for(queries, id).handle is None {
                    abort_handle
                } else {
                    kept_for(queries, id).handle
                },
            },
            QueryEvent::Setup(_, _) => Kept { signal: false, handle: None },
            QueryEvent::Cancel(id) => kept_for(queries, id),
            QueryEvent::Close(_) => Kept { signal: false, handle: None },
        }),
        cancel_action(queries, event_id(event)) matches CancelAction::SignalAndAbort(handle)
            ==> kept_for(queries, event_id(event)) == (Kept { signal: true, handle: Some(handle) }),
        cancel_action(queries, event_id(event)) is SignalOnly ==> kept_for(
            queries,
            event_id(event),
        ).signal,
{
    if other != event_id(event) {
        law_events_touch_one_query(queries, event, other);
    }
}

/// The count follows the queries: a new number counts one more and a number that is begun again
/// counts no more; a setup without a stream and a close count one less if the query was registered
/// and change nothing otherwise; a started setup and a cancellation never change the count.
pub proof fn law_count_follows_queries(queries: Map<i64, QueryContext>, event: QueryEvent)
    requires
        queries.dom().finite(),
    ensures
        apply_event(queries, event).dom().finite(),
        apply_event(queries, event).len() == (match event {
            QueryEvent::Begin(id, _) => if queries.contains_key(id) {
                queries.len() as int
            } else {
                queries.len() as int + 1
            },
            QueryEvent::Setup(id, outcome) => if ends_without_stream(outcome)
                && queries.contains_key(id) {
                queries.len() - 1
            } else {
                queries.len() as int
            },
            QueryEvent::Cancel(_) => queries.len() as int,
            QueryEvent::Close(id) => if queries.contains_key(id) {
                queries.len() - 1
            } else {
                queries.len() as int
            },
        }),
{
    let after = apply_event(queries, event);
    match event {
        QueryEvent::Begin(id, _) => {
            assert(after.dom() =~= queries.dom().insert(id));
        },
        QueryEvent::Setup(id, outcome) => {
            if ends_without_stream(outcome) {
                assert(after.dom() =~= queries.dom().remove(id));
            } else {
                assert(after.dom() =~= queries.dom());
            }
        },
        QueryEvent::Cancel(_) => {
            assert(after.dom() =~= queries.dom());
        },
        QueryEvent::Close(id) => {
            assert(after.dom() =~= queries.dom().remove(id));
        },
    }
}

} // verus!
