//! What each call of the registry of in-flight queries gives, and how calls relate.
//!
//! A law that speaks of a call holds for every call with these arguments and this result: `q` is the
//! registry that was called, with its entries before the call and after it.

use vstd::prelude::*;

use crate::active_queries::{
    next_reply, ActiveQueries, CancelAction, CancelState, Kept, NextEvent, NextPlan, QueryContext,
    SetupOutcome,
};
use crate::task::{
    notification, panic_message, panicked_message, received, PanicPayload, TaskEnd, TaskError,
};
use crate::text::signed_decimal_text;
use crate::text_laws::{law_signed_decimal_text_reads_back, reads_as};

verus! {

/// A token starts out live, is cancelled by its first cancellation and stays so; one that cannot be
/// cancelled is left alone. It says of itself which of these it is.
pub proof fn law_cancel_state(
    fresh: CancelState,
    state: &mut CancelState,
    cancelled: bool,
    cancellable: bool,
)
    requires
        call_ensures(CancelState::new, (), fresh),
        call_ensures(CancelState::cancel, (state,), ()),
        call_ensures(CancelState::is_cancelled, (&*old(state),), cancelled),
        call_ensures(CancelState::is_cancellable, (&*old(state),), cancellable),
    ensures
        fresh == CancelState::Live,
        cancelled <==> *old(state) == CancelState::Cancelled,
        cancellable <==> *old(state) != CancelState::NotCancellable,
        *old(state) == CancelState::Live ==> *final(state) == CancelState::Cancelled,
        *old(state) == CancelState::Cancelled ==> *final(state) == CancelState::Cancelled,
        *old(state) == CancelState::NotCancellable ==> *final(state)
            == CancelState::NotCancellable,
{
}

/// A new entry has a live token and no handle; that of a query that cannot be cancelled says so.
pub proof fn law_new_entries(cancellable: QueryContext, not_cancellable: QueryContext)
    requires
        call_ensures(QueryContext::new, (), cancellable),
        call_ensures(QueryContext::not_cancellable, (), not_cancellable),
    ensures
        cancellable.cancellation_token == CancelState::Live,
        cancellable.cpu_abort_handle is None,
        not_cancellable.cancellation_token == CancelState::NotCancellable,
        not_cancellable.cpu_abort_handle is None,
{
}

/// A new registry is empty. What is entered is found under its number until it is taken out, and
/// nothing else is touched.
pub proof fn law_insert_and_remove(
    empty: ActiveQueries,
    inserted: &mut ActiveQueries,
    removed: &mut ActiveQueries,
    id: i64,
    other: i64,
    context: QueryContext,
    was: Option<QueryContext>,
    out: Option<(i64, QueryContext)>,
    found: Option<QueryContext>,
    has: bool,
    found_other: Option<QueryContext>,
    found_after: Option<QueryContext>,
    has_after: bool,
)
    requires
        call_ensures(ActiveQueries::new, (), empty),
        call_ensures(ActiveQueries::insert, (inserted, id, context), was),
        call_ensures(ActiveQueries::get, (&*final(inserted), id), found),
        call_ensures(ActiveQueries::contains_key, (&*final(inserted), id), has),
        call_ensures(ActiveQueries::get, (&*final(inserted), other), found_other),
        *old(removed) == *final(inserted),
        call_ensures(ActiveQueries::remove, (removed, id), out),
        call_ensures(ActiveQueries::get, (&*final(removed), id), found_after),
        call_ensures(ActiveQueries::contains_key, (&*final(removed), id), has_after),
    ensures
        forall|k: i64| !(#[trigger] empty@.contains_key(k)),
        has,
        found == Some(context),
        was is Some <==> old(inserted)@.contains_key(id),
        was matches Some(w) ==> old(inserted)@[id] == w,
        other != id ==> (found_other is Some <==> old(inserted)@.contains_key(other)),
        other != id ==> (found_other matches Some(o) ==> old(inserted)@[other] == o),
        out == Some((id, context)),
        found_after is None,
        !has_after,
        other != id ==> final(removed)@.contains_key(other) == old(inserted)@.contains_key(other),
{
}

/// Taking out a number that is not registered gives nothing and changes nothing.
pub proof fn law_remove_absent(q: &mut ActiveQueries, id: i64, r: Option<(i64, QueryContext)>)
    requires
        call_ensures(ActiveQueries::remove, (q, id), r),
        !old(q)@.contains_key(id),
    ensures
        r is None,
        final(q)@ == old(q)@,
{
    assert(final(q)@ =~= old(q)@);
}

/// The two counts agree, and are the number of registered numbers.
pub proof fn law_counts(q: ActiveQueries, n: usize, shown: i64)
    requires
        call_ensures(ActiveQueries::len, (&q,), n),
        call_ensures(ActiveQueries::active_query_count, (&q,), shown),
    ensures
        q@.dom().finite(),
        n == q@.dom().len(),
        n <= i64::MAX ==> shown == n,
        shown == n as i64,
{
}

/// The count goes up by one with a new number, and by none with one that is registered, and back
/// with its close.
pub proof fn law_counts_follow_begin_and_close(
    begun: &mut ActiveQueries,
    closed: &mut ActiveQueries,
    id: i64,
    cancellable: bool,
    before: usize,
    during: usize,
    after: usize,
)
    requires
        call_ensures(ActiveQueries::len, (&*old(begun),), before),
        call_ensures(ActiveQueries::begin_query, (begun, id, cancellable), ()),
        call_ensures(ActiveQueries::len, (&*final(begun),), during),
        *old(closed) == *final(begun),
        call_ensures(ActiveQueries::close_stream, (closed, id), ()),
        call_ensures(ActiveQueries::len, (&*final(closed),), after),
    ensures
        old(begun)@.contains_key(id) ==> during == before,
        !old(begun)@.contains_key(id) ==> during == before + 1,
        after == during - 1,
{
    assert(final(begun)@.dom() =~= old(begun)@.dom().insert(id));
    assert(final(closed)@.dom() =~= final(begun)@.dom().remove(id));
}

/// A query that begins is registered under its number with no handle and not cancelled, and can be
/// cancelled exactly if it was begun so; all others stay as they are.
pub proof fn law_begin_query(q: &mut ActiveQueries, id: i64, cancellable: bool, other: i64)
    requires
        call_ensures(ActiveQueries::begin_query, (q, id, cancellable), ()),
    ensures
        final(q)@.contains_key(id),
        final(q)@[id].cpu_abort_handle is None,
        cancellable ==> final(q)@[id].cancellation_token == CancelState::Live,
        !cancellable ==> final(q)@[id].cancellation_token == CancelState::NotCancellable,
        other != id ==> final(q)@.contains_key(other) == old(q)@.contains_key(other),
        other != id && old(q)@.contains_key(other) ==> final(q)@[other] == old(q)@[other],
{
}

/// A query whose stream is closed is not registered any more; all others stay as they are.
pub proof fn law_close_stream(q: &mut ActiveQueries, id: i64, other: i64)
    requires
        call_ensures(ActiveQueries::close_stream, (q, id), ()),
    ensures
        !final(q)@.contains_key(id),
        other != id ==> final(q)@.contains_key(other) == old(q)@.contains_key(other),
        other != id && old(q)@.contains_key(other) ==> final(q)@[other] == old(q)@[other],
{
}

/// A setup that started answers with its stream and keeps everything but the handle of its own entry:
/// that is the one offered if the query can be cancelled and has none yet.
pub proof fn law_started_setup<E>(
    q: &mut ActiveQueries,
    id: i64,
    stream: i64,
    abort_handle: Option<u64>,
    other: i64,
    r: Result<i64, TaskError<E>>,
)
    requires
        call_ensures(
            ActiveQueries::finish_setup::<E>,
            (q, id, SetupOutcome::Started { stream, abort_handle }),
            r,
        ),
    ensures
        r == Ok::<i64, TaskError<E>>(stream),
        final(q)@.contains_key(id) == old(q)@.contains_key(id),
        old(q)@.contains_key(id) ==> final(q)@[id].cancellation_token == old(q)@[id].cancellation_token,
        old(q)@.contains_key(id) && old(q)@[id].cpu_abort_handle is None && old(q)@[id].cancellation_token != CancelState::NotCancellable ==> final(q)@[id].cpu_abort_handle
            == abort_handle,
        old(q)@.contains_key(id) && (old(q)@[id].cpu_abort_handle is Some || old(q)@[id].cancellation_token == CancelState::NotCancellable)
            ==> final(q)@[id].cpu_abort_handle == old(q)@[id].cpu_abort_handle,
        other != id ==> final(q)@.contains_key(other) == old(q)@.contains_key(other),
        other != id && old(q)@.contains_key(other) ==> final(q)@[other] == old(q)@[other],
{
}

/// A setup without a stream takes its query out, leaves all others, and answers with the engine's
/// error, with the number of the cancelled query, or with the text of the panic.
pub proof fn law_setup_without_stream<E>(
    q: &mut ActiveQueries,
    id: i64,
    outcome: SetupOutcome<E>,
    other: i64,
    r: Result<i64, TaskError<E>>,
)
    requires
        call_ensures(ActiveQueries::finish_setup::<E>, (q, id, outcome), r),
        outcome !is Started,
    ensures
        !final(q)@.contains_key(id),
        other != id ==> final(q)@.contains_key(other) == old(q)@.contains_key(other),
        other != id && old(q)@.contains_key(other) ==> final(q)@[other] == old(q)@[other],
        outcome matches SetupOutcome::Failed(e) ==> r == Err::<i64, TaskError<E>>(
            TaskError::Engine(e),
        ),
        outcome is Cancelled ==> (r matches Err(TaskError::Execution(text)) && text@ == "Query "@
            + signed_decimal_text(id as int) + " cancelled"@),
        outcome matches SetupOutcome::Panicked(PanicPayload::Slice(m)) ==> (r matches Err(
            TaskError::Execution(text),
        ) && text@ == "executeQueryPhaseAsync"@ + " panicked: "@ + m@),
        outcome matches SetupOutcome::Panicked(PanicPayload::Owned(m)) ==> (r matches Err(
            TaskError::Execution(text),
        ) && text@ == "executeQueryPhaseAsync"@ + " panicked: "@ + m@),
        outcome matches SetupOutcome::Panicked(PanicPayload::Opaque) ==> (r matches Err(
            TaskError::Execution(text),
        ) && text@ == "executeQueryPhaseAsync"@ + " panicked: "@ + "unknown panic payload"@),
{
}

/// A cancellation marks the entry of a query that can be cancelled, keeps its handle, and names that
/// handle to be aborted; it changes nothing else, and nothing at all for any other query.
pub proof fn law_cancel_query(q: &mut ActiveQueries, id: i64, other: i64, r: CancelAction)
    requires
        call_ensures(ActiveQueries::cancel_query, (q, id), r),
    ensures
        final(q)@.contains_key(id) == old(q)@.contains_key(id),
        !old(q)@.contains_key(id) <==> r == CancelAction::UnknownQuery,
        old(q)@.contains_key(id) && old(q)@[id].cancellation_token == CancelState::NotCancellable
            <==> r == CancelAction::NotCancellable,
        r is NotCancellable ==> final(q)@[id] == old(q)@[id],
        old(q)@.contains_key(id) && old(q)@[id].cancellation_token != CancelState::NotCancellable
            ==> {
            &&& final(q)@[id].cancellation_token == CancelState::Cancelled
            &&& final(q)@[id].cpu_abort_handle == old(q)@[id].cpu_abort_handle
            &&& old(q)@[id].cpu_abort_handle is None <==> r == CancelAction::SignalOnly
            &&& (old(q)@[id].cpu_abort_handle matches Some(handle) ==> r
                == CancelAction::SignalAndAbort(handle))
        },
        other != id ==> final(q)@.contains_key(other) == old(q)@.contains_key(other),
        other != id && old(q)@.contains_key(other) ==> final(q)@[other] == old(q)@[other],
{
}

/// A fetch is refused only for a registered query that was cancelled, and always then; the text names
/// its number.
pub proof fn law_begin_fetch(q: ActiveQueries, id: i64, r: Result<(), String>)
    requires
        call_ensures(ActiveQueries::begin_fetch, (&q, id), r),
    ensures
        !q@.contains_key(id) ==> r is Ok,
        q@.contains_key(id) && q@[id].cancellation_token != CancelState::Cancelled ==> r is Ok,
        q@.contains_key(id) && q@[id].cancellation_token == CancelState::Cancelled ==> r is Err,
        r matches Err(text) ==> text@ == "Fetch phase skipped: query "@ + signed_decimal_text(
            id as int,
        ) + " cancelled"@,
{
}

/// The number in a text about a query reads back as the query's number.
pub proof fn law_texts_name_the_query(id: i64)
    ensures
        id >= 0 ==> reads_as(signed_decimal_text(id as int), id as int),
        id < 0 ==> signed_decimal_text(id as int)[0] == '-' && reads_as(
            signed_decimal_text(id as int).skip(1),
            -id,
        ),
{
    law_signed_decimal_text_reads_back(id as int);
}

/// A query that was begun and not cancelled may be fetched, and so may one whose stream is closed,
/// cancelled or not.
pub proof fn law_fetch_after_close(
    begun: &mut ActiveQueries,
    cancelled: &mut ActiveQueries,
    closed: &mut ActiveQueries,
    id: i64,
    cancellable: bool,
    action: CancelAction,
    early: Result<(), String>,
    late: Result<(), String>,
    closed_reply: Result<(), String>,
)
    requires
        call_ensures(ActiveQueries::begin_query, (begun, id, cancellable), ()),
        call_ensures(ActiveQueries::begin_fetch, (&*final(begun), id), early),
        *old(cancelled) == *final(begun),
        call_ensures(ActiveQueries::cancel_query, (cancelled, id), action),
        call_ensures(ActiveQueries::begin_fetch, (&*final(cancelled), id), late),
        *old(closed) == *final(cancelled),
        call_ensures(ActiveQueries::close_stream, (closed, id), ()),
        call_ensures(ActiveQueries::begin_fetch, (&*final(closed), id), closed_reply),
    ensures
        early is Ok,
        late is Err <==> cancellable,
        closed_reply is Ok,
{
}

/// A step of reading races a cancellation exactly for a registered query that can be cancelled.
pub proof fn law_plan_next(q: ActiveQueries, id: i64, r: NextPlan)
    requires
        call_ensures(ActiveQueries::plan_next, (&q, id), r),
    ensures
        !q@.contains_key(id) ==> r == NextPlan::ReadOn,
        q@.contains_key(id) && q@[id].cancellation_token == CancelState::NotCancellable ==> r
            == NextPlan::ReadOn,
        q@.contains_key(id) && q@[id].cancellation_token != CancelState::NotCancellable ==> r
            == NextPlan::RaceCancellation,
{
}

/// Nothing is held for a query that is not registered; for a registered one its handle is, and a
/// signal if it can be cancelled.
pub proof fn law_kept(q: ActiveQueries, id: i64, r: Kept, plan: NextPlan)
    requires
        call_ensures(ActiveQueries::kept, (&q, id), r),
        call_ensures(ActiveQueries::plan_next, (&q, id), plan),
    ensures
        r.signal <==> plan == NextPlan::RaceCancellation,
        !q@.contains_key(id) ==> !r.signal && r.handle is None,
        q@.contains_key(id) ==> r.handle == q@[id].cpu_abort_handle,
        q@.contains_key(id) ==> (r.signal <==> q@[id].cancellation_token
            != CancelState::NotCancellable),
{
}

/// A batch is answered with its address, the end and a cancellation with zero, and a failure as it
/// is.
pub proof fn law_next_reply<E>(event: NextEvent<E>, r: Result<i64, E>)
    requires
        call_ensures(next_reply::<E>, (event,), r),
    ensures
        event matches NextEvent::Batch(address) ==> r == Ok::<i64, E>(address),
        event is End || event is Cancelled ==> r == Ok::<i64, E>(0),
        event matches NextEvent::Failed(e) ==> r == Err::<i64, E>(e),
{
}

/// A panic has the text that it carried, if it carried one, behind the name of its task.
pub proof fn law_panic_texts(name: &str, payload: PanicPayload, text: String, r: String)
    requires
        call_ensures(panic_message, (&payload,), text),
        call_ensures(panicked_message, (name, &payload), r),
    ensures
        payload matches PanicPayload::Slice(m) ==> text@ == m@,
        payload matches PanicPayload::Owned(m) ==> text@ == m@,
        payload is Opaque ==> text@ == "unknown panic payload"@,
        r@ == name@ + " panicked: "@ + text@,
{
}

/// A listener is told what its task returned, as it is, or the text of its panic.
pub proof fn law_notification<T, E>(
    name: &str,
    end: TaskEnd<T, E>,
    payload: PanicPayload,
    panic: String,
    r: Result<T, TaskError<E>>,
)
    requires
        call_ensures(notification::<T, E>, (name, end), r),
        call_ensures(panicked_message, (name, &payload), panic),
    ensures
        end matches TaskEnd::Returned(result) ==> r == result,
        end == TaskEnd::<T, E>::Panicked(payload) ==> (r matches Err(TaskError::Execution(text))
            && text@ == panic@),
{
}

/// An answer from another thread is passed on as it is, and a missing one is an error.
pub proof fn law_received<T, E>(answer: Option<Result<T, E>>, r: Result<T, TaskError<E>>)
    requires
        call_ensures(received::<T, E>, (answer,), r),
    ensures
        answer matches Some(Ok(value)) ==> r == Ok::<T, TaskError<E>>(value),
        answer matches Some(Err(e)) ==> r == Err::<T, TaskError<E>>(TaskError::Engine(e)),
        answer is None ==> (r matches Err(TaskError::Execution(text)) && text@
            == "Channel closed"@),
{
}

} // verus!
