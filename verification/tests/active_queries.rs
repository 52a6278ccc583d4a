use datafusion_bridge::active_queries::{
    next_reply, ActiveQueries, CancelAction, Kept, NextEvent, NextPlan, QueryContext,
    SetupOutcome,
};
use datafusion_bridge::task::{PanicPayload, TaskError};

#[test]
fn test_insert_and_remove() {
    let mut queries = ActiveQueries::new();
    let id: i64 = 99001;
    // Ensure clean state
    queries.remove(id);

    queries.insert(id, QueryContext::new());
    assert!(queries.contains_key(id), "entry should be present after insert");

    queries.remove(id);
    assert!(!queries.contains_key(id), "entry should be absent after remove");
}

#[test]
fn test_remove_nonexistent_is_noop() {
    let mut queries = ActiveQueries::new();
    let id: i64 = 99002;
    queries.remove(id);
    // Removing again should not panic
    queries.remove(id);
}

#[test]
fn test_cancellation_token_is_not_cancelled_initially() {
    let mut queries = ActiveQueries::new();
    let id: i64 = 99003;
    queries.remove(id);

    queries.insert(id, QueryContext::new());
    let is_cancelled = queries
        .get(id)
        .map(|ctx| ctx.cancellation_token.is_cancelled())
        .unwrap_or(false);
    assert!(!is_cancelled, "token should not be cancelled on creation");

    queries.remove(id);
}

#[test]
fn test_multiple_queries_have_independent_tokens() {
    let mut queries = ActiveQueries::new();
    let id_a: i64 = 99004;
    let id_b: i64 = 99005;
    queries.remove(id_a);
    queries.remove(id_b);

    queries.insert(id_a, QueryContext::new());
    queries.insert(id_b, QueryContext::new());

    // Cancel only query A
    queries.cancel_query(id_a);

    let a_cancelled = queries
        .get(id_a)
        .map(|ctx| ctx.cancellation_token.is_cancelled())
        .unwrap_or(false);
    let b_cancelled = queries
        .get(id_b)
        .map(|ctx| ctx.cancellation_token.is_cancelled())
        .unwrap_or(false);

    assert!(a_cancelled, "query A token should be cancelled");
    assert!(!b_cancelled, "query B token should remain uncancelled");

    queries.remove(id_a);
    queries.remove(id_b);
}

#[test]
fn entries_are_handed_back() {
    let mut queries = ActiveQueries::new();
    assert_eq!(queries.remove(7), None);
    assert_eq!(queries.insert(7, QueryContext::new()), None);
    queries.cancel_query(7);
    let cancelled = queries.get(7).unwrap();
    assert_eq!(queries.insert(7, QueryContext::new()), Some(cancelled));
    assert_eq!(queries.remove(7), Some((7, QueryContext::new())));
    assert_eq!(queries.get(7), None);
}

#[test]
fn queries_are_counted() {
    let mut queries = ActiveQueries::new();
    assert_eq!(queries.active_query_count(), 0);
    queries.begin_query(1, true);
    queries.begin_query(-1, true);
    queries.begin_query(1, true);
    assert_eq!(queries.len(), 2);
    assert_eq!(queries.active_query_count(), 2);
    queries.close_stream(1);
    queries.close_stream(1);
    assert_eq!(queries.active_query_count(), 1);
}

#[test]
fn started_query_keeps_its_first_handle() {
    let mut queries = ActiveQueries::new();
    queries.begin_query(42, true);
    assert_eq!(queries.cancel_query(42), CancelAction::SignalOnly);
    let started: SetupOutcome<()> = SetupOutcome::Started { stream: 77, abort_handle: Some(5) };
    assert!(matches!(queries.finish_setup(42, started), Ok(77)));
    assert_eq!(queries.cancel_query(42), CancelAction::SignalAndAbort(5));
    let again: SetupOutcome<()> = SetupOutcome::Started { stream: 78, abort_handle: Some(6) };
    assert!(matches!(queries.finish_setup(42, again), Ok(78)));
    assert_eq!(queries.cancel_query(42), CancelAction::SignalAndAbort(5));
    queries.close_stream(42);
    assert_eq!(queries.cancel_query(42), CancelAction::UnknownQuery);
}

#[test]
fn handle_without_an_entry_is_dropped() {
    let mut queries = ActiveQueries::new();
    let started: SetupOutcome<()> = SetupOutcome::Started { stream: 9, abort_handle: Some(5) };
    assert!(matches!(queries.finish_setup(1, started), Ok(9)));
    assert!(!queries.contains_key(1));
    queries.begin_query(1, true);
    let shutting_down: SetupOutcome<()> = SetupOutcome::Started { stream: 9, abort_handle: None };
    assert!(matches!(queries.finish_setup(1, shutting_down), Ok(9)));
    assert_eq!(queries.get(1), Some(QueryContext::new()));
}

#[test]
fn failed_setup_leaves_the_registry() {
    let mut queries = ActiveQueries::new();
    queries.begin_query(42, true);
    queries.begin_query(43, true);
    let failed: SetupOutcome<u8> = SetupOutcome::Failed(3);
    assert!(matches!(queries.finish_setup(42, failed), Err(TaskError::Engine(3))));
    assert!(!queries.contains_key(42));
    assert!(queries.contains_key(43));
}

#[test]
fn cancelled_setup_leaves_the_registry() {
    let mut queries = ActiveQueries::new();
    queries.begin_query(-42, true);
    queries.cancel_query(-42);
    let cancelled: SetupOutcome<()> = SetupOutcome::Cancelled;
    match queries.finish_setup(-42, cancelled) {
        Err(TaskError::Execution(text)) => assert_eq!(text, "Query -42 cancelled"),
        _ => panic!("a cancelled setup is an error"),
    }
    assert!(!queries.contains_key(-42));
}

#[test]
fn cancelling_an_unknown_query_does_nothing() {
    let mut queries = ActiveQueries::new();
    assert_eq!(queries.cancel_query(-1), CancelAction::UnknownQuery);
    assert_eq!(queries.len(), 0);
}

#[test]
fn fetch_is_skipped_for_a_cancelled_query() {
    let mut queries = ActiveQueries::new();
    assert_eq!(queries.begin_fetch(42), Ok(()));
    queries.begin_query(42, true);
    assert_eq!(queries.begin_fetch(42), Ok(()));
    queries.cancel_query(42);
    assert_eq!(
        queries.begin_fetch(42),
        Err("Fetch phase skipped: query 42 cancelled".to_string())
    );
    assert_eq!(queries.begin_fetch(43), Ok(()));
}

#[test]
fn cancellation_sticks_until_the_query_begins_anew() {
    let mut queries = ActiveQueries::new();
    queries.begin_query(1, true);
    queries.cancel_query(1);
    let started: SetupOutcome<()> = SetupOutcome::Started { stream: 1, abort_handle: Some(2) };
    let _ = queries.finish_setup(1, started);
    queries.begin_query(2, true);
    queries.close_stream(2);
    assert!(queries.get(1).unwrap().cancellation_token.is_cancelled());
    queries.begin_query(1, true);
    assert!(!queries.get(1).unwrap().cancellation_token.is_cancelled());
}

#[test]
fn registered_queries_race_their_cancellation() {
    let mut queries = ActiveQueries::new();
    assert_eq!(queries.plan_next(3), NextPlan::ReadOn);
    queries.begin_query(3, true);
    assert_eq!(queries.plan_next(3), NextPlan::RaceCancellation);
}

#[test]
fn a_cancelled_stream_reads_as_ended() {
    assert_eq!(next_reply::<()>(NextEvent::Batch(11)), Ok(11));
    assert_eq!(next_reply::<()>(NextEvent::End), Ok(0));
    assert_eq!(next_reply::<()>(NextEvent::Cancelled), Ok(0));
    assert_eq!(next_reply(NextEvent::Failed("x")), Err("x"));
}

#[test]
fn panicked_setup_leaves_the_registry() {
    let mut queries = ActiveQueries::new();
    queries.begin_query(7, true);
    queries.begin_query(8, false);
    let panicked: SetupOutcome<()> =
        SetupOutcome::Panicked(PanicPayload::Owned("boom".to_string()));
    match queries.finish_setup(7, panicked) {
        Err(TaskError::Execution(text)) => {
            assert_eq!(text, "executeQueryPhaseAsync panicked: boom")
        }
        _ => panic!("a panic is an error"),
    }
    assert!(!queries.contains_key(7));
    let panicked: SetupOutcome<()> = SetupOutcome::Panicked(PanicPayload::Opaque);
    match queries.finish_setup(8, panicked) {
        Err(TaskError::Execution(text)) => {
            assert_eq!(text, "executeQueryPhaseAsync panicked: unknown panic payload")
        }
        _ => panic!("a panic is an error"),
    }
    assert_eq!(queries.active_query_count(), 0);
}

#[test]
fn uncancellable_query_is_not_cancelled() {
    let mut queries = ActiveQueries::new();
    queries.begin_query(5, false);
    assert_eq!(queries.get(5), Some(QueryContext::not_cancellable()));
    assert_eq!(queries.active_query_count(), 1);
    assert_eq!(queries.cancel_query(5), CancelAction::NotCancellable);
    assert_eq!(queries.get(5), Some(QueryContext::not_cancellable()));
    assert_eq!(queries.plan_next(5), NextPlan::ReadOn);
    let started: SetupOutcome<()> = SetupOutcome::Started { stream: 77, abort_handle: Some(9) };
    assert!(matches!(queries.finish_setup(5, started), Ok(77)));
    assert_eq!(queries.get(5), Some(QueryContext::not_cancellable()));
    assert_eq!(queries.cancel_query(5), CancelAction::NotCancellable);
    assert_eq!(queries.begin_fetch(5), Ok(()));
    queries.close_stream(5);
    assert_eq!(queries.active_query_count(), 0);
}

#[test]
fn the_count_follows_every_event() {
    let mut queries = ActiveQueries::new();
    queries.begin_query(1, true);
    queries.begin_query(1, false);
    assert_eq!(queries.active_query_count(), 1);
    queries.begin_query(2, true);
    queries.cancel_query(2);
    assert_eq!(queries.active_query_count(), 2);
    let failed: SetupOutcome<u8> = SetupOutcome::Failed(1);
    let _ = queries.finish_setup(2, failed);
    assert_eq!(queries.active_query_count(), 1);
    queries.close_stream(2);
    assert_eq!(queries.active_query_count(), 1);
    queries.close_stream(1);
    assert_eq!(queries.active_query_count(), 0);
}

#[test]
fn what_is_kept_follows_the_registry() {
    let nothing = Kept { signal: false, handle: None };
    let mut queries = ActiveQueries::new();
    assert_eq!(queries.kept(1), nothing);
    queries.begin_query(1, true);
    queries.begin_query(2, false);
    assert_eq!(queries.kept(1), Kept { signal: true, handle: None });
    assert_eq!(queries.kept(2), nothing);
    for id in [1i64, 2] {
        let started: SetupOutcome<()> = SetupOutcome::Started { stream: 3, abort_handle: Some(4) };
        let _ = queries.finish_setup(id, started);
    }
    queries.cancel_query(1);
    assert_eq!(queries.kept(1), Kept { signal: true, handle: Some(4) });
    assert_eq!(queries.kept(2), nothing);
    queries.close_stream(1);
    assert_eq!(queries.kept(1), nothing);
}
