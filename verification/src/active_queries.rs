//! The registry of in-flight queries, and what its events do to it.
//!
//! Every query is entered when its setup begins. It leaves when its stream is closed, or when its
//! setup fails, panics or is cancelled, in which case there is no stream to close. In between it can
//! be cancelled, if it was begun so: that marks its entry, which every later step of the query looks
//! at, and aborts the task that computes its batches if that task is running. A query that was begun
//! as not cancellable is registered all the same, and no cancellation reaches it.

use dashmap::DashMap;
use vstd::prelude::*;

use crate::task::{panicked_message, panicked_text, PanicPayload, TaskError};
use crate::text::{signed_decimal, signed_decimal_text};

verus! {

/// Whether a query can be told to stop, and was. Once it was, it stays so.
#[derive(Debug, Clone, Copy, PartialEq, Eq, Structural)]
pub enum CancelState {
    /// It cannot.
    NotCancellable,
    /// It can, and was not yet.
    Live,
    /// It was.
    Cancelled,
}

impl CancelState {
    /// The state after a cancellation, which does nothing to what cannot be cancelled.
    pub open spec fn after_cancel(self) -> Self {
        match self {
            CancelState::NotCancellable => CancelState::NotCancellable,
            _ => CancelState::Cancelled,
        }
    }

    /// Cancellable and not cancelled.
    pub fn new() -> (r: Self)
        ensures
            r == CancelState::Live,
    {
        CancelState::Live
    }

    /// Cancels.
    pub fn cancel(&mut self)
        ensures
            *final(self) == old(self).after_cancel(),
    {
        match *self {
            CancelState::NotCancellable => {},
            _ => {
                *self = CancelState::Cancelled;
            },
        }
    }

    /// Whether it was cancelled.
    pub fn is_cancelled(&self) -> (r: bool)
        ensures
            r == (*self is Cancelled),
    {
        match self {
            CancelState::Cancelled => true,
            _ => false,
        }
    }

    /// Whether a cancellation would do anything, or did.
    pub fn is_cancellable(&self) -> (r: bool)
        ensures
            r == (*self !is NotCancellable),
    {
        match self {
            CancelState::NotCancellable => false,
            _ => true,
        }
    }
}

/// What is known of one in-flight query.
#[derive(Debug, Clone, Copy, PartialEq, Eq, Structural)]
pub struct QueryContext {
    /// Whether the query can be cancelled, and was.
    pub cancellation_token: CancelState,
    /// Number of the handle that aborts the task computing the query's batches. There is none
    /// until the stream exists, and none at all if the executor was shutting down or the query
    /// cannot be cancelled.
    pub cpu_abort_handle: Option<u64>,
}

impl QueryContext {
    /// The entry of a query whose setup begins.
    pub open spec fn fresh(cancellable: bool) -> Self {
        QueryContext {
            cancellation_token: if cancellable {
                CancelState::Live
            } else {
                CancelState::NotCancellable
            },
            cpu_abort_handle: None,
        }
    }

    /// What holds of every entry that the registry's events make: a query that cannot be cancelled
    /// has no handle.
    pub open spec fn well_formed(self) -> bool {
        self.cancellation_token is NotCancellable ==> self.cpu_abort_handle is None
    }

    /// The entry after the query was cancelled.
    pub open spec fn after_cancel(self) -> Self {
        QueryContext { cancellation_token: self.cancellation_token.after_cancel(), ..self }
    }

    /// The entry after `handle` was offered: the first handle stays, and a query that cannot be
    /// cancelled takes none.
    pub open spec fn after_attach(self, handle: u64) -> Self {
        if self.cpu_abort_handle is None && self.cancellation_token !is NotCancellable {
            QueryContext { cpu_abort_handle: Some(handle), ..self }
        } else {
            self
        }
    }

    /// The entry of a cancellable query whose setup begins.
    pub fn new() -> (r: Self)
        ensures
            r == Self::fresh(true),
    {
        QueryContext { cancellation_token: CancelState::new(), cpu_abort_handle: None }
    }

    /// The entry of a query whose setup begins and that cannot be cancelled.
    pub fn not_cancellable() -> (r: Self)
        ensures
            r == Self::fresh(false),
    {
        QueryContext { cancellation_token: CancelState::NotCancellable, cpu_abort_handle: None }
    }

    fn attach(&mut self, handle: u64)
        ensures
            *final(self) == old(self).after_attach(handle),
    {
        if self.cpu_abort_handle.is_none() && self.cancellation_token.is_cancellable() {
            self.cpu_abort_handle = Some(handle);
        }
    }
}

/// The concurrent map of the dashmap crate, declared with nothing known of its inside.
#[verifier::external_type_specification]
#[verifier::external_body]
#[verifier::reject_recursive_types(K)]
#[verifier::reject_recursive_types(V)]
#[verifier::reject_recursive_types(S)]
pub struct ExDashMap<K, V, S>(dashmap::DashMap<K, V, S>);

/// The entries that a map holds.
pub uninterp spec fn queries_in(map: DashMap<i64, QueryContext>) -> Map<i64, QueryContext>;

/// `n` is the number of entries, of which there are finitely many.
pub open spec fn counts(n: nat, queries: Map<i64, QueryContext>) -> bool {
    queries.dom().finite() && n == queries.len()
}

/// `DashMap::new`: an empty map.
#[verifier::external_body]
fn empty_map() -> (r: DashMap<i64, QueryContext>)
    ensures
        queries_in(r).dom() == Set::<i64>::empty(),
{
    DashMap::new()
}

/// `DashMap::insert`: enters a value under a key, in place of any earlier one, which it hands back.
#[verifier::external_body]
fn map_insert(map: &mut DashMap<i64, QueryContext>, key: i64, value: QueryContext) -> (r: Option<
    QueryContext,
>)
    ensures
        queries_in(*final(map)) == queries_in(*old(map)).insert(key, value),
        r == (if queries_in(*old(map)).contains_key(key) {
            Some(queries_in(*old(map))[key])
        } else {
            None
        }),
{
    map.insert(key, value)
}

/// `DashMap::remove`: takes the entry of a key out and hands it back; nothing changes if there is
/// none.
#[verifier::external_body]
fn map_remove(map: &mut DashMap<i64, QueryContext>, key: i64) -> (r: Option<(i64, QueryContext)>)
    ensures
        queries_in(*final(map)) == queries_in(*old(map)).remove(key),
        r == (if queries_in(*old(map)).contains_key(key) {
            Some((key, queries_in(*old(map))[key]))
        } else {
            None
        }),
{
    map.remove(&key)
}

/// `DashMap::get`: the value of a key, copied out of the guard that the map hands over.
#[verifier::external_body]
fn map_get(map: &DashMap<i64, QueryContext>, key: i64) -> (r: Option<QueryContext>)
    ensures
        r == (if queries_in(*map).contains_key(key) {
            Some(queries_in(*map)[key])
        } else {
            None
        }),
{
    map.get(&key).map(|entry| *entry.value())
}

/// `DashMap::contains_key`: whether a key has an entry.
#[verifier::external_body]
fn map_contains_key(map: &DashMap<i64, QueryContext>, key: i64) -> (r: bool)
    ensures
        r == queries_in(*map).contains_key(key),
{
    map.contains_key(&key)
}

/// `DashMap::len`: how many keys have an entry; there are finitely many.
#[verifier::external_body]
fn map_len(map: &DashMap<i64, QueryContext>) -> (r: usize)
    ensures
        counts(r as nat, queries_in(*map)),
{
    map.len()
}

/// How the setup of a query ended. `E` is the error of the engine that runs it.
pub enum SetupOutcome<E> {
    /// The stream exists; the executor gave a handle for its task unless it was shutting down.
    Started {
        /// Address of the stream.
        stream: i64,
        /// Number of the task's abort handle.
        abort_handle: Option<u64>,
    },
    /// The setup failed.
    Failed(E),
    /// The cancellation came first.
    Cancelled,
    /// The setup panicked.
    Panicked(PanicPayload),
}

/// What a cancellation has to do outside the registry.
#[derive(Debug, Clone, Copy, PartialEq, Eq, Structural)]
pub enum CancelAction {
    /// Signal the query's waiting steps, and abort the task with this handle.
    SignalAndAbort(u64),
    /// Signal the query's waiting steps; its task has not started.
    SignalOnly,
    /// The query cannot be cancelled: nothing to do.
    NotCancellable,
    /// There is no such query, or it is over: nothing to do.
    UnknownQuery,
}

/// What is held outside the registry for one query.
#[derive(Debug, Clone, Copy, PartialEq, Eq, Structural)]
pub struct Kept {
    /// The signal that its cancellation is waited for with.
    pub signal: bool,
    /// The handle with this number.
    pub handle: Option<u64>,
}

/// How one step of reading a stream is taken.
#[derive(Debug, Clone, Copy, PartialEq, Eq, Structural)]
pub enum NextPlan {
    /// The stream is read against the query's cancellation, whichever comes first.
    RaceCancellation,
    /// The stream is just read.
    ReadOn,
}

/// How one step of reading a stream ended. `E` is the error of the engine that runs it.
pub enum NextEvent<E> {
    /// A batch came, exported at this address.
    Batch(i64),
    /// The stream ended.
    End,
    /// The cancellation came first.
    Cancelled,
    /// The stream failed.
    Failed(E),
}

/// The text for a query that was cancelled during its setup.
pub open spec fn cancelled_text(task_id: i64) -> Seq<char> {
    "Query "@ + signed_decimal_text(task_id as int) + " cancelled"@
}

/// The text for a fetch phase that is not begun because the query was cancelled.
pub open spec fn fetch_skipped_text(task_id: i64) -> Seq<char> {
    "Fetch phase skipped: query "@ + signed_decimal_text(task_id as int) + " cancelled"@
}

/// The registry after the setup of `task_id` ended with `outcome`.
pub open spec fn after_setup<E>(
    queries: Map<i64, QueryContext>,
    task_id: i64,
    outcome: SetupOutcome<E>,
) -> Map<i64, QueryContext> {
    match outcome {
        SetupOutcome::Started { stream, abort_handle: Some(handle) } => {
            if queries.contains_key(task_id) {
                queries.insert(task_id, queries[task_id].after_attach(handle))
            } else {
                queries
            }
        },
        SetupOutcome::Started { stream, abort_handle: None } => queries,
        SetupOutcome::Failed(_) => queries.remove(task_id),
        SetupOutcome::Cancelled => queries.remove(task_id),
        SetupOutcome::Panicked(_) => queries.remove(task_id),
    }
}

/// The registry after `task_id` was cancelled.
pub open spec fn after_cancel(
    queries: Map<i64, QueryContext>,
    task_id: i64,
) -> Map<i64, QueryContext> {
    if queries.contains_key(task_id) {
        queries.insert(task_id, queries[task_id].after_cancel())
    } else {
        queries
    }
}

/// What the cancellation of `task_id` has to do.
pub open spec fn cancel_action(queries: Map<i64, QueryContext>, task_id: i64) -> CancelAction {
    if !queries.contains_key(task_id) {
        CancelAction::UnknownQuery
    } else if queries[task_id].cancellation_token is NotCancellable {
        CancelAction::NotCancellable
    } else {
        match queries[task_id].cpu_abort_handle {
            Some(handle) => CancelAction::SignalAndAbort(handle),
            None => CancelAction::SignalOnly,
        }
    }
}

/// Whether `task_id` is registered and was cancelled.
pub open spec fn is_cancelled(queries: Map<i64, QueryContext>, task_id: i64) -> bool {
    queries.contains_key(task_id) && queries[task_id].cancellation_token is Cancelled
}

/// Whether `task_id` is registered and can be cancelled.
pub open spec fn is_cancellable(queries: Map<i64, QueryContext>, task_id: i64) -> bool {
    queries.contains_key(task_id) && queries[task_id].cancellation_token !is NotCancellable
}

/// What is held outside the registry for `task_id`: a signal while it can be cancelled, and the
/// handle of its entry.
pub open spec fn kept_for(queries: Map<i64, QueryContext>, task_id: i64) -> Kept {
    Kept {
        signal: is_cancellable(queries, task_id),
        handle: if queries.contains_key(task_id) {
            queries[task_id].cpu_abort_handle
        } else {
            None
        },
    }
}

/// The name under which the setup of a query runs.
pub open spec fn setup_task_text() -> Seq<char> {
    "executeQueryPhaseAsync"@
}

/// All in-flight queries, by the number that the caller gave them.
pub struct ActiveQueries {
    map: DashMap<i64, QueryContext>,
}

impl View for ActiveQueries {
    type V = Map<i64, QueryContext>;

    closed spec fn view(&self) -> Map<i64, QueryContext> {
        queries_in(self.map)
    }
}

impl ActiveQueries {
    /// No query in flight.
    pub fn new() -> (r: Self)
        ensures
            r@ == Map::<i64, QueryContext>::empty(),
    {
        let map = empty_map();
        assert(queries_in(map) =~= Map::<i64, QueryContext>::empty());
        ActiveQueries { map }
    }

    /// Enters `context` under `task_id`; an earlier entry is replaced and handed back.
    pub fn insert(&mut self, task_id: i64, context: QueryContext) -> (r: Option<QueryContext>)
        ensures
            final(self)@ == old(self)@.insert(task_id, context),
            r == (if old(self)@.contains_key(task_id) {
                Some(old(self)@[task_id])
            } else {
                None
            }),
    {
        map_insert(&mut self.map, task_id, context)
    }

    /// Takes the entry of `task_id` out; nothing happens if there is none.
    pub fn remove(&mut self, task_id: i64) -> (r: Option<(i64, QueryContext)>)
        ensures
            final(self)@ == old(self)@.remove(task_id),
            r == (if old(self)@.contains_key(task_id) {
                Some((task_id, old(self)@[task_id]))
            } else {
                None
            }),
    {
        map_remove(&mut self.map, task_id)
    }

    /// Whether `task_id` is registered.
    pub fn contains_key(&self, task_id: i64) -> (r: bool)
        ensures
            r == self@.contains_key(task_id),
    {
        map_contains_key(&self.map, task_id)
    }

    /// The entry of `task_id`.
    pub fn get(&self, task_id: i64) -> (r: Option<QueryContext>)
        ensures
            r == (if self@.contains_key(task_id) {
                Some(self@[task_id])
            } else {
                None
            }),
    {
        map_get(&self.map, task_id)
    }

    /// How many queries are in flight.
    pub fn len(&self) -> (r: usize)
        ensures
            counts(r as nat, self@),
    {
        map_len(&self.map)
    }

    /// How many queries are in flight, for the other side of the bridge.
    pub fn active_query_count(&self) -> (r: i64)
        ensures
            self@.dom().finite(),
            r == self@.len() as i64,
    {
        #[verifier::truncate]
        (self.len() as i64)
    }

    /// Enters a query whose setup begins, and says whether it can be cancelled.
    pub fn begin_query(&mut self, task_id: i64, cancellable: bool)
        ensures
            final(self)@ == old(self)@.insert(task_id, QueryContext::fresh(cancellable)),
    {
        let context = if cancellable {
            QueryContext::new()
        } else {
            QueryContext::not_cancellable()
        };
        let _ = self.insert(task_id, context);
    }

    /// Takes note of how the setup of a query ended and says what its caller is told: the address
    /// of the stream, or why there is none. A query that has no stream leaves the registry here.
    pub fn finish_setup<E>(&mut self, task_id: i64, outcome: SetupOutcome<E>) -> (r: Result<
        i64,
        TaskError<E>,
    >)
        ensures
            final(self)@ == after_setup(old(self)@, task_id, outcome),
            match outcome {
                SetupOutcome::Started { stream, .. } => r == Ok::<i64, TaskError<E>>(stream),
                SetupOutcome::Failed(e) => r == Err::<i64, TaskError<E>>(TaskError::Engine(e)),
                SetupOutcome::Cancelled => r matches Err(TaskError::Execution(text)) && text@
                    == cancelled_text(task_id),
                SetupOutcome::Panicked(payload) => r matches Err(TaskError::Execution(text))
                    && text@ == panicked_text(setup_task_text(), payload),
            },
    {
        match outcome {
            SetupOutcome::Started { stream, abort_handle } => {
                match abort_handle {
                    Some(handle) => match self.get(task_id) {
                        Some(found) => {
                            let mut context = found;
                            context.attach(handle);
                            let _ = self.insert(task_id, context);
                        },
                        None => {},
                    },
                    None => {},
                }
                Ok(stream)
            },
            SetupOutcome::Failed(e) => {
                let _ = self.remove(task_id);
                Err(TaskError::Engine(e))
            },
            SetupOutcome::Cancelled => {
                let _ = self.remove(task_id);
                let text = "Query ".to_owned().concat(signed_decimal(task_id).as_str()).concat(
                    " cancelled",
                );
                Err(TaskError::Execution(text))
            },
            SetupOutcome::Panicked(payload) => {
                let _ = self.remove(task_id);
                Err(TaskError::Execution(panicked_message("executeQueryPhaseAsync", &payload)))
            },
        }
    }

    /// Cancels a query and says what has to be done about it. A query that cannot be cancelled, or
    /// is not registered, or not any more, is left alone.
    pub fn cancel_query(&mut self, task_id: i64) -> (r: CancelAction)
        ensures
            final(self)@ == after_cancel(old(self)@, task_id),
            r == cancel_action(old(self)@, task_id),
    {
        match self.get(task_id) {
            Some(found) => {
                if !found.cancellation_token.is_cancellable() {
                    assert(after_cancel(old(self)@, task_id) =~= old(self)@);
                    return CancelAction::NotCancellable;
                }
                let mut context = found;
                context.cancellation_token.cancel();
                let _ = self.insert(task_id, context);
                match context.cpu_abort_handle {
                    Some(handle) => CancelAction::SignalAndAbort(handle),
                    None => CancelAction::SignalOnly,
                }
            },
            None => CancelAction::UnknownQuery,
        }
    }

    /// Whether the fetch phase of a query may begin; the error is the text for its caller.
    pub fn begin_fetch(&self, task_id: i64) -> (r: Result<(), String>)
        ensures
            r is Ok <==> !is_cancelled(self@, task_id),
            r matches Err(text) ==> text@ == fetch_skipped_text(task_id),
    {
        match self.get(task_id) {
            Some(context) => if context.cancellation_token.is_cancelled() {
                Err(
                    "Fetch phase skipped: query ".to_owned().concat(
                        signed_decimal(task_id).as_str(),
                    ).concat(" cancelled"),
                )
            } else {
                Ok(())
            },
            None => Ok(()),
        }
    }

    /// How a step of reading the stream of a query is taken: a query that is not registered or
    /// cannot be cancelled is just read.
    pub fn plan_next(&self, task_id: i64) -> (r: NextPlan)
        ensures
            r == (if is_cancellable(self@, task_id) {
                NextPlan::RaceCancellation
            } else {
                NextPlan::ReadOn
            }),
    {
        match self.get(task_id) {
            Some(context) => if context.cancellation_token.is_cancellable() {
                NextPlan::RaceCancellation
            } else {
                NextPlan::ReadOn
            },
            None => NextPlan::ReadOn,
        }
    }

    /// What is to be held outside the registry for a query; anything else is let go.
    pub fn kept(&self, task_id: i64) -> (r: Kept)
        ensures
            r == kept_for(self@, task_id),
    {
        match self.get(task_id) {
            Some(context) => Kept {
                signal: context.cancellation_token.is_cancellable(),
                handle: context.cpu_abort_handle,
            },
            None => Kept { signal: false, handle: None },
        }
    }

    /// Takes a query out when its stream is closed.
    pub fn close_stream(&mut self, task_id: i64)
        ensures
            final(self)@ == old(self)@.remove(task_id),
    {
        let _ = self.remove(task_id);
    }
}

/// What the caller is told of one step of reading a stream: the address of the batch, or zero at
/// the end. A cancelled query reads as one whose stream has ended.
pub fn next_reply<E>(event: NextEvent<E>) -> (r: Result<i64, E>)
    ensures
        r == (match event {
            NextEvent::Batch(address) => Ok::<i64, E>(address),
            NextEvent::End => Ok::<i64, E>(0),
            NextEvent::Cancelled => Ok::<i64, E>(0),
            NextEvent::Failed(e) => Err::<i64, E>(e),
        }),
{
    match event {
        NextEvent::Batch(address) => Ok(address),
        NextEvent::End => Ok(0),
        NextEvent::Cancelled => Ok(0),
        NextEvent::Failed(e) => Err(e),
    }
}

} // verus!
