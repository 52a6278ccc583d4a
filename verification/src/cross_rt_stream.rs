//! The stream that carries batches from the runtime that computes them to the one that reads them.
//!
//! The computing side runs as a driver that feeds a channel; the reading side polls both. The
//! stream ends only when the channel is closed and the driver has finished, so that nothing of the
//! driver is left behind. What is decided here is which of the two to poll and what to answer; the
//! polling itself is done by the caller, which hands the results in.

use vstd::prelude::*;

use crate::text::prefixed;

verus! {

/// How many items the channel between the two sides holds: the driver waits after each until the
/// reader has taken it.
pub const CHANNEL_CAPACITY: usize = 1;

/// How far the two sides of a stream have come.
#[derive(Debug, Clone, Copy, PartialEq, Eq, Structural)]
pub struct CrossRtProgress {
    /// The driver has finished.
    pub driver_ready: bool,
    /// The channel is closed and empty.
    pub inner_done: bool,
}

/// What polling the channel gave.
pub enum InnerPoll<T> {
    /// Nothing yet.
    Pending,
    /// The channel is closed and empty.
    Closed,
    /// The next item.
    Item(T),
}

/// What polling the stream gives.
pub enum StreamPoll<T> {
    /// Nothing yet.
    Pending,
    /// The stream is over.
    Ended,
    /// The next item.
    Item(T),
}

/// What a poll of the stream does after it has seen to the driver.
#[derive(Debug, Clone, Copy, PartialEq, Eq, Structural)]
pub enum AfterDriver {
    /// The channel is polled.
    PollInner,
    /// The channel was done before; the driver still runs.
    Wait,
    /// The channel was done before and the driver has finished.
    End,
}

impl CrossRtProgress {
    /// Neither side is done.
    pub open spec fn start() -> Self {
        CrossRtProgress { driver_ready: false, inner_done: false }
    }

    /// Both sides are done.
    pub open spec fn over(self) -> bool {
        self.driver_ready && self.inner_done
    }

    /// The progress after a poll of the stream in which polling the driver, if it was polled, gave
    /// `driver`, and polling the channel, if it was polled, gave `inner`.
    pub open spec fn after_poll<T>(self, driver: bool, inner: InnerPoll<T>) -> Self {
        CrossRtProgress {
            driver_ready: self.driver_ready || driver,
            inner_done: self.inner_done || inner is Closed,
        }
    }

    /// What such a poll answers: an item of the channel as it came, the end once both sides are
    /// done, and otherwise nothing yet.
    pub open spec fn answer<T>(self, driver: bool, inner: InnerPoll<T>) -> StreamPoll<T> {
        if !self.inner_done && inner is Item {
            StreamPoll::Item(inner->Item_0)
        } else if self.after_poll(driver, inner).over() {
            StreamPoll::Ended
        } else {
            StreamPoll::Pending
        }
    }

    /// A new stream.
    pub fn new() -> (r: Self)
        ensures
            r == Self::start(),
    {
        CrossRtProgress { driver_ready: false, inner_done: false }
    }

    /// Whether a poll of the stream polls the driver: until it has finished.
    pub fn wants_driver(&self) -> (r: bool)
        ensures
            r == !self.driver_ready,
    {
        !self.driver_ready
    }

    /// Takes note of the driver and says what comes next. `driver` is what polling the driver
    /// gave; it is not looked at if the driver had finished before.
    pub fn driver_polled(&mut self, driver: bool) -> (r: AfterDriver)
        ensures
            *final(self) == (CrossRtProgress {
                driver_ready: old(self).driver_ready || driver,
                ..*old(self)
            }),
            r == (if !old(self).inner_done {
                AfterDriver::PollInner
            } else if final(self).driver_ready {
                AfterDriver::End
            } else {
                AfterDriver::Wait
            }),
    {
        if !self.driver_ready && driver {
            self.driver_ready = true;
        }
        if self.inner_done {
            if self.driver_ready {
                AfterDriver::End
            } else {
                AfterDriver::Wait
            }
        } else {
            AfterDriver::PollInner
        }
    }

    /// Takes note of the channel and says what the poll of the stream answers.
    pub fn inner_polled<T>(&mut self, inner: InnerPoll<T>) -> (r: StreamPoll<T>)
        requires
            !old(self).inner_done,
        ensures
            *final(self) == old(self).after_poll(false, inner),
            r == old(self).answer(false, inner),
    {
        match inner {
            InnerPoll::Pending => StreamPoll::Pending,
            InnerPoll::Closed => {
                self.inner_done = true;
                if self.driver_ready {
                    StreamPoll::Ended
                } else {
                    StreamPoll::Pending
                }
            },
            InnerPoll::Item(item) => StreamPoll::Item(item),
        }
    }

    /// A whole poll of the stream, with both results at hand. `driver` is not looked at if the
    /// driver had finished before, nor `inner` if the channel was done before.
    pub fn poll_next<T>(&mut self, driver: bool, inner: InnerPoll<T>) -> (r: StreamPoll<T>)
        ensures
            *final(self) == old(self).after_poll(driver, seen(*old(self), inner)),
            r == old(self).answer(driver, seen(*old(self), inner)),
    {
        match self.driver_polled(driver) {
            AfterDriver::PollInner => self.inner_polled(inner),
            AfterDriver::Wait => StreamPoll::Pending,
            AfterDriver::End => StreamPoll::Ended,
        }
    }
}

/// Why the task that computes the batches did not finish.
#[derive(Debug)]
pub enum JobError {
    /// Its worker went away.
    WorkerGone,
    /// It panicked.
    Panic {
        /// The text of the panic.
        msg: String,
    },
}

/// The text that the reader gets for a task that did not finish.
pub open spec fn job_error_text(error: JobError) -> Seq<char> {
    match error {
        JobError::WorkerGone => "Worker gone"@,
        JobError::Panic { msg } => "Panic: "@ + msg@,
    }
}

/// What the driver sends through the channel when the task that computes the batches is over:
/// nothing if it finished, and otherwise the text of an error.
pub fn driver_report(result: Result<(), JobError>) -> (r: Option<String>)
    ensures
        match result {
            Ok(()) => r is None,
            Err(e) => r matches Some(text) && text@ == job_error_text(e),
        },
{
    match result {
        Ok(()) => None,
        Err(JobError::WorkerGone) => Some("Worker gone".to_owned()),
        Err(JobError::Panic { msg }) => Some(prefixed("Panic: ", msg.as_str())),
    }
}

/// What happened in the task that forwards batches.
pub enum ForwardEvent<T> {
    /// The source gave an item.
    SourceItem(T),
    /// The source is exhausted.
    SourceEnd,
    /// The item was sent.
    Sent,
    /// The reader is gone.
    ReaderGone,
}

/// What the task that forwards batches does next.
pub enum ForwardAction<T> {
    /// Sends the item.
    Send(T),
    /// Asks the source for the next item.
    PullSource,
    /// Finishes.
    Stop,
}

/// The next step of the task that forwards batches: every item of the source is sent as it came,
/// until the source is exhausted or the reader is gone.
pub fn forward_step<T>(event: ForwardEvent<T>) -> (r: ForwardAction<T>)
    ensures
        r == forward_action(event),
{
    match event {
        ForwardEvent::SourceItem(item) => ForwardAction::Send(item),
        ForwardEvent::SourceEnd => ForwardAction::Stop,
        ForwardEvent::Sent => ForwardAction::PullSource,
        ForwardEvent::ReaderGone => ForwardAction::Stop,
    }
}

/// The next step of the task that forwards batches.
pub open spec fn forward_action<T>(event: ForwardEvent<T>) -> ForwardAction<T> {
    match event {
        ForwardEvent::SourceItem(item) => ForwardAction::Send(item),
        ForwardEvent::SourceEnd => ForwardAction::Stop,
        ForwardEvent::Sent => ForwardAction::PullSource,
        ForwardEvent::ReaderGone => ForwardAction::Stop,
    }
}

/// One poll of the stream: what polling the driver and the channel would give.
pub struct PollInput<T> {
    /// The driver has finished.
    pub driver: bool,
    /// The channel.
    pub inner: InnerPoll<T>,
}

/// What a poll looks at of the channel: nothing once it was done.
pub open spec fn seen<T>(progress: CrossRtProgress, inner: InnerPoll<T>) -> InnerPoll<T> {
    if progress.inner_done {
        InnerPoll::Pending
    } else {
        inner
    }
}

/// The progress after a run of polls.
pub open spec fn after_polls<T>(progress: CrossRtProgress, polls: Seq<PollInput<T>>) -> CrossRtProgress
    decreases polls.len(),
{
    if polls.len() == 0 {
        progress
    } else {
        let before = after_polls(progress, polls.drop_last());
        before.after_poll(polls.last().driver, seen(before, polls.last().inner))
    }
}

/// The answer to the last of a run of polls.
pub open spec fn last_answer<T>(progress: CrossRtProgress, polls: Seq<PollInput<T>>) -> StreamPoll<T> {
    let before = after_polls(progress, polls.drop_last());
    before.answer(polls.last().driver, seen(before, polls.last().inner))
}

/// Neither side ever goes back to not being done.
pub proof fn law_progress_is_monotone<T>(progress: CrossRtProgress, polls: Seq<PollInput<T>>)
    ensures
        progress.driver_ready ==> after_polls(progress, polls).driver_ready,
        progress.inner_done ==> after_polls(progress, polls).inner_done,
    decreases polls.len(),
{
    if polls.len() > 0 {
        law_progress_is_monotone(progress, polls.drop_last());
    }
}

/// The stream answers that it is over only when both sides are done, which takes a poll in which
/// the driver had finished and a poll in which the channel was closed.
pub proof fn law_end_needs_both_sides<T>(polls: Seq<PollInput<T>>)
    requires
        polls.len() > 0,
        last_answer(CrossRtProgress::start(), polls) is Ended,
    ensures
        after_polls(CrossRtProgress::start(), polls).over(),
        exists|i: int| 0 <= i < polls.len() && (#[trigger] polls[i]).driver,
        exists|i: int| 0 <= i < polls.len() && (#[trigger] polls[i]).inner is Closed,
{
    lemma_progress_has_cause(polls);
}

proof fn lemma_progress_has_cause<T>(polls: Seq<PollInput<T>>)
    ensures
        after_polls(CrossRtProgress::start(), polls).driver_ready ==> exists|i: int|
            0 <= i < polls.len() && (#[trigger] polls[i]).driver,
        after_polls(CrossRtProgress::start(), polls).inner_done ==> exists|i: int|
            0 <= i < polls.len() && (#[trigger] polls[i]).inner is Closed,
    decreases polls.len(),
{
    if polls.len() > 0 {
        let rest = polls.drop_last();
        let before = after_polls(CrossRtProgress::start(), rest);
        lemma_progress_has_cause(rest);
        assert(polls.last() == polls[polls.len() - 1]);
        if before.driver_ready {
            let i = choose|i: int| 0 <= i < rest.len() && (#[trigger] rest[i]).driver;
            assert(polls[i] == rest[i]);
        }
        if before.inner_done {
            let i = choose|i: int| 0 <= i < rest.len() && (#[trigger] rest[i]).inner is Closed;
            assert(polls[i] == rest[i]);
        }
    }
}

/// A stream that is over stays over: every later poll says so, whatever the two sides would give.
pub proof fn law_ended_stream_stays_ended<T>(
    progress: CrossRtProgress,
    driver: bool,
    inner: InnerPoll<T>,
)
    requires
        progress.over(),
    ensures
        progress.after_poll(driver, seen(progress, inner)) == progress,
        progress.answer(driver, seen(progress, inner)) is Ended,
{
}

/// Until the channel is done every item of it is handed on as it came, whatever the driver does,
/// and a closed channel with a running driver makes the reader wait.
pub proof fn law_items_are_handed_on<T>(progress: CrossRtProgress, driver: bool, item: T)
    requires
        !progress.inner_done,
    ensures
        progress.answer(driver, InnerPoll::Item(item)) == StreamPoll::Item(item),
        !progress.after_poll(driver, InnerPoll::Item(item)).inner_done,
        !progress.driver_ready ==> progress.answer(false, InnerPoll::<T>::Closed) is Pending,
{
}

/// Once both sides have finished, in either order, the stream is over with the poll that sees the
/// second of them.
pub proof fn law_stream_ends_once_both_sides_are_done<T>(
    progress: CrossRtProgress,
    driver: bool,
    inner: InnerPoll<T>,
)
    requires
        progress.driver_ready || driver,
        progress.inner_done || inner is Closed,
    ensures
        progress.answer(driver, seen(progress, inner)) is Ended,
{
}

/// Where in its loop the task that forwards batches is after an event.
pub open spec fn forward_phase<T>(event: ForwardEvent<T>) -> nat {
    match event {
        ForwardEvent::SourceItem(_) => 2,
        ForwardEvent::Sent => 1,
        ForwardEvent::SourceEnd => 0,
        ForwardEvent::ReaderGone => 0,
    }
}

/// What the reader gets from the task that forwards batches, from `event` on, if the source still
/// has `rest` and the reader goes away after `accepts` more items.
pub open spec fn forwarded<T>(event: ForwardEvent<T>, rest: Seq<T>, accepts: nat) -> Seq<T>
    decreases rest.len(), forward_phase(event),
{
    match forward_action(event) {
        ForwardAction::Send(item) => if accepts == 0 {
            forwarded(ForwardEvent::ReaderGone, rest, 0)
        } else {
            seq![item] + forwarded(ForwardEvent::Sent, rest, (accepts - 1) as nat)
        },
        ForwardAction::PullSource => if rest.len() == 0 {
            forwarded(ForwardEvent::SourceEnd, rest, accepts)
        } else {
            forwarded(ForwardEvent::SourceItem(rest[0]), rest.drop_first(), accepts)
        },
        ForwardAction::Stop => Seq::empty(),
    }
}

/// The reader gets the items of the source in order, none left out and none twice, up to the end of
/// the source or until it goes away.
pub proof fn law_items_are_forwarded_in_order<T>(items: Seq<T>, accepts: nat)
    ensures
        forwarded(ForwardEvent::Sent, items, accepts) == items.take(
            if accepts < items.len() {
                accepts as int
            } else {
                items.len() as int
            },
        ),
    decreases items.len(),
{
    reveal_with_fuel(forwarded, 3);
    if items.len() == 0 {
        assert(items.take(0) =~= Seq::empty());
    } else if accepts == 0 {
        assert(items.take(0) =~= Seq::empty());
    } else {
        let rest = items.drop_first();
        let n = if accepts < items.len() {
            accepts as int
        } else {
            items.len() as int
        };
        law_items_are_forwarded_in_order(rest, (accepts - 1) as nat);
        assert(items.take(n) =~= seq![items[0]] + rest.take(n - 1));
    }
}

} // verus!
