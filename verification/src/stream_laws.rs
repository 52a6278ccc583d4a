//! What holds of a whole run of the stream that crosses runtimes: the task that forwards batches,
//! the channel, the driver and the reader, in whatever order they take their steps.

use vstd::prelude::*;

use crate::cross_rt_stream::{
    forward_action, seen, CrossRtProgress, ForwardAction, ForwardEvent, InnerPoll, StreamPoll,
    CHANNEL_CAPACITY,
};

verus! {

/// The two sides of a stream at one moment.
pub struct StreamRun<T> {
    /// What last happened in the task that forwards items.
    pub event: ForwardEvent<T>,
    /// What the source has not given yet.
    pub rest: Seq<T>,
    /// What the task has put into the channel so far.
    pub sent: Seq<T>,
    /// The task is over, and its end of the channel with it.
    pub task_over: bool,
    /// The error that stands for the task's failure, if it failed.
    pub fault: Option<T>,
    /// That error, while the driver has yet to send it.
    pub report: Option<T>,
    /// What the channel holds.
    pub channel: Seq<T>,
    /// How far the reader knows the two sides to have come.
    pub progress: CrossRtProgress,
    /// What the reader got so far.
    pub out: Seq<T>,
    /// The reader was told that the stream is over.
    pub ended: bool,
}

/// A step of one of the two sides.
pub enum RunStep<T> {
    /// The task takes its next action, or waits for room in the channel.
    Task,
    /// The task fails, which this error stands for.
    TaskFails(T),
    /// The reader polls the stream.
    Reader,
}

/// A new stream over a source that gives `items`.
pub open spec fn start<T>(items: Seq<T>) -> StreamRun<T> {
    StreamRun {
        event: ForwardEvent::Sent,
        rest: items,
        sent: Seq::empty(),
        task_over: false,
        fault: None,
        report: None,
        channel: Seq::empty(),
        progress: CrossRtProgress::start(),
        out: Seq::empty(),
        ended: false,
    }
}

/// The run after the task took its next action.
pub open spec fn task_step<T>(run: StreamRun<T>) -> StreamRun<T> {
    if run.task_over {
        run
    } else {
        match forward_action(run.event) {
            ForwardAction::Send(item) => if run.channel.len() < CHANNEL_CAPACITY {
                StreamRun {
                    event: ForwardEvent::Sent,
                    sent: run.sent.push(item),
                    channel: run.channel.push(item),
                    ..run
                }
            } else {
                run
            },
            ForwardAction::PullSource => if run.rest.len() == 0 {
                StreamRun { event: ForwardEvent::SourceEnd, ..run }
            } else {
                StreamRun {
                    event: ForwardEvent::SourceItem(run.rest[0]),
                    rest: run.rest.drop_first(),
                    ..run
                }
            },
            ForwardAction::Stop => StreamRun { task_over: true, ..run },
        }
    }
}

/// The run after the task failed.
pub open spec fn task_fails<T>(run: StreamRun<T>, error: T) -> StreamRun<T> {
    if run.task_over {
        run
    } else {
        StreamRun { task_over: true, fault: Some(error), report: Some(error), ..run }
    }
}

/// Whether polling the driver finds it finished: the task is over and its error, if there is one, is
/// sent or finds room.
pub open spec fn driver_finishes<T>(run: StreamRun<T>) -> bool {
    run.task_over && (run.report is None || run.channel.len() < CHANNEL_CAPACITY)
}

/// The run after the driver was polled, unless it had finished before.
pub open spec fn after_driver<T>(run: StreamRun<T>) -> StreamRun<T> {
    if !run.progress.driver_ready && driver_finishes(run) && run.report is Some {
        StreamRun { report: None, channel: run.channel.push(run.report->0), ..run }
    } else {
        run
    }
}

/// What polling the channel gives: it is closed once the task and the driver have let go of it.
pub open spec fn inner_poll<T>(run: StreamRun<T>, driver_done: bool) -> InnerPoll<T> {
    if run.channel.len() > 0 {
        InnerPoll::Item(run.channel[0])
    } else if run.task_over && driver_done {
        InnerPoll::Closed
    } else {
        InnerPoll::Pending
    }
}

/// The run after the reader polled the stream.
pub open spec fn reader_step<T>(run: StreamRun<T>) -> StreamRun<T> {
    let driver = driver_finishes(run);
    let polled = after_driver(run);
    let inner = seen(run.progress, inner_poll(polled, run.progress.driver_ready || driver));
    let progress = run.progress.after_poll(driver, inner);
    match run.progress.answer(driver, inner) {
        StreamPoll::Item(item) => StreamRun {
            progress,
            channel: polled.channel.drop_first(),
            out: polled.out.push(item),
            ..polled
        },
        StreamPoll::Ended => StreamRun { progress, ended: true, ..polled },
        StreamPoll::Pending => StreamRun { progress, ..polled },
    }
}

/// The run after one step.
pub open spec fn run_step<T>(run: StreamRun<T>, step: RunStep<T>) -> StreamRun<T> {
    match step {
        RunStep::Task => task_step(run),
        RunStep::TaskFails(error) => task_fails(run, error),
        RunStep::Reader => reader_step(run),
    }
}

/// The run after a sequence of steps.
pub open spec fn run_steps<T>(run: StreamRun<T>, steps: Seq<RunStep<T>>) -> StreamRun<T>
    decreases steps.len(),
{
    if steps.len() == 0 {
        run
    } else {
        run_step(run_steps(run, steps.drop_last()), steps.last())
    }
}

/// The run after `n` rounds in which the task and then the reader take a step.
pub open spec fn run_rounds<T>(run: StreamRun<T>, n: nat) -> StreamRun<T>
    decreases n,
{
    if n == 0 {
        run
    } else {
        reader_step(task_step(run_rounds(run, (n - 1) as nat)))
    }
}

/// The item that the task has taken from the source and not sent yet.
spec fn held<T>(run: StreamRun<T>) -> Seq<T> {
    match run.event {
        ForwardEvent::SourceItem(item) => seq![item],
        _ => Seq::empty(),
    }
}

/// The error that the driver has put into the channel.
spec fn reported<T>(run: StreamRun<T>) -> Seq<T> {
    if run.fault is Some && run.report is None {
        seq![run.fault->0]
    } else {
        Seq::empty()
    }
}

/// What every step keeps.
spec fn run_inv<T>(run: StreamRun<T>, items: Seq<T>) -> bool {
    &&& run.sent + held(run) + run.rest == items
    &&& run.out + run.channel == run.sent + reported(run)
    &&& run.channel.len() <= CHANNEL_CAPACITY
    &&& run.event !is ReaderGone
    &&& run.event is SourceEnd ==> run.rest.len() == 0
    &&& run.fault is Some ==> run.task_over
    &&& run.task_over && run.fault is None ==> run.event is SourceEnd
    &&& run.report is Some ==> run.report == run.fault
    &&& run.progress.driver_ready ==> run.task_over && run.report is None
    &&& run.progress.inner_done ==> run.progress.driver_ready && run.channel.len() == 0
    &&& run.ended ==> run.progress.over()
}

proof fn lemma_start_inv<T>(items: Seq<T>)
    ensures
        run_inv(start(items), items),
{
    let run = start(items);
    assert(run.sent + held(run) + run.rest =~= items);
    assert(run.out + run.channel =~= run.sent + reported(run));
}

proof fn lemma_task_step_inv<T>(run: StreamRun<T>, items: Seq<T>)
    requires
        run_inv(run, items),
    ensures
        run_inv(task_step(run), items),
{
    let after = task_step(run);
    assert(after.sent + held(after) + after.rest =~= run.sent + held(run) + run.rest);
    assert(after.out + after.channel =~= after.sent + reported(after)) by {
        if after.sent.len() > run.sent.len() {
            assert(reported(run) =~= Seq::empty());
            assert(run.out + run.channel =~= run.sent);
        }
    }
}

proof fn lemma_task_fails_inv<T>(run: StreamRun<T>, error: T, items: Seq<T>)
    requires
        run_inv(run, items),
    ensures
        run_inv(task_fails(run, error), items),
{
    let after = task_fails(run, error);
    assert(reported(after) =~= reported(run));
}

proof fn lemma_after_driver_inv<T>(run: StreamRun<T>, items: Seq<T>)
    requires
        run_inv(run, items),
    ensures
        run_inv(after_driver(run), items),
        driver_finishes(run) ==> after_driver(run).report is None,
{
    let after = after_driver(run);
    if !run.progress.driver_ready && driver_finishes(run) && run.report is Some {
        assert(reported(run) =~= Seq::empty());
        assert(run.out + run.channel =~= run.sent);
        assert(after.out + after.channel =~= after.sent + reported(after));
    }
}

proof fn lemma_reader_step_inv<T>(run: StreamRun<T>, items: Seq<T>)
    requires
        run_inv(run, items),
    ensures
        run_inv(reader_step(run), items),
{
    lemma_after_driver_inv(run, items);
    let polled = after_driver(run);
    let after = reader_step(run);
    if after.out.len() > polled.out.len() {
        assert(polled.channel =~= seq![polled.channel[0]] + polled.channel.drop_first());
        assert(after.out + after.channel =~= polled.out + polled.channel);
    }
}

proof fn lemma_steps_inv<T>(items: Seq<T>, steps: Seq<RunStep<T>>)
    ensures
        run_inv(run_steps(start(items), steps), items),
    decreases steps.len(),
{
    if steps.len() == 0 {
        lemma_start_inv(items);
    } else {
        let before = run_steps(start(items), steps.drop_last());
        lemma_steps_inv(items, steps.drop_last());
        match steps.last() {
            RunStep::Task => lemma_task_step_inv(before, items),
            RunStep::TaskFails(error) => lemma_task_fails_inv(before, error, items),
            RunStep::Reader => lemma_reader_step_inv(before, items),
        }
    }
}

proof fn lemma_inv_orders_items<T>(run: StreamRun<T>, items: Seq<T>)
    requires
        run_inv(run, items),
    ensures
        run.sent == items.take(run.sent.len() as int),
        run.fault is None ==> run.out == items.take(run.out.len() as int),
        run.ended && run.fault is None ==> run.out == items,
        run.ended && run.fault is Some ==> run.out == run.sent.push(run.fault->0),
{
    let whole = run.sent + held(run) + run.rest;
    assert(run.sent =~= whole.take(run.sent.len() as int));
    if run.fault is None {
        assert(reported(run) =~= Seq::empty());
        assert(run.out + run.channel =~= run.sent);
        assert(run.out =~= (run.out + run.channel).take(run.out.len() as int));
        assert(run.out =~= items.take(run.out.len() as int));
    }
    if run.ended {
        assert(run.out + run.channel =~= run.out);
        if run.fault is None {
            assert(run.sent =~= whole);
            assert(run.sent + reported(run) =~= run.sent);
        } else {
            assert(run.sent + reported(run) =~= run.sent.push(run.fault->0));
        }
    }
}

/// However the two sides take turns, the reader gets the items of the source in order, none left out
/// and none twice; when it is told that the stream is over it has got all of them.
pub proof fn law_reader_gets_the_source<T>(items: Seq<T>, steps: Seq<RunStep<T>>)
    requires
        forall|i: int| 0 <= i < steps.len() ==> #[trigger] steps[i] !is TaskFails,
    ensures
        ({
            let run = run_steps(start(items), steps);
            &&& run.out == items.take(run.out.len() as int)
            &&& run.ended ==> run.out == items
        }),
{
    lemma_steps_inv(items, steps);
    lemma_no_fault(items, steps);
    lemma_inv_orders_items(run_steps(start(items), steps), items);
}

proof fn lemma_no_fault<T>(items: Seq<T>, steps: Seq<RunStep<T>>)
    requires
        forall|i: int| 0 <= i < steps.len() ==> #[trigger] steps[i] !is TaskFails,
    ensures
        run_steps(start(items), steps).fault is None,
    decreases steps.len(),
{
    if steps.len() > 0 {
        let rest = steps.drop_last();
        assert forall|i: int| 0 <= i < rest.len() implies #[trigger] rest[i] !is TaskFails by {
            assert(rest[i] == steps[i]);
        }
        lemma_no_fault(items, rest);
        assert(steps.last() == steps[steps.len() - 1]);
    }
}

/// What was sent is always a front part of the source. A reader that was told that the stream is
/// over, of a task that failed, has got what was sent, in order, and then the error that stands for
/// the failure.
pub proof fn law_reader_hears_of_a_failed_task<T>(items: Seq<T>, steps: Seq<RunStep<T>>)
    ensures
        ({
            let run = run_steps(start(items), steps);
            &&& run.sent == items.take(run.sent.len() as int)
            &&& run.ended && run.fault is Some ==> run.out == run.sent.push(run.fault->0)
        }),
{
    lemma_steps_inv(items, steps);
    lemma_inv_orders_items(run_steps(start(items), steps), items);
}

/// Once the reader was told that the stream is over, nothing that follows gives it another item, and
/// every later poll tells it so again.
pub proof fn law_nothing_follows_the_end<T>(
    items: Seq<T>,
    steps: Seq<RunStep<T>>,
    step: RunStep<T>,
)
    requires
        run_steps(start(items), steps).ended,
    ensures
        ({
            let run = run_steps(start(items), steps);
            let after = run_step(run, step);
            &&& after.ended
            &&& after.out == run.out
            &&& run.progress.answer(
                driver_finishes(run),
                seen(run.progress, inner_poll(after_driver(run), true)),
            ) is Ended
        }),
{
    lemma_steps_inv(items, steps);
}

/// How often the reader polls in a sequence of steps.
pub open spec fn reader_polls<T>(steps: Seq<RunStep<T>>) -> nat
    decreases steps.len(),
{
    if steps.len() == 0 {
        0
    } else {
        reader_polls(steps.drop_last()) + if steps.last() is Reader {
            1nat
        } else {
            0
        }
    }
}

/// How many polls are left at most once the task is over: one for each item and error on the way and
/// one for the end.
spec fn polls_left<T>(run: StreamRun<T>) -> nat {
    let report: nat = if run.report is Some {
        1
    } else {
        0
    };
    let end: nat = if run.ended {
        0
    } else {
        1
    };
    run.channel.len() + report + end
}

proof fn lemma_poll_makes_progress<T>(run: StreamRun<T>, items: Seq<T>)
    requires
        run_inv(run, items),
        run.task_over,
        !run.ended,
    ensures
        polls_left(reader_step(run)) < polls_left(run),
{
    lemma_after_driver_inv(run, items);
}

proof fn lemma_polls_after_task<T>(run: StreamRun<T>, items: Seq<T>, steps: Seq<RunStep<T>>)
    requires
        run_inv(run, items),
        run.task_over,
    ensures
        ({
            let after = run_steps(run, steps);
            &&& run_inv(after, items)
            &&& after.task_over
            &&& after.fault == run.fault
            &&& after.sent == run.sent
            &&& after.ended || polls_left(after) + reader_polls(steps) <= polls_left(run)
        }),
    decreases steps.len(),
{
    if steps.len() > 0 {
        let before = run_steps(run, steps.drop_last());
        lemma_polls_after_task(run, items, steps.drop_last());
        match steps.last() {
            RunStep::Task => lemma_task_step_inv(before, items),
            RunStep::TaskFails(error) => lemma_task_fails_inv(before, error, items),
            RunStep::Reader => {
                lemma_reader_step_inv(before, items);
                if !before.ended {
                    lemma_poll_makes_progress(before, items);
                }
            },
        }
    }
}

/// If the task fails at any moment, a reader that polls three times more, whatever else happens in
/// between, has got what was sent before the failure, in order, then the error that stands for it,
/// and was told that the stream is over. What was sent is all that the source had given, unless the
/// failure came while an item waited to be sent.
pub proof fn law_failed_task_is_heard_to_the_end<T>(
    items: Seq<T>,
    steps: Seq<RunStep<T>>,
    error: T,
    later: Seq<RunStep<T>>,
)
    requires
        !run_steps(start(items), steps).task_over,
        reader_polls(later) >= 3,
    ensures
        ({
            let run = run_steps(start(items), steps);
            let after = run_steps(run_step(run, RunStep::TaskFails(error)), later);
            &&& after.ended
            &&& after.out == run.sent.push(error)
            &&& run.sent == items.take(run.sent.len() as int)
            &&& run.event !is SourceItem ==> run.sent == items.take(items.len() - run.rest.len())
            &&& run.event matches ForwardEvent::SourceItem(item) ==> run.sent.push(item)
                == items.take(items.len() - run.rest.len())
        }),
{
    let run = run_steps(start(items), steps);
    let failed = task_fails(run, error);
    let after = run_steps(failed, later);
    lemma_steps_inv(items, steps);
    lemma_task_fails_inv(run, error, items);
    lemma_polls_after_task(failed, items, later);
    lemma_inv_orders_items(run, items);
    lemma_inv_orders_items(after, items);
    let given = run.sent + held(run);
    assert(given =~= (given + run.rest).take(given.len() as int));
    match run.event {
        ForwardEvent::SourceItem(item) => {
            assert(given =~= run.sent.push(item));
        },
        _ => {
            assert(given =~= run.sent);
        },
    }
}

/// A stream whose task is over comes to its end with the third poll at the latest, whatever else
/// happens in between, and however the task ended.
pub proof fn law_finished_task_is_read_to_the_end<T>(
    items: Seq<T>,
    steps: Seq<RunStep<T>>,
    later: Seq<RunStep<T>>,
)
    requires
        run_steps(start(items), steps).task_over,
        reader_polls(later) >= 3,
    ensures
        ({
            let run = run_steps(start(items), steps);
            let after = run_steps(run, later);
            &&& after.ended
            &&& after.out == (match run.fault {
                None => items,
                Some(error) => run.sent.push(error),
            })
        }),
{
    let run = run_steps(start(items), steps);
    lemma_steps_inv(items, steps);
    lemma_polls_after_task(run, items, later);
    lemma_inv_orders_items(run_steps(run, later), items);
}

/// How many rounds are left at most.
spec fn rounds_left<T>(run: StreamRun<T>) -> nat {
    let task: nat = if run.task_over {
        0
    } else {
        match run.event {
            ForwardEvent::SourceItem(_) => 4,
            ForwardEvent::Sent => 2,
            ForwardEvent::SourceEnd => 1,
            ForwardEvent::ReaderGone => 1,
        }
    };
    let reader: nat = if run.ended {
        0
    } else {
        1
    };
    3 * run.rest.len() + task + run.channel.len() + reader
}

proof fn lemma_round_makes_progress<T>(run: StreamRun<T>, items: Seq<T>)
    requires
        run_inv(run, items),
        run.fault is None,
        !run.ended,
    ensures
        rounds_left(reader_step(task_step(run))) < rounds_left(run),
        reader_step(task_step(run)).fault is None,
{
    lemma_task_step_inv(run, items);
}

proof fn lemma_rounds<T>(items: Seq<T>, n: nat)
    ensures
        run_inv(run_rounds(start(items), n), items),
        run_rounds(start(items), n).fault is None,
        run_rounds(start(items), n).ended || rounds_left(run_rounds(start(items), n)) + n
            <= rounds_left(start(items)),
    decreases n,
{
    if n == 0 {
        lemma_start_inv(items);
    } else {
        let before = run_rounds(start(items), (n - 1) as nat);
        lemma_rounds(items, (n - 1) as nat);
        lemma_task_step_inv(before, items);
        lemma_reader_step_inv(task_step(before), items);
        if !before.ended {
            lemma_round_makes_progress(before, items);
        }
    }
}

/// A reader that keeps polling comes to the end: while the task and the reader take turns, it has
/// got all items of the source and was told that the stream is over after three rounds for each item
/// and three more.
pub proof fn law_reader_comes_to_the_end<T>(items: Seq<T>, rounds: nat)
    requires
        rounds >= 3 * items.len() + 3,
    ensures
        run_rounds(start(items), rounds).ended,
        run_rounds(start(items), rounds).out == items,
{
    lemma_rounds(items, rounds);
    let run = run_rounds(start(items), rounds);
    if !run.ended {
        assert(rounds_left(run) >= 1);
    }
    lemma_inv_orders_items(run, items);
}

} // verus!
