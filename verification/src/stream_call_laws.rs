//! What each call of the stream that crosses runtimes gives.
//!
//! A law that speaks of a call holds for every call with these arguments and this result: `p` is the
//! progress that was called, before the call and after it.

use vstd::prelude::*;

use crate::cross_rt_stream::{
    driver_report, forward_step, AfterDriver, CrossRtProgress, ForwardAction, ForwardEvent,
    InnerPoll, JobError, StreamPoll,
};

verus! {

/// A new stream has neither side done, and the driver is polled until it has finished.
pub proof fn law_new_stream(fresh: CrossRtProgress, p: CrossRtProgress, wants: bool)
    requires
        call_ensures(CrossRtProgress::new, (), fresh),
        call_ensures(CrossRtProgress::wants_driver, (&p,), wants),
    ensures
        !fresh.driver_ready,
        !fresh.inner_done,
        wants <==> !p.driver_ready,
{
}

/// A finished driver is taken note of for good. The channel is polled next unless it was done before,
/// and then the stream is over exactly if the driver has finished.
pub proof fn law_driver_polled(p: &mut CrossRtProgress, driver: bool, r: AfterDriver)
    requires
        call_ensures(CrossRtProgress::driver_polled, (p, driver), r),
    ensures
        driver || old(p).driver_ready <==> final(p).driver_ready,
        final(p).inner_done == old(p).inner_done,
        !old(p).inner_done <==> r == AfterDriver::PollInner,
        old(p).inner_done && final(p).driver_ready <==> r == AfterDriver::End,
        old(p).inner_done && !final(p).driver_ready <==> r == AfterDriver::Wait,
{
}

/// An item of the channel is handed on as it is; a closed channel is taken note of for good and ends
/// the stream exactly if the driver has finished; a channel that has nothing yet changes nothing.
pub proof fn law_inner_polled<T>(p: &mut CrossRtProgress, inner: InnerPoll<T>, r: StreamPoll<T>)
    requires
        !old(p).inner_done,
        call_ensures(CrossRtProgress::inner_polled::<T>, (p, inner), r),
    ensures
        final(p).driver_ready == old(p).driver_ready,
        final(p).inner_done <==> inner is Closed,
        inner matches InnerPoll::Item(item) ==> r == StreamPoll::Item(item),
        inner is Pending ==> r is Pending,
        inner is Closed ==> (r is Ended <==> old(p).driver_ready),
        inner is Closed ==> (r is Pending <==> !old(p).driver_ready),
{
}

/// A poll hands on an item of a channel that was not done before, ends exactly when by then both
/// sides are done, and otherwise waits. A side that is done stays done.
pub proof fn law_poll_next<T>(
    p: &mut CrossRtProgress,
    driver: bool,
    inner: InnerPoll<T>,
    r: StreamPoll<T>,
)
    requires
        call_ensures(CrossRtProgress::poll_next::<T>, (p, driver, inner), r),
    ensures
        final(p).driver_ready <==> old(p).driver_ready || driver,
        final(p).inner_done <==> old(p).inner_done || inner is Closed,
        !old(p).inner_done ==> (inner matches InnerPoll::Item(item) ==> r == StreamPoll::Item(
            item,
        )),
        r is Item ==> !old(p).inner_done && inner is Item,
        r is Ended <==> final(p).driver_ready && final(p).inner_done,
        r is Pending <==> !(final(p).driver_ready && final(p).inner_done) && (old(p).inner_done
            || inner !is Item),
{
}

/// Polling in two halves comes to the same as polling at once.
pub proof fn law_two_halves_are_a_poll<T>(
    whole: &mut CrossRtProgress,
    first: &mut CrossRtProgress,
    second: &mut CrossRtProgress,
    driver: bool,
    inner: InnerPoll<T>,
    r: StreamPoll<T>,
    after: AfterDriver,
    s: StreamPoll<T>,
)
    requires
        call_ensures(CrossRtProgress::poll_next::<T>, (whole, driver, inner), r),
        *old(first) == *old(whole),
        call_ensures(CrossRtProgress::driver_polled, (first, driver), after),
        *old(second) == *final(first),
        after is PollInner ==> call_ensures(CrossRtProgress::inner_polled::<T>, (second, inner), s),
    ensures
        after is PollInner ==> r == s && *final(whole) == *final(second),
        after is Wait ==> r is Pending && *final(whole) == *final(first),
        after is End ==> r is Ended && *final(whole) == *final(first),
{
}

/// The driver reports nothing of a task that finished, and otherwise that its worker is gone or what
/// its panic said.
pub proof fn law_driver_report(result: Result<(), JobError>, r: Option<String>)
    requires
        call_ensures(driver_report, (result,), r),
    ensures
        result is Ok <==> r is None,
        result matches Err(JobError::WorkerGone) ==> (r matches Some(text) && text@
            == "Worker gone"@),
        result matches Err(JobError::Panic { msg }) ==> (r matches Some(text) && text@
            == "Panic: "@ + msg@),
{
}

/// An item that was pulled is sent as it is, the next one is pulled once it was sent, and the task
/// stops with its source or its reader.
pub proof fn law_forward_step<T>(event: ForwardEvent<T>, r: ForwardAction<T>)
    requires
        call_ensures(forward_step::<T>, (event,), r),
    ensures
        event matches ForwardEvent::SourceItem(item) ==> r == ForwardAction::Send(item),
        event is Sent <==> r is PullSource,
        event is SourceEnd || event is ReaderGone <==> r is Stop,
{
}

} // verus!
