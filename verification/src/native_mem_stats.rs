//! The cached total of native memory, as last read from the allocator.
//!
//! Reading the allocator's statistics is too slow for the allocation path, so a timer reads them
//! once a second and everything else looks at the cached value.

use vstd::prelude::*;

verus! {

/// What one tick of the refresh timer got from the allocator.
#[derive(Debug, Clone, Copy, PartialEq, Eq, Structural)]
pub enum Reading {
    /// The allocator reported this many bytes; it reports nothing positive when it has no
    /// statistics.
    Bytes(i64),
    /// The reading panicked.
    Panicked,
}

/// What the refresh timer does after a tick. It always goes on to the next tick.
#[derive(Debug, Clone, Copy, PartialEq, Eq, Structural)]
pub enum TickReport {
    /// Nothing to say.
    Quiet,
    /// The failed reading is logged; the next tick tries again.
    LogAndRetry,
}

/// The cached value after a tick that got `reading`: a positive reading replaces it, and anything
/// else leaves it alone.
pub open spec fn refreshed(cached: usize, reading: Reading) -> usize {
    match reading {
        Reading::Bytes(bytes) => if bytes > 0 {
            bytes as usize
        } else {
            cached
        },
        Reading::Panicked => cached,
    }
}

/// What is reported of a tick that got `reading`.
pub open spec fn tick_report(reading: Reading) -> TickReport {
    match reading {
        Reading::Bytes(_) => TickReport::Quiet,
        Reading::Panicked => TickReport::LogAndRetry,
    }
}

/// Applies one reading to a cached total.
pub fn refresh_cached(cached: &mut usize, reading: Reading) -> (report: TickReport)
    ensures
        *final(cached) == refreshed(*old(cached), reading),
        report == tick_report(reading),
{
    match reading {
        Reading::Bytes(bytes) => {
            if bytes > 0 {
                *cached = #[verifier::truncate]
                (bytes as usize);
            }
            TickReport::Quiet
        },
        Reading::Panicked => TickReport::LogAndRetry,
    }
}

/// The cache itself.
#[derive(Debug, PartialEq, Eq, Structural)]
pub struct MemStats {
    /// The last positive reading, or zero before the first one.
    pub cached_allocated_bytes: usize,
}

impl MemStats {
    /// The cache before the first tick.
    pub fn new() -> (r: Self)
        ensures
            r.cached_allocated_bytes == 0,
    {
        MemStats { cached_allocated_bytes: 0 }
    }

    /// One tick of the refresh timer.
    pub fn tick(&mut self, reading: Reading) -> (report: TickReport)
        ensures
            final(self).cached_allocated_bytes == refreshed(
                old(self).cached_allocated_bytes,
                reading,
            ),
            report == tick_report(reading),
    {
        refresh_cached(&mut self.cached_allocated_bytes, reading)
    }
}

/// The cached total of native memory; zero if the timer has not run yet.
pub fn allocated_bytes(stats: &MemStats) -> (r: usize)
    ensures
        r == stats.cached_allocated_bytes,
{
    stats.cached_allocated_bytes
}

/// Sets the cached value directly. For testing only.
pub fn set_allocated_bytes_for_test(stats: &mut MemStats, bytes: usize)
    ensures
        final(stats).cached_allocated_bytes == bytes,
{
    stats.cached_allocated_bytes = bytes;
}

/// The cached value after a run of ticks.
pub open spec fn after_ticks(cached: usize, readings: Seq<Reading>) -> usize
    decreases readings.len(),
{
    if readings.len() == 0 {
        cached
    } else {
        refreshed(after_ticks(cached, readings.drop_last()), readings.last())
    }
}

/// An allocator that never reports anything positive leaves the cached value where it was, however
/// many ticks fail or panic: starting from zero it stays zero.
pub proof fn law_unavailable_allocator_keeps_cache(cached: usize, readings: Seq<Reading>)
    requires
        forall|i: int|
            0 <= i < readings.len() ==> (#[trigger] readings[i] matches Reading::Bytes(b) ==> b
                <= 0),
    ensures
        after_ticks(cached, readings) == cached,
    decreases readings.len(),
{
    if readings.len() > 0 {
        assert(readings.last() == readings[readings.len() - 1]);
        assert forall|i: int| 0 <= i < readings.drop_last().len() implies (
        #[trigger] readings.drop_last()[i] matches Reading::Bytes(b) ==> b <= 0) by {
            assert(readings.drop_last()[i] == readings[i]);
        }
        law_unavailable_allocator_keeps_cache(cached, readings.drop_last());
    }
}

/// A positive reading is what the cache holds after it, whatever came before.
pub proof fn law_last_positive_reading_wins(cached: usize, readings: Seq<Reading>, bytes: i64)
    requires
        bytes > 0,
    ensures
        after_ticks(cached, readings.push(Reading::Bytes(bytes))) == bytes as usize,
{
    assert(readings.push(Reading::Bytes(bytes)).drop_last() =~= readings);
}

} // verus!
