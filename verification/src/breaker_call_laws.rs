//! What each call of the circuit breaker gives, in plain figures, and how calls relate.
//!
//! A law that speaks of a call holds for every call with these arguments and this result: `b` is the
//! breaker that was called, with its fields before the call and after it.

use vstd::prelude::*;

use crate::circuit_breaker::{
    get, get_mut, init, refresh, register_stats_callback, BreakerCell, BreakerStats,
    CircuitBreakError, NativeCircuitBreaker, StatsCallback, StatsPush,
};
use crate::human_size::human_text;
use crate::native_mem_stats::{
    allocated_bytes, refresh_cached, set_allocated_bytes_for_test, MemStats, Reading, TickReport,
};
use crate::text::decimal_text;
use crate::text_laws::{law_decimal_text_reads_back, reads_as};

verus! {

/// A new breaker has the limits and the overhead that it was given, and has counted nothing.
pub proof fn law_new_breaker(
    request_limit: usize,
    node_limit: usize,
    overhead_millionths: u64,
    b: NativeCircuitBreaker,
)
    requires
        call_ensures(
            NativeCircuitBreaker::new,
            (request_limit, node_limit, overhead_millionths),
            b,
        ),
    ensures
        b.request_limit == request_limit,
        b.node_limit == node_limit,
        b.overhead_millionths == overhead_millionths,
        b.request_used_bytes == 0,
        b.cached_total_bytes == 0,
        b.child_tripped == 0,
        b.node_tripped == 0,
{
}

/// An empty cell takes the breaker that it is initialised with: its limits and its overhead are the
/// ones given, and it has counted nothing. A full cell keeps the breaker that it has and says so.
pub proof fn law_init(
    cell: &mut BreakerCell,
    request_limit: usize,
    node_limit: usize,
    overhead_millionths: u64,
    r: Result<(), &'static str>,
)
    requires
        call_ensures(init, (cell, request_limit, node_limit, overhead_millionths), r),
    ensures
        old(cell)@ is None ==> r is Ok,
        old(cell)@ is None ==> (final(cell)@ matches Some(b) && {
            &&& b.request_limit == request_limit
            &&& b.node_limit == node_limit
            &&& b.overhead_millionths == overhead_millionths
            &&& b.request_used_bytes == 0
            &&& b.cached_total_bytes == 0
            &&& b.child_tripped == 0
            &&& b.node_tripped == 0
        }),
        old(cell)@ is Some ==> (r matches Err(text) && text@
            == "circuit breaker already initialized"@),
        old(cell)@ is Some ==> final(cell)@ == old(cell)@,
{
}

/// A new cell is empty, reading a cell gives what it holds, and of two initialisations in a row the
/// second fails and the first stays.
pub proof fn law_first_init_stays(
    empty: BreakerCell,
    first: &mut BreakerCell,
    second: &mut BreakerCell,
    a: (usize, usize, u64),
    b: (usize, usize, u64),
    r: Result<(), &'static str>,
    s: Result<(), &'static str>,
    found: Option<&NativeCircuitBreaker>,
)
    requires
        call_ensures(BreakerCell::new, (), empty),
        *old(first) == empty,
        call_ensures(init, (first, a.0, a.1, a.2), r),
        *old(second) == *final(first),
        call_ensures(init, (second, b.0, b.1, b.2), s),
        call_ensures(get, (&*final(second),), found),
    ensures
        r is Ok,
        s is Err,
        found matches Some(breaker) && breaker.request_limit == a.0 && breaker.node_limit == a.1
            && breaker.overhead_millionths == a.2 && breaker.request_used_bytes == 0,
{
}

/// Reading a cell gives the breaker in it, and nothing exactly if it is empty.
pub proof fn law_get(cell: BreakerCell, r: Option<&NativeCircuitBreaker>)
    requires
        call_ensures(get, (&cell,), r),
    ensures
        r is None <==> cell@ is None,
        r matches Some(b) ==> cell@ == Some(*b),
{
}

/// A breaker that is changed in place is the one that the cell holds afterwards.
pub proof fn law_get_mut_reaches_the_cell(
    cell: &mut BreakerCell,
    r: Option<&mut NativeCircuitBreaker>,
)
    requires
        call_ensures(get_mut, (cell,), r),
    ensures
        r is None <==> old(cell)@ is None,
        r is None ==> final(cell)@ is None,
        r matches Some(b) ==> old(cell)@ == Some(*b) && final(cell)@ == Some(*final(b)),
{
}

/// The node level lets every request through that does not take the cached total over its limit.
pub proof fn law_node_level_admits_what_fits(b: NativeCircuitBreaker, bytes: usize)
    ensures
        b.cached_total_bytes + bytes <= b.node_limit ==> b.node_admits(bytes),
        b.node_limit == 0 ==> b.node_admits(bytes),
        b.node_limit != 0 && b.cached_total_bytes + bytes > b.node_limit ==> !b.node_admits(bytes),
{
}

/// The request level lets every request through whose bytes, with what is reserved and the overhead
/// in millionths, do not go over its limit, and no other.
pub proof fn law_request_level_admits_what_fits(b: NativeCircuitBreaker, bytes: usize)
    ensures
        b.request_limit == 0 ==> b.request_admits(bytes),
        b.request_limit != 0 && b.request_used_bytes + bytes > usize::MAX ==> !b.request_admits(
            bytes,
        ),
        b.request_limit != 0 && b.request_used_bytes + bytes <= usize::MAX ==> (b.request_admits(
            bytes,
        ) <==> b.request_limit * 1_000_000 - b.request_used_bytes * b.overhead_millionths - bytes
            * b.overhead_millionths >= 0),
{
    let used = b.request_used_bytes as int;
    let more = bytes as int;
    let overhead = b.overhead_millionths as int;
    assert((used + more) * overhead == used * overhead + more * overhead) by (nonlinear_arith);
}

/// A request is granted exactly when it fits at both levels. It is then counted, and nothing else
/// changes.
pub proof fn law_check_grants_what_fits(
    b: &mut NativeCircuitBreaker,
    bytes: usize,
    r: Result<(), CircuitBreakError>,
)
    requires
        call_ensures(NativeCircuitBreaker::check_and_reserve, (b, bytes), r),
    ensures
        r is Ok <==> {
            &&& old(b).node_limit == 0 || old(b).cached_total_bytes + bytes <= old(b).node_limit
            &&& old(b).request_limit == 0 || (old(b).request_used_bytes + bytes <= usize::MAX && old(b).request_used_bytes * old(b).overhead_millionths + bytes * old(b).overhead_millionths
                <= old(b).request_limit * 1_000_000)
        },
        r is Ok && old(b).request_used_bytes + bytes <= usize::MAX ==> final(b).request_used_bytes
            == old(b).request_used_bytes + bytes,
        r is Ok && old(b).request_used_bytes + bytes > usize::MAX ==> final(b).request_used_bytes
            == old(b).request_used_bytes + bytes - usize::MAX - 1,
        r is Ok ==> final(b).child_tripped == old(b).child_tripped,
        r is Ok ==> final(b).node_tripped == old(b).node_tripped,
        final(b).request_limit == old(b).request_limit,
        final(b).node_limit == old(b).node_limit,
        final(b).overhead_millionths == old(b).overhead_millionths,
        final(b).cached_total_bytes == old(b).cached_total_bytes,
{
    law_request_level_admits_what_fits(*old(b), bytes);
    law_node_level_admits_what_fits(*old(b), bytes);
}

/// A refused request reserves nothing. The request level is asked first, and the level that refuses
/// gives its limit and what it counted in the error and trips once.
pub proof fn law_check_refuses_what_does_not_fit(
    b: &mut NativeCircuitBreaker,
    bytes: usize,
    r: Result<(), CircuitBreakError>,
)
    requires
        call_ensures(NativeCircuitBreaker::check_and_reserve, (b, bytes), r),
        r is Err,
    ensures
        ({
            let e = r->Err_0;
            let at_request = old(b).request_limit != 0 && (old(b).request_used_bytes + bytes
                > usize::MAX || old(b).request_used_bytes * old(b).overhead_millionths + bytes
                * old(b).overhead_millionths > old(b).request_limit * 1_000_000);
            &&& e.bytes_wanted == bytes
            &&& final(b).request_used_bytes == old(b).request_used_bytes
            &&& at_request ==> e.bytes_limit == old(b).request_limit
            &&& at_request ==> e.current_used == old(b).request_used_bytes
            &&& at_request ==> final(b).node_tripped == old(b).node_tripped
            &&& at_request && old(b).child_tripped < u64::MAX ==> final(b).child_tripped == old(b).child_tripped + 1
            &&& at_request && old(b).child_tripped == u64::MAX ==> final(b).child_tripped == 0
            &&& !at_request ==> e.bytes_limit == old(b).node_limit
            &&& !at_request ==> e.current_used == old(b).cached_total_bytes
            &&& !at_request ==> final(b).child_tripped == old(b).child_tripped
            &&& !at_request && old(b).node_tripped < u64::MAX ==> final(b).node_tripped == old(b).node_tripped + 1
            &&& !at_request && old(b).node_tripped == u64::MAX ==> final(b).node_tripped == 0
        }),
{
    law_request_level_admits_what_fits(*old(b), bytes);
    law_node_level_admits_what_fits(*old(b), bytes);
}

/// Giving bytes back takes them off the counter, which wraps below zero, and touches nothing else.
pub proof fn law_release(b: &mut NativeCircuitBreaker, bytes: usize)
    requires
        call_ensures(NativeCircuitBreaker::release, (b, bytes), ()),
    ensures
        bytes <= old(b).request_used_bytes ==> final(b).request_used_bytes == old(b).request_used_bytes - bytes,
        bytes > old(b).request_used_bytes ==> final(b).request_used_bytes == old(b).request_used_bytes - bytes + usize::MAX + 1,
        final(b).request_limit == old(b).request_limit,
        final(b).node_limit == old(b).node_limit,
        final(b).overhead_millionths == old(b).overhead_millionths,
        final(b).cached_total_bytes == old(b).cached_total_bytes,
        final(b).child_tripped == old(b).child_tripped,
        final(b).node_tripped == old(b).node_tripped,
{
}

/// Reserving and giving back leaves the breaker as it was, so that the same request is granted again.
pub proof fn law_release_undoes_check(
    reserved: &mut NativeCircuitBreaker,
    released: &mut NativeCircuitBreaker,
    again: &mut NativeCircuitBreaker,
    bytes: usize,
    r: Result<(), CircuitBreakError>,
    s: Result<(), CircuitBreakError>,
)
    requires
        call_ensures(NativeCircuitBreaker::check_and_reserve, (reserved, bytes), r),
        r is Ok,
        *old(released) == *final(reserved),
        call_ensures(NativeCircuitBreaker::release, (released, bytes), ()),
        *old(again) == *final(released),
        call_ensures(NativeCircuitBreaker::check_and_reserve, (again, bytes), s),
    ensures
        *final(released) == *old(reserved),
        s is Ok,
        *final(again) == *final(reserved),
{
}

/// A setter changes its setting to the value given, and nothing else.
pub proof fn law_setters(
    request: &mut NativeCircuitBreaker,
    node: &mut NativeCircuitBreaker,
    overhead: &mut NativeCircuitBreaker,
    request_limit: usize,
    node_limit: usize,
    overhead_millionths: u64,
)
    requires
        call_ensures(NativeCircuitBreaker::set_request_limit, (request, request_limit), ()),
        call_ensures(NativeCircuitBreaker::set_node_limit, (node, node_limit), ()),
        call_ensures(NativeCircuitBreaker::set_overhead, (overhead, overhead_millionths), ()),
    ensures
        *final(request) == (NativeCircuitBreaker { request_limit, ..*old(request) }),
        *final(node) == (NativeCircuitBreaker { node_limit, ..*old(node) }),
        *final(overhead) == (NativeCircuitBreaker { overhead_millionths, ..*old(overhead) }),
{
}

/// Each figure is shown under its own name: as it is where it fits, and with the bits that it has
/// where it does not.
pub proof fn law_stats_show_the_counters(b: NativeCircuitBreaker, r: BreakerStats)
    requires
        call_ensures(NativeCircuitBreaker::stats, (&b,), r),
    ensures
        b.request_used_bytes <= i64::MAX ==> r.request_used_bytes == b.request_used_bytes,
        b.cached_total_bytes <= i64::MAX ==> r.total_used_bytes == b.cached_total_bytes,
        b.child_tripped <= i64::MAX ==> r.child_tripped == b.child_tripped,
        b.node_tripped <= i64::MAX ==> r.node_tripped == b.node_tripped,
        r.request_used_bytes == b.request_used_bytes as i64,
        r.total_used_bytes == b.cached_total_bytes as i64,
        r.child_tripped == b.child_tripped as i64,
        r.node_tripped == b.node_tripped as i64,
{
}

/// A grant shows as so many bytes more, and a refusal as one trip more of the level that refused; the
/// other figures stay.
pub proof fn law_stats_follow_the_checks(
    b: &mut NativeCircuitBreaker,
    bytes: usize,
    r: Result<(), CircuitBreakError>,
    before: BreakerStats,
    after: BreakerStats,
)
    requires
        call_ensures(NativeCircuitBreaker::stats, (&*old(b),), before),
        call_ensures(NativeCircuitBreaker::check_and_reserve, (b, bytes), r),
        call_ensures(NativeCircuitBreaker::stats, (&*final(b),), after),
        old(b).request_used_bytes + bytes <= usize::MAX,
        old(b).request_used_bytes + bytes <= i64::MAX,
        old(b).child_tripped < i64::MAX,
        old(b).node_tripped < i64::MAX,
    ensures
        r is Ok ==> after.request_used_bytes == before.request_used_bytes + bytes,
        r is Ok ==> after.child_tripped == before.child_tripped,
        r is Ok ==> after.node_tripped == before.node_tripped,
        r is Err ==> after.request_used_bytes == before.request_used_bytes,
        r is Err && old(b).node_limit == 0 ==> after.child_tripped == before.child_tripped + 1
            && after.node_tripped == before.node_tripped,
        r is Err && old(b).request_limit == 0 ==> after.node_tripped == before.node_tripped + 1
            && after.child_tripped == before.child_tripped,
        r is Err ==> after.child_tripped + after.node_tripped == before.child_tripped
            + before.node_tripped + 1,
        after.total_used_bytes == before.total_used_bytes,
{
}

/// Figures are pushed to the function that was registered last, and are those that are shown;
/// nothing is pushed while none is registered.
pub proof fn law_push_goes_to_the_registered_function(
    none: StatsCallback,
    callback: &mut StatsCallback,
    address: usize,
    b: NativeCircuitBreaker,
    shown: BreakerStats,
    unheard: Option<StatsPush>,
    r: Option<StatsPush>,
)
    requires
        call_ensures(StatsCallback::new, (), none),
        call_ensures(NativeCircuitBreaker::push_stats, (&b, &none), unheard),
        call_ensures(register_stats_callback, (callback, address), ()),
        call_ensures(NativeCircuitBreaker::push_stats, (&b, &*final(callback)), r),
        call_ensures(NativeCircuitBreaker::stats, (&b,), shown),
    ensures
        unheard is None,
        address == 0 ==> r is None,
        address != 0 ==> (r matches Some(push) && push.address == address && push.stats
            == shown),
{
}

/// A positive reading becomes the cached total of the breaker and nothing else changes; any other
/// reading changes nothing at all. Only a panic is logged.
pub proof fn law_refresh_total(b: &mut NativeCircuitBreaker, reading: Reading, report: TickReport)
    requires
        call_ensures(NativeCircuitBreaker::refresh_total, (b, reading), report),
    ensures
        reading matches Reading::Bytes(n) ==> 0 < n <= usize::MAX ==> final(b).cached_total_bytes
            == n,
        reading matches Reading::Bytes(n) ==> n > 0 ==> final(b).cached_total_bytes == n as usize,
        reading matches Reading::Bytes(n) ==> n <= 0 ==> *final(b) == *old(b),
        reading is Panicked ==> *final(b) == *old(b),
        *final(b) == (NativeCircuitBreaker {
            cached_total_bytes: final(b).cached_total_bytes,
            ..*old(b)
        }),
        report is LogAndRetry <==> reading is Panicked,
{
}

/// A tick reaches the breaker in the cell, and passes over an empty cell.
pub proof fn law_refresh(cell: &mut BreakerCell, reading: Reading, report: TickReport)
    requires
        call_ensures(refresh, (cell, reading), report),
    ensures
        old(cell)@ is None ==> final(cell)@ is None,
        old(cell)@ matches Some(b) ==> (final(cell)@ matches Some(after) && {
            &&& after == (NativeCircuitBreaker {
                cached_total_bytes: after.cached_total_bytes,
                ..b
            })
            &&& (reading matches Reading::Bytes(n) ==> 0 < n <= usize::MAX
                ==> after.cached_total_bytes == n)
            &&& (reading matches Reading::Bytes(n) ==> n > 0 ==> after.cached_total_bytes
                == n as usize)
            &&& (reading matches Reading::Bytes(n) ==> n <= 0 ==> after == b)
            &&& reading is Panicked ==> after == b
        }),
        report is LogAndRetry <==> reading is Panicked,
{
}

/// After a positive reading the node level grants exactly what fits between it and the limit.
pub proof fn law_reading_decides_the_node_level(
    ticked: &mut NativeCircuitBreaker,
    asked: &mut NativeCircuitBreaker,
    n: i64,
    bytes: usize,
    report: TickReport,
    r: Result<(), CircuitBreakError>,
)
    requires
        0 < n <= usize::MAX,
        call_ensures(NativeCircuitBreaker::refresh_total, (ticked, Reading::Bytes(n)), report),
        *old(asked) == *final(ticked),
        old(ticked).request_limit == 0,
        old(ticked).node_limit != 0,
        call_ensures(NativeCircuitBreaker::check_and_reserve, (asked, bytes), r),
    ensures
        r is Ok <==> n + bytes <= old(ticked).node_limit,
        r matches Err(e) ==> e.current_used == n && e.bytes_limit == old(ticked).node_limit,
{
    law_node_level_admits_what_fits(*old(asked), bytes);
    law_request_level_admits_what_fits(*old(asked), bytes);
}

/// The statistics start at zero, keep the last positive reading, and are read and set as they are.
pub proof fn law_mem_stats(
    fresh: MemStats,
    ticked: &mut MemStats,
    set: &mut MemStats,
    reading: Reading,
    report: TickReport,
    bytes: usize,
    read: usize,
    read_fresh: usize,
)
    requires
        call_ensures(MemStats::new, (), fresh),
        call_ensures(allocated_bytes, (&fresh,), read_fresh),
        call_ensures(MemStats::tick, (ticked, reading), report),
        call_ensures(set_allocated_bytes_for_test, (set, bytes), ()),
        call_ensures(allocated_bytes, (&*final(set),), read),
    ensures
        read_fresh == 0,
        read == bytes,
        reading matches Reading::Bytes(n) ==> 0 < n <= usize::MAX
            ==> final(ticked).cached_allocated_bytes == n,
        reading matches Reading::Bytes(n) ==> n > 0 ==> final(ticked).cached_allocated_bytes
            == n as usize,
        reading matches Reading::Bytes(n) ==> n <= 0 ==> *final(ticked) == *old(ticked),
        reading is Panicked ==> *final(ticked) == *old(ticked),
        report is LogAndRetry <==> reading is Panicked,
{
}

/// A reading that is applied to a cached total replaces it if it is positive and leaves it otherwise.
pub proof fn law_refresh_cached(cached: &mut usize, reading: Reading, report: TickReport)
    requires
        call_ensures(refresh_cached, (cached, reading), report),
    ensures
        reading matches Reading::Bytes(n) ==> 0 < n <= usize::MAX ==> *final(cached) == n,
        reading matches Reading::Bytes(n) ==> n > 0 ==> *final(cached) == n as usize,
        reading matches Reading::Bytes(n) ==> n <= 0 ==> *final(cached) == *old(cached),
        reading is Panicked ==> *final(cached) == *old(cached),
        report is LogAndRetry <==> reading is Panicked,
{
}

/// The text of a refusal names what the level would have counted with the request, and its limit,
/// each in bytes and for people.
pub proof fn law_message_names_the_figures(e: CircuitBreakError, r: String, total: nat)
    requires
        call_ensures(CircuitBreakError::message, (&e,), r),
        total == e.current_used + e.bytes_wanted,
    ensures
        r@ == "[native_request] Data too large, data would be ["@ + decimal_text(total) + "/"@
            + human_text(total) + "], which is larger than the limit of ["@ + decimal_text(
            e.bytes_limit as nat,
        ) + "/"@ + human_text(e.bytes_limit as nat) + "]"@,
        reads_as(decimal_text(total), total as int),
        reads_as(decimal_text(e.bytes_limit as nat), e.bytes_limit as int),
{
    law_decimal_text_reads_back(total);
    law_decimal_text_reads_back(e.bytes_limit as nat);
}

/// An encoded refusal is its prefix, the bytes wanted, the limit, the bytes used and the text, in
/// this order, with colons between them.
pub proof fn law_encoding_holds_the_figures(e: CircuitBreakError, text: String, r: String)
    requires
        call_ensures(CircuitBreakError::message, (&e,), text),
        call_ensures(CircuitBreakError::to_encoded_string, (&e,), r),
    ensures
        r@ == "CB:"@ + decimal_text(e.bytes_wanted as nat) + ":"@ + decimal_text(
            e.bytes_limit as nat,
        ) + ":"@ + decimal_text(e.current_used as nat) + ":"@ + text@,
        reads_as(decimal_text(e.bytes_wanted as nat), e.bytes_wanted as int),
        reads_as(decimal_text(e.bytes_limit as nat), e.bytes_limit as int),
        reads_as(decimal_text(e.current_used as nat), e.current_used as int),
{
    law_decimal_text_reads_back(e.bytes_wanted as nat);
    law_decimal_text_reads_back(e.bytes_limit as nat);
    law_decimal_text_reads_back(e.current_used as nat);
}

} // verus!
