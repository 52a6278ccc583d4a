//! Circuit breaker for the native memory of queries.
//!
//! Every allocation passes two checks:
//! - request level: `(request_used + N) × overhead > request_limit` trips;
//! - node level: `cached_total + N > node_limit` trips.
//!
//! A limit of zero switches its level off; what is granted is counted all the same. The overhead is
//! a fixed-point factor in millionths, and the comparison is exact.

use once_cell::sync::OnceCell;
use vstd::prelude::*;

use crate::human_size::{human_bytes, human_bytes_wide, human_text};
use crate::native_mem_stats::{refresh_cached, refreshed, tick_report, Reading, TickReport};
use crate::text::{decimal, decimal_text};

verus! {

/// The overhead factor one, in millionths.
pub const MILLION: u64 = 1000000;

/// The next value of a trip counter, which wraps.
pub open spec fn bumped(count: u64) -> u64 {
    if count == u64::MAX {
        0
    } else {
        (count + 1) as u64
    }
}

/// `used` and `bytes` together in the counter's wrapping arithmetic.
pub open spec fn wrapping_more(used: usize, bytes: usize) -> usize {
    if used + bytes <= usize::MAX {
        (used + bytes) as usize
    } else {
        (used + bytes - usize::MAX - 1) as usize
    }
}

/// `used` less `bytes` in the counter's wrapping arithmetic.
pub open spec fn wrapping_less(used: usize, bytes: usize) -> usize {
    if bytes <= used {
        (used - bytes) as usize
    } else {
        (used - bytes + usize::MAX + 1) as usize
    }
}

/// Limits, counters and the cached total that the two checks work on.
#[derive(Debug, PartialEq, Eq, Structural)]
pub struct NativeCircuitBreaker {
    /// Request-level limit in bytes; zero switches the level off.
    pub request_limit: usize,
    /// Node-level limit in bytes; zero switches the level off.
    pub node_limit: usize,
    /// Bytes reserved by the active queries.
    pub request_used_bytes: usize,
    /// Total native memory as last read from the allocator.
    pub cached_total_bytes: usize,
    /// Overhead factor in millionths.
    pub overhead_millionths: u64,
    /// How often the request level tripped.
    pub child_tripped: u64,
    /// How often the node level tripped.
    pub node_tripped: u64,
}

/// A refused allocation.
#[derive(Debug, Clone, PartialEq, Eq, Structural)]
pub struct CircuitBreakError {
    /// Bytes that were asked for.
    pub bytes_wanted: usize,
    /// The limit that was exceeded.
    pub bytes_limit: usize,
    /// What the exceeded level counted before the request.
    pub current_used: usize,
}

/// The figures that are shown to the outside.
#[derive(Debug, Clone, Copy, PartialEq, Eq, Structural)]
pub struct BreakerStats {
    /// Bytes reserved by the active queries.
    pub request_used_bytes: i64,
    /// Total native memory as last read from the allocator.
    pub total_used_bytes: i64,
    /// How often the request level tripped.
    pub child_tripped: i64,
    /// How often the node level tripped.
    pub node_tripped: i64,
}

impl NativeCircuitBreaker {
    /// A breaker with nothing reserved, nothing read and nothing tripped.
    pub open spec fn fresh(request_limit: usize, node_limit: usize, overhead: u64) -> Self {
        NativeCircuitBreaker {
            request_limit,
            node_limit,
            request_used_bytes: 0,
            cached_total_bytes: 0,
            overhead_millionths: overhead,
            child_tripped: 0,
            node_tripped: 0,
        }
    }

    /// Whether the request level lets `bytes` more through. A sum that the counter cannot hold is
    /// refused.
    pub open spec fn request_admits(self, bytes: usize) -> bool {
        self.request_limit == 0 || {
            &&& self.request_used_bytes + bytes <= usize::MAX
            &&& (self.request_used_bytes + bytes) * self.overhead_millionths <= self.request_limit
                * MILLION
        }
    }

    /// Whether the node level lets `bytes` more through.
    pub open spec fn node_admits(self, bytes: usize) -> bool {
        self.node_limit == 0 || self.cached_total_bytes + bytes <= self.node_limit
    }

    /// Whether both levels let `bytes` more through.
    pub open spec fn admits(self, bytes: usize) -> bool {
        self.request_admits(bytes) && self.node_admits(bytes)
    }

    /// The error for `bytes` that are not admitted; the request level is checked first.
    pub open spec fn refusal(self, bytes: usize) -> CircuitBreakError {
        if !self.request_admits(bytes) {
            CircuitBreakError {
                bytes_wanted: bytes,
                bytes_limit: self.request_limit,
                current_used: self.request_used_bytes,
            }
        } else {
            self.node_refusal(bytes)
        }
    }

    /// The error for `bytes` that the node level does not admit.
    pub open spec fn node_refusal(self, bytes: usize) -> CircuitBreakError {
        CircuitBreakError {
            bytes_wanted: bytes,
            bytes_limit: self.node_limit,
            current_used: self.cached_total_bytes,
        }
    }

    /// The breaker after the request level alone has looked at `bytes`.
    pub open spec fn after_request_check(self, bytes: usize) -> Self {
        if self.request_admits(bytes) {
            NativeCircuitBreaker {
                request_used_bytes: wrapping_more(self.request_used_bytes, bytes),
                ..self
            }
        } else {
            NativeCircuitBreaker { child_tripped: bumped(self.child_tripped), ..self }
        }
    }

    /// The breaker after the node level alone has looked at `bytes`.
    pub open spec fn after_node_check(self, bytes: usize) -> Self {
        if self.node_admits(bytes) {
            self
        } else {
            NativeCircuitBreaker { node_tripped: bumped(self.node_tripped), ..self }
        }
    }

    /// The breaker after `bytes` were asked for: reserved if both levels admit them, and otherwise
    /// one trip more at the level that refused, with nothing reserved.
    pub open spec fn after_reserve(self, bytes: usize) -> Self {
        if self.request_admits(bytes) && !self.node_admits(bytes) {
            self.after_node_check(bytes)
        } else {
            self.after_request_check(bytes)
        }
    }

    /// The breaker after `bytes` were given back.
    pub open spec fn after_release(self, bytes: usize) -> Self {
        NativeCircuitBreaker {
            request_used_bytes: wrapping_less(self.request_used_bytes, bytes),
            ..self
        }
    }

    /// The figures shown to the outside.
    pub open spec fn shown(self) -> BreakerStats {
        BreakerStats {
            request_used_bytes: self.request_used_bytes as i64,
            total_used_bytes: self.cached_total_bytes as i64,
            child_tripped: self.child_tripped as i64,
            node_tripped: self.node_tripped as i64,
        }
    }

    /// A breaker with the given limits and overhead.
    pub fn new(request_limit: usize, node_limit: usize, overhead_millionths: u64) -> (r: Self)
        ensures
            r == Self::fresh(request_limit, node_limit, overhead_millionths),
    {
        NativeCircuitBreaker {
            request_limit,
            node_limit,
            request_used_bytes: 0,
            cached_total_bytes: 0,
            overhead_millionths,
            child_tripped: 0,
            node_tripped: 0,
        }
    }

    /// Checks both levels and reserves `bytes`. A request that either level refuses reserves
    /// nothing and counts as one trip of that level.
    pub fn check_and_reserve(&mut self, bytes: usize) -> (r: Result<(), CircuitBreakError>)
        ensures
            r is Ok <==> old(self).admits(bytes),
            r matches Err(e) ==> e == old(self).refusal(bytes),
            *final(self) == old(self).after_reserve(bytes),
    {
        // Level 1: the queries together.
        match self.check_request(bytes) {
            Ok(()) => {},
            Err(e) => {
                return Err(e);
            },
        }
        // Level 2: the node.
        match self.check_node(bytes) {
            Ok(()) => Ok(()),
            Err(e) => {
                self.request_used_bytes = self.request_used_bytes.wrapping_sub(bytes);
                Err(e)
            },
        }
    }

    /// Gives `bytes` back. The counter wraps below zero.
    pub fn release(&mut self, bytes: usize)
        ensures
            *final(self) == old(self).after_release(bytes),
    {
        self.request_used_bytes = self.request_used_bytes.wrapping_sub(bytes);
    }

    /// Level 1: does `(request_used + bytes) × overhead` exceed the request limit? Reserves the
    /// bytes if not. While the level is off the bytes are counted and nothing else.
    pub(crate) fn check_request(&mut self, bytes: usize) -> (r: Result<(), CircuitBreakError>)
        ensures
            r is Ok <==> old(self).request_admits(bytes),
            r matches Err(e) ==> e == old(self).refusal(bytes),
            *final(self) == old(self).after_request_check(bytes),
    {
        let limit: usize = self.request_limit;
        let current: usize = self.request_used_bytes;
        if limit == 0 || (bytes <= usize::MAX - current && self.fits(current + bytes)) {
            self.request_used_bytes = current.wrapping_add(bytes);
            Ok(())
        } else {
            self.child_tripped = self.child_tripped.wrapping_add(1);
            Err(CircuitBreakError { bytes_wanted: bytes, bytes_limit: limit, current_used: current })
        }
    }

    /// Level 2: does `cached_total + bytes` exceed the node limit?
    pub(crate) fn check_node(&mut self, bytes: usize) -> (r: Result<(), CircuitBreakError>)
        ensures
            r is Ok <==> old(self).node_admits(bytes),
            r matches Err(e) ==> e == old(self).node_refusal(bytes),
            *final(self) == old(self).after_node_check(bytes),
    {
        let limit: usize = self.node_limit;
        if limit == 0 {
            return Ok(());
        }
        let total: usize = self.cached_total_bytes;
        if bytes > limit || total > limit - bytes {
            self.node_tripped = self.node_tripped.wrapping_add(1);
            return Err(
                CircuitBreakError { bytes_wanted: bytes, bytes_limit: limit, current_used: total },
            );
        }
        Ok(())
    }

    /// Whether `n` bytes with the overhead are within the request limit.
    fn fits(&self, n: usize) -> (r: bool)
        ensures
            r == (n * self.overhead_millionths <= self.request_limit * MILLION),
    {
        proof {
            assert(n * self.overhead_millionths <= u64::MAX * u64::MAX) by (nonlinear_arith)
                requires
                    n <= u64::MAX,
                    self.overhead_millionths <= u64::MAX,
            ;
        }
        n as u128 * self.overhead_millionths as u128 <= self.request_limit as u128
            * MILLION as u128
    }

    /// The current figures.
    pub fn stats(&self) -> (r: BreakerStats)
        ensures
            r == self.shown(),
    {
        BreakerStats {
            request_used_bytes: #[verifier::truncate]
            (self.request_used_bytes as i64),
            total_used_bytes: #[verifier::truncate]
            (self.cached_total_bytes as i64),
            child_tripped: #[verifier::truncate]
            (self.child_tripped as i64),
            node_tripped: #[verifier::truncate]
            (self.node_tripped as i64),
        }
    }

    /// The call that shows the current figures to the outside, if a callback is registered.
    pub fn push_stats(&self, callback: &StatsCallback) -> (r: Option<StatsPush>)
        ensures
            r == (if callback.address == 0 {
                None
            } else {
                Some(StatsPush { address: callback.address, stats: self.shown() })
            }),
    {
        if callback.address == 0 {
            return None;
        }
        Some(StatsPush { address: callback.address, stats: self.stats() })
    }

    /// One tick of the timer that reads the allocator.
    pub fn refresh_total(&mut self, reading: Reading) -> (report: TickReport)
        ensures
            *final(self) == (NativeCircuitBreaker {
                cached_total_bytes: refreshed(old(self).cached_total_bytes, reading),
                ..*old(self)
            }),
            report == tick_report(reading),
    {
        refresh_cached(&mut self.cached_total_bytes, reading)
    }

    /// Changes the request-level limit.
    pub fn set_request_limit(&mut self, limit: usize)
        ensures
            *final(self) == (NativeCircuitBreaker { request_limit: limit, ..*old(self) }),
    {
        self.request_limit = limit;
    }

    /// Changes the node-level limit.
    pub fn set_node_limit(&mut self, limit: usize)
        ensures
            *final(self) == (NativeCircuitBreaker { node_limit: limit, ..*old(self) }),
    {
        self.node_limit = limit;
    }

    /// Changes the overhead factor.
    pub fn set_overhead(&mut self, overhead_millionths: u64)
        ensures
            *final(self) == (NativeCircuitBreaker { overhead_millionths, ..*old(self) }),
    {
        self.overhead_millionths = overhead_millionths;
    }
}

/// Where the figures are pushed to: the address of the registered function, or zero.
#[derive(Debug, PartialEq, Eq, Structural)]
pub struct StatsCallback {
    /// Address of the function; zero while none is registered.
    pub address: usize,
}

impl StatsCallback {
    /// No function registered.
    pub fn new() -> (r: Self)
        ensures
            r.address == 0,
    {
        StatsCallback { address: 0 }
    }
}

/// A call of the registered function that is due.
#[derive(Debug, Clone, Copy, PartialEq, Eq, Structural)]
pub struct StatsPush {
    /// The function to call.
    pub address: usize,
    /// Its arguments.
    pub stats: BreakerStats,
}

/// Registers the function at `address` for the figures, in place of any earlier one.
pub fn register_stats_callback(callback: &mut StatsCallback, address: usize)
    ensures
        final(callback).address == address,
{
    callback.address = address;
}

impl CircuitBreakError {
    /// The text of the error.
    pub open spec fn message_text(self) -> Seq<char> {
        let total = (self.current_used + self.bytes_wanted) as nat;
        "[native_request] Data too large, data would be ["@ + decimal_text(total) + "/"@
            + human_text(total) + "], which is larger than the limit of ["@ + decimal_text(
            self.bytes_limit as nat,
        ) + "/"@ + human_text(self.bytes_limit as nat) + "]"@
    }

    /// The encoded error: the three figures and the text, with colons between them.
    pub open spec fn encoded_text(self) -> Seq<char> {
        "CB:"@ + decimal_text(self.bytes_wanted as nat) + ":"@ + decimal_text(
            self.bytes_limit as nat,
        ) + ":"@ + decimal_text(self.current_used as nat) + ":"@ + self.message_text()
    }

    /// The error for people.
    pub fn message(&self) -> (r: String)
        ensures
            r@ == self.message_text(),
    {
        let total: u128 = self.current_used as u128 + self.bytes_wanted as u128;
        "[native_request] Data too large, data would be [".to_owned().concat(
            decimal(total).as_str(),
        ).concat("/").concat(human_bytes_wide(total).as_str()).concat(
            "], which is larger than the limit of [",
        ).concat(decimal(self.bytes_limit as u128).as_str()).concat("/").concat(
            human_bytes(self.bytes_limit).as_str(),
        ).concat("]")
    }

    /// The error for the other side of the bridge, which splits it at the colons.
    pub fn to_encoded_string(&self) -> (r: String)
        ensures
            r@ == self.encoded_text(),
    {
        "CB:".to_owned().concat(decimal(self.bytes_wanted as u128).as_str()).concat(":").concat(
            decimal(self.bytes_limit as u128).as_str(),
        ).concat(":").concat(decimal(self.current_used as u128).as_str()).concat(":").concat(
            self.message().as_str(),
        )
    }
}

/// The write-once cell of the once_cell crate, declared with nothing known of its inside.
#[verifier::external_type_specification]
#[verifier::external_body]
#[verifier::reject_recursive_types(T)]
pub struct ExOnceCell<T>(once_cell::sync::OnceCell<T>);

/// The breaker that a cell holds, if it was set.
pub uninterp spec fn breaker_in(cell: OnceCell<NativeCircuitBreaker>) -> Option<
    NativeCircuitBreaker,
>;

/// `OnceCell::new`: an empty cell.
#[verifier::external_body]
fn empty_cell() -> (r: OnceCell<NativeCircuitBreaker>)
    ensures
        breaker_in(r) is None,
{
    OnceCell::new()
}

/// `OnceCell::set`: fills an empty cell, and leaves a full one alone and hands the value back.
#[verifier::external_body]
fn set_cell(
    cell: &mut OnceCell<NativeCircuitBreaker>,
    breaker: NativeCircuitBreaker,
) -> (r: Result<(), NativeCircuitBreaker>)
    ensures
        r == (if breaker_in(*old(cell)) is None {
            Ok(())
        } else {
            Err(breaker)
        }),
        breaker_in(*final(cell)) == (if breaker_in(*old(cell)) is None {
            Some(breaker)
        } else {
            breaker_in(*old(cell))
        }),
{
    cell.set(breaker)
}

/// `OnceCell::get`: the value of a full cell.
#[verifier::external_body]
fn get_cell(cell: &OnceCell<NativeCircuitBreaker>) -> (r: Option<&NativeCircuitBreaker>)
    ensures
        match r {
            Some(breaker) => breaker_in(*cell) == Some(*breaker),
            None => breaker_in(*cell) is None,
        },
{
    cell.get()
}

/// `OnceCell::get_mut`: the value of a full cell, to be changed in place.
#[verifier::external_body]
fn get_cell_mut(cell: &mut OnceCell<NativeCircuitBreaker>) -> (r: Option<&mut NativeCircuitBreaker>)
    ensures
        match r {
            Some(breaker) => breaker_in(*old(cell)) == Some(*breaker) && breaker_in(*final(cell))
                == Some(*final(breaker)),
            None => breaker_in(*old(cell)) is None && breaker_in(*final(cell)) is None,
        },
{
    cell.get_mut()
}

/// The place of the process's one breaker. It is filled once.
pub struct BreakerCell {
    cell: OnceCell<NativeCircuitBreaker>,
}

impl View for BreakerCell {
    type V = Option<NativeCircuitBreaker>;

    closed spec fn view(&self) -> Option<NativeCircuitBreaker> {
        breaker_in(self.cell)
    }
}

impl BreakerCell {
    /// No breaker yet.
    pub fn new() -> (r: Self)
        ensures
            r@ is None,
    {
        BreakerCell { cell: empty_cell() }
    }
}

/// Sets the breaker up, unless there is one already.
pub fn init(
    cell: &mut BreakerCell,
    request_limit: usize,
    node_limit: usize,
    overhead_millionths: u64,
) -> (r: Result<(), &'static str>)
    ensures
        r is Ok <==> old(cell)@ is None,
        r is Ok ==> final(cell)@ == Some(
            NativeCircuitBreaker::fresh(request_limit, node_limit, overhead_millionths),
        ),
        r matches Err(e) ==> e@ == "circuit breaker already initialized"@ && final(cell)@ == old(
            cell,
        )@,
{
    let breaker = NativeCircuitBreaker::new(request_limit, node_limit, overhead_millionths);
    match set_cell(&mut cell.cell, breaker) {
        Ok(()) => Ok(()),
        Err(_) => Err("circuit breaker already initialized"),
    }
}

/// The breaker, once it is set up.
pub fn get(cell: &BreakerCell) -> (r: Option<&NativeCircuitBreaker>)
    ensures
        match r {
            Some(breaker) => cell@ == Some(*breaker),
            None => cell@ is None,
        },
{
    get_cell(&cell.cell)
}

/// The breaker, once it is set up, for the calls that change it.
pub fn get_mut(cell: &mut BreakerCell) -> (r: Option<&mut NativeCircuitBreaker>)
    ensures
        match r {
            Some(breaker) => old(cell)@ == Some(*breaker) && final(cell)@ == Some(*final(breaker)),
            None => old(cell)@ is None && final(cell)@ is None,
        },
{
    get_cell_mut(&mut cell.cell)
}

/// One tick of the timer that reads the allocator, for the breaker in `cell`. There is nothing to
/// update before it is set up.
pub fn refresh(cell: &mut BreakerCell, reading: Reading) -> (report: TickReport)
    ensures
        report == tick_report(reading),
        final(cell)@ == (match old(cell)@ {
            Some(breaker) => Some(
                NativeCircuitBreaker {
                    cached_total_bytes: refreshed(breaker.cached_total_bytes, reading),
                    ..breaker
                },
            ),
            None => None,
        }),
{
    match get_mut(cell) {
        Some(breaker) => breaker.refresh_total(reading),
        None => match reading {
            Reading::Bytes(_) => TickReport::Quiet,
            Reading::Panicked => TickReport::LogAndRetry,
        },
    }
}

} // verus!
