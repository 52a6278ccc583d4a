//! What holds of the circuit breaker across calls.

use vstd::arithmetic::div_mod::{
    lemma_fundamental_div_mod, lemma_fundamental_div_mod_converse_mod, lemma_small_mod,
};
use vstd::prelude::*;

use crate::circuit_breaker::{
    bumped, wrapping_more, CircuitBreakError, NativeCircuitBreaker, MILLION,
};
use crate::double::{nearest_double, round_div};
use crate::human_size::{human_text, tenths_text, GB, KB, MB};
use crate::text::{decimal_text, lemma_decimal_digits, lemma_decimal_injective};

verus! {

/// A call that changes what is reserved.
pub enum BreakerOp {
    /// Asks for bytes.
    Reserve(usize),
    /// Gives bytes back.
    Release(usize),
}

/// The breaker after one call.
pub open spec fn apply_op(breaker: NativeCircuitBreaker, op: BreakerOp) -> NativeCircuitBreaker {
    match op {
        BreakerOp::Reserve(bytes) => breaker.after_reserve(bytes),
        BreakerOp::Release(bytes) => breaker.after_release(bytes),
    }
}

/// The breaker after a run of calls, whichever callers they came from.
pub open spec fn run_ops(
    breaker: NativeCircuitBreaker,
    ops: Seq<BreakerOp>,
) -> NativeCircuitBreaker
    decreases ops.len(),
{
    if ops.len() == 0 {
        breaker
    } else {
        apply_op(run_ops(breaker, ops.drop_last()), ops.last())
    }
}

/// No call of the run gives back more than is reserved at that point.
pub open spec fn releases_covered(breaker: NativeCircuitBreaker, ops: Seq<BreakerOp>) -> bool
    decreases ops.len(),
{
    ops.len() == 0 || {
        &&& releases_covered(breaker, ops.drop_last())
        &&& (ops.last() matches BreakerOp::Release(bytes) ==> bytes <= run_ops(
            breaker,
            ops.drop_last(),
        ).request_used_bytes)
    }
}

/// What is reserved, with the overhead, is within the request limit.
pub open spec fn within_budget(breaker: NativeCircuitBreaker) -> bool {
    breaker.request_used_bytes * breaker.overhead_millionths <= breaker.request_limit * MILLION
}

/// The requests of a run that were granted, added up.
pub open spec fn granted(breaker: NativeCircuitBreaker, ops: Seq<BreakerOp>) -> nat
    decreases ops.len(),
{
    if ops.len() == 0 {
        0
    } else {
        let before = run_ops(breaker, ops.drop_last());
        granted(breaker, ops.drop_last()) + match ops.last() {
            BreakerOp::Reserve(bytes) => if before.admits(bytes) {
                bytes as nat
            } else {
                0
            },
            BreakerOp::Release(_) => 0,
        }
    }
}

/// The releases of a run, added up.
pub open spec fn released(ops: Seq<BreakerOp>) -> nat
    decreases ops.len(),
{
    if ops.len() == 0 {
        0
    } else {
        released(ops.drop_last()) + match ops.last() {
            BreakerOp::Reserve(_) => 0,
            BreakerOp::Release(bytes) => bytes as nat,
        }
    }
}

/// All requests of a run, granted or not, added up.
pub open spec fn asked(ops: Seq<BreakerOp>) -> nat
    decreases ops.len(),
{
    if ops.len() == 0 {
        0
    } else {
        asked(ops.drop_last()) + match ops.last() {
            BreakerOp::Reserve(bytes) => bytes as nat,
            BreakerOp::Release(_) => 0,
        }
    }
}

/// How many requests of a run the request level refused.
pub open spec fn request_refusals(breaker: NativeCircuitBreaker, ops: Seq<BreakerOp>) -> nat
    decreases ops.len(),
{
    if ops.len() == 0 {
        0
    } else {
        let before = run_ops(breaker, ops.drop_last());
        request_refusals(breaker, ops.drop_last()) + match ops.last() {
            BreakerOp::Reserve(bytes) => if before.request_admits(bytes) {
                0
            } else {
                1nat
            },
            BreakerOp::Release(_) => 0,
        }
    }
}

/// How many requests of a run the node level refused.
pub open spec fn node_refusals(breaker: NativeCircuitBreaker, ops: Seq<BreakerOp>) -> nat
    decreases ops.len(),
{
    if ops.len() == 0 {
        0
    } else {
        let before = run_ops(breaker, ops.drop_last());
        node_refusals(breaker, ops.drop_last()) + match ops.last() {
            BreakerOp::Reserve(bytes) => if before.request_admits(bytes) && !before.node_admits(
                bytes,
            ) {
                1nat
            } else {
                0
            },
            BreakerOp::Release(_) => 0,
        }
    }
}

proof fn lemma_product_monotone(a: nat, b: nat, factor: nat)
    requires
        a <= b,
    ensures
        a * factor <= b * factor,
{
    assert(a * factor <= b * factor) by (nonlinear_arith)
        requires
            a <= b,
    ;
}

/// With a whole overhead factor the request level compares the plain product with its limit.
pub proof fn law_whole_overhead_is_plain(breaker: NativeCircuitBreaker, bytes: usize, factor: nat)
    requires
        breaker.request_limit != 0,
        breaker.overhead_millionths == factor * MILLION,
    ensures
        breaker.request_admits(bytes) <==> breaker.request_used_bytes + bytes <= usize::MAX && (
        breaker.request_used_bytes + bytes) * factor <= breaker.request_limit,
{
    let sum = (breaker.request_used_bytes + bytes) as nat;
    assert(sum * (factor * MILLION as nat) == (sum * factor) * MILLION as nat) by (nonlinear_arith);
}

/// With an overhead of at least one, what is reserved is itself within the request limit whenever it
/// is with the overhead.
pub proof fn law_budget_bounds_reserved_bytes(breaker: NativeCircuitBreaker)
    requires
        within_budget(breaker),
        breaker.overhead_millionths >= MILLION,
    ensures
        breaker.request_used_bytes <= breaker.request_limit,
{
    let used = breaker.request_used_bytes as nat;
    let overhead = breaker.overhead_millionths as nat;
    assert(used * MILLION as nat <= used * overhead) by (nonlinear_arith)
        requires
            MILLION as nat <= overhead,
    ;
}

/// Without a reading of the allocator the node level refuses nothing that the request level lets
/// through, where it has the higher limit and the overhead is at least one.
pub proof fn law_node_level_is_idle_without_readings(breaker: NativeCircuitBreaker, bytes: usize)
    requires
        breaker.cached_total_bytes == 0,
        0 < breaker.request_limit <= breaker.node_limit,
        breaker.overhead_millionths >= MILLION,
        breaker.request_admits(bytes),
    ensures
        breaker.node_admits(bytes),
{
    law_budget_bounds_reserved_bytes(breaker.after_request_check(bytes));
}

/// A refused request reserves nothing and changes no setting: all that is left of it is one trip
/// more at the level that refused.
pub proof fn law_refusal_leaves_only_a_trip(breaker: NativeCircuitBreaker, bytes: usize)
    requires
        !breaker.admits(bytes),
    ensures
        !breaker.request_admits(bytes) ==> breaker.after_reserve(bytes) == (NativeCircuitBreaker {
            child_tripped: bumped(breaker.child_tripped),
            ..breaker
        }),
        breaker.request_admits(bytes) ==> breaker.after_reserve(bytes) == (NativeCircuitBreaker {
            node_tripped: bumped(breaker.node_tripped),
            ..breaker
        }),
        breaker.after_reserve(bytes).request_used_bytes == breaker.request_used_bytes,
{
}

/// Giving back what was just reserved restores the breaker, whichever of its levels are on.
pub proof fn law_release_undoes_reserve(breaker: NativeCircuitBreaker, bytes: usize)
    ensures
        breaker.admits(bytes) ==> breaker.after_reserve(bytes).after_release(bytes) == breaker,
{
}

/// A granted request is within both limits afterwards, is counted in full, and trips nothing.
pub proof fn law_grant_is_within_limits(breaker: NativeCircuitBreaker, bytes: usize)
    requires
        breaker.admits(bytes),
    ensures
        breaker.request_limit != 0 ==> within_budget(breaker.after_reserve(bytes)),
        breaker.request_limit != 0 || breaker.request_used_bytes + bytes <= usize::MAX
            ==> breaker.after_reserve(bytes).request_used_bytes == breaker.request_used_bytes
            + bytes,
        breaker.node_limit != 0 ==> breaker.cached_total_bytes + bytes <= breaker.node_limit,
        breaker.after_reserve(bytes).child_tripped == breaker.child_tripped,
        breaker.after_reserve(bytes).node_tripped == breaker.node_tripped,
{
}

/// A limit of zero switches its level off: with both off everything is granted, and counted.
pub proof fn law_zero_limits_grant_everything(breaker: NativeCircuitBreaker, bytes: usize)
    ensures
        breaker.request_limit == 0 ==> breaker.request_admits(bytes),
        breaker.node_limit == 0 ==> breaker.node_admits(bytes),
        breaker.request_limit == 0 && breaker.node_limit == 0 ==> breaker.admits(bytes)
            && breaker.after_reserve(bytes) == (NativeCircuitBreaker {
            request_used_bytes: wrapping_more(breaker.request_used_bytes, bytes),
            ..breaker
        }),
{
}

/// Where a request is granted, a smaller one in its place would have been granted too.
pub proof fn law_smaller_request_is_granted(
    breaker: NativeCircuitBreaker,
    smaller: usize,
    bytes: usize,
)
    requires
        smaller <= bytes,
        breaker.admits(bytes),
    ensures
        breaker.admits(smaller),
{
    lemma_product_monotone(
        (breaker.request_used_bytes + smaller) as nat,
        (breaker.request_used_bytes + bytes) as nat,
        breaker.overhead_millionths as nat,
    );
}

/// Raising a limit refuses nothing that was granted before; a level that is off stays off.
pub proof fn law_higher_limits_grant_more(
    breaker: NativeCircuitBreaker,
    request_limit: usize,
    node_limit: usize,
    bytes: usize,
)
    requires
        breaker.admits(bytes),
        if breaker.request_limit == 0 {
            request_limit == 0
        } else {
            breaker.request_limit <= request_limit
        },
        if breaker.node_limit == 0 {
            node_limit == 0
        } else {
            breaker.node_limit <= node_limit
        },
    ensures
        (NativeCircuitBreaker { request_limit, node_limit, ..breaker }).admits(bytes),
{
}

/// The request level grants two requests one after the other exactly when it grants their sum, and
/// then counts the same.
pub proof fn law_two_requests_are_as_their_sum(breaker: NativeCircuitBreaker, x: usize, y: usize)
    requires
        x + y <= usize::MAX,
    ensures
        breaker.request_admits(x) && breaker.after_request_check(x).request_admits(y)
            <==> breaker.request_admits((x + y) as usize),
        breaker.request_admits((x + y) as usize) ==> breaker.after_request_check(
            x,
        ).after_request_check(y) == breaker.after_request_check((x + y) as usize),
        breaker.request_limit != 0 && breaker.request_admits((x + y) as usize)
            ==> breaker.after_request_check((x + y) as usize).request_used_bytes
            == breaker.request_used_bytes + x + y,
{
    lemma_product_monotone(
        (breaker.request_used_bytes + x) as nat,
        (breaker.request_used_bytes + x + y) as nat,
        breaker.overhead_millionths as nat,
    );
}

/// The node level looks at its limit and the cached total alone: breakers that agree on these give
/// the same answer, with the same error, and asking changes neither for any later request.
pub proof fn law_node_level_accumulates_nothing(
    a: NativeCircuitBreaker,
    b: NativeCircuitBreaker,
    bytes: usize,
    ops: Seq<BreakerOp>,
)
    requires
        a.node_limit == b.node_limit,
        a.cached_total_bytes == b.cached_total_bytes,
    ensures
        a.node_admits(bytes) == b.node_admits(bytes),
        a.node_refusal(bytes) == b.node_refusal(bytes),
        a.after_node_check(bytes).node_admits(bytes) == a.node_admits(bytes),
        a.after_node_check(bytes).node_refusal(bytes) == a.node_refusal(bytes),
        run_ops(a, ops).node_admits(bytes) == a.node_admits(bytes),
        run_ops(a, ops).node_refusal(bytes) == a.node_refusal(bytes),
{
    lemma_ops_keep_settings(a, ops);
}

proof fn lemma_ops_keep_settings(breaker: NativeCircuitBreaker, ops: Seq<BreakerOp>)
    ensures
        run_ops(breaker, ops).request_limit == breaker.request_limit,
        run_ops(breaker, ops).node_limit == breaker.node_limit,
        run_ops(breaker, ops).overhead_millionths == breaker.overhead_millionths,
        run_ops(breaker, ops).cached_total_bytes == breaker.cached_total_bytes,
    decreases ops.len(),
{
    if ops.len() > 0 {
        lemma_ops_keep_settings(breaker, ops.drop_last());
    }
}

/// However reservations and releases from all callers interleave, what is reserved never exceeds
/// the request limit.
pub proof fn law_budget_is_never_exceeded(breaker: NativeCircuitBreaker, ops: Seq<BreakerOp>)
    requires
        breaker.request_limit != 0,
        within_budget(breaker),
        releases_covered(breaker, ops),
    ensures
        within_budget(run_ops(breaker, ops)),
    decreases ops.len(),
{
    if ops.len() > 0 {
        let before = run_ops(breaker, ops.drop_last());
        lemma_ops_keep_settings(breaker, ops.drop_last());
        law_budget_is_never_exceeded(breaker, ops.drop_last());
        match ops.last() {
            BreakerOp::Reserve(bytes) => {},
            BreakerOp::Release(bytes) => {
                lemma_product_monotone(
                    (before.request_used_bytes - bytes) as nat,
                    before.request_used_bytes as nat,
                    before.overhead_millionths as nat,
                );
            },
        }
    }
}

/// Taking `n` steps on from the remainder of `t` stays the remainder.
proof fn lemma_remainder_steps(t: int, n: int, modulus: int)
    requires
        0 <= n < modulus,
    ensures
        (t + n) % modulus == (if t % modulus + n < modulus {
            t % modulus + n
        } else {
            t % modulus + n - modulus
        }),
        (t - n) % modulus == (if t % modulus - n >= 0 {
            t % modulus - n
        } else {
            t % modulus - n + modulus
        }),
{
    let q = t / modulus;
    let x = t % modulus;
    lemma_fundamental_div_mod(t, modulus);
    assert(modulus * q == q * modulus) by (nonlinear_arith);
    assert((q + 1) * modulus == q * modulus + modulus) by (nonlinear_arith);
    assert((q - 1) * modulus == q * modulus - modulus) by (nonlinear_arith);
    assert(0 <= x < modulus) by (nonlinear_arith)
        requires
            modulus > 0,
            x == t % modulus,
    ;
    if x + n < modulus {
        lemma_fundamental_div_mod_converse_mod(t + n, modulus, q, x + n);
    } else {
        lemma_fundamental_div_mod_converse_mod(t + n, modulus, q + 1, x + n - modulus);
    }
    if x - n >= 0 {
        lemma_fundamental_div_mod_converse_mod(t - n, modulus, q, x - n);
    } else {
        lemma_fundamental_div_mod_converse_mod(t - n, modulus, q - 1, x - n + modulus);
    }
}

/// Over any run of reservations and releases the counter is what it was plus the grants less the
/// releases, and each trip counter has gone up by the refusals of its level, all in the counters'
/// wrapping arithmetic. The counter does not wrap where nothing is given back that is not reserved
/// and the request level is on or the grants fit into the counter.
pub proof fn law_counters_follow_the_run(breaker: NativeCircuitBreaker, ops: Seq<BreakerOp>)
    ensures
        run_ops(breaker, ops).request_used_bytes == (breaker.request_used_bytes + granted(
            breaker,
            ops,
        ) - released(ops)) % (usize::MAX + 1),
        run_ops(breaker, ops).child_tripped == (breaker.child_tripped + request_refusals(
            breaker,
            ops,
        )) % (u64::MAX + 1),
        run_ops(breaker, ops).node_tripped == (breaker.node_tripped + node_refusals(breaker, ops))
            % (u64::MAX + 1),
        releases_covered(breaker, ops) && (breaker.request_limit != 0
            || breaker.request_used_bytes + granted(breaker, ops) <= usize::MAX) ==> run_ops(
            breaker,
            ops,
        ).request_used_bytes == breaker.request_used_bytes + granted(breaker, ops) - released(ops),
    decreases ops.len(),
{
    if ops.len() == 0 {
        lemma_small_mod(breaker.request_used_bytes as nat, (usize::MAX + 1) as nat);
    } else {
        let rest = ops.drop_last();
        let words: int = usize::MAX + 1;
        let longs: int = u64::MAX + 1;
        let used: int = breaker.request_used_bytes + granted(breaker, rest) - released(rest);
        lemma_ops_keep_settings(breaker, rest);
        law_counters_follow_the_run(breaker, rest);
        lemma_remainder_steps(
            (breaker.child_tripped + request_refusals(breaker, rest)) as int,
            1,
            longs,
        );
        lemma_remainder_steps(
            (breaker.node_tripped + node_refusals(breaker, rest)) as int,
            1,
            longs,
        );
        match ops.last() {
            BreakerOp::Reserve(bytes) => lemma_remainder_steps(used, bytes as int, words),
            BreakerOp::Release(bytes) => lemma_remainder_steps(used, bytes as int, words),
        }
    }
}

/// Requests that fit together are all granted, in whatever order they come, and the counter ends
/// at their sum.
pub proof fn law_fitting_requests_are_all_granted(
    breaker: NativeCircuitBreaker,
    ops: Seq<BreakerOp>,
)
    requires
        breaker.request_used_bytes + asked(ops) <= usize::MAX,
        breaker.request_limit == 0 || (breaker.request_used_bytes + asked(ops))
            * breaker.overhead_millionths <= breaker.request_limit * MILLION,
        forall|i: int|
            0 <= i < ops.len() ==> (#[trigger] ops[i] matches BreakerOp::Reserve(bytes)
                && breaker.node_admits(bytes)),
    ensures
        granted(breaker, ops) == asked(ops),
        run_ops(breaker, ops) == (NativeCircuitBreaker {
            request_used_bytes: (breaker.request_used_bytes + asked(ops)) as usize,
            ..breaker
        }),
    decreases ops.len(),
{
    if ops.len() > 0 {
        let rest = ops.drop_last();
        assert forall|i: int| 0 <= i < rest.len() implies (
        #[trigger] rest[i] matches BreakerOp::Reserve(bytes) && breaker.node_admits(bytes)) by {
            assert(rest[i] == ops[i]);
        }
        lemma_product_monotone(
            breaker.request_used_bytes as nat + asked(rest),
            breaker.request_used_bytes as nat + asked(ops),
            breaker.overhead_millionths as nat,
        );
        law_fitting_requests_are_all_granted(breaker, rest);
        assert(ops.last() == ops[ops.len() - 1]);
        assert(ops.last() matches BreakerOp::Reserve(bytes) && run_ops(breaker, rest).admits(bytes));
    }
}

/// `s` split at its colons into at most `limit` pieces, the last of which keeps the rest.
pub open spec fn split_at_colons(s: Seq<char>, limit: nat) -> Seq<Seq<char>>
    decreases limit,
{
    if limit <= 1 || !s.contains(':') {
        seq![s]
    } else {
        let i = s.index_of_first(':')->0;
        seq![s.subrange(0, i)] + split_at_colons(
            s.subrange(i + 1, s.len() as int),
            (limit - 1) as nat,
        )
    }
}

proof fn lemma_split_first(head: Seq<char>, tail: Seq<char>, limit: nat)
    requires
        limit > 1,
        forall|i: int| 0 <= i < head.len() ==> #[trigger] head[i] != ':',
    ensures
        split_at_colons(head + seq![':'] + tail, limit) == seq![head] + split_at_colons(
            tail,
            (limit - 1) as nat,
        ),
{
    let s = head + seq![':'] + tail;
    assert(s[head.len() as int] == ':');
    assert(s.contains(':'));
    s.index_of_first_ensures(':');
    let i = s.index_of_first(':')->0;
    assert(i == head.len()) by {
        if i < head.len() {
            assert(s[i] == head[i]);
        }
    }
    assert(s.subrange(0, i) =~= head);
    assert(s.subrange(i + 1, s.len() as int) =~= tail);
}

/// After its prefix an encoded error splits at the colons into four pieces: the bytes wanted, the
/// limit, the bytes used, and the text, which keeps any colons of its own.
pub proof fn law_encoded_error_splits(e: CircuitBreakError)
    ensures
        e.encoded_text().subrange(0, 3) == "CB:"@,
        split_at_colons(e.encoded_text().subrange(3, e.encoded_text().len() as int), 4) == seq![
            decimal_text(e.bytes_wanted as nat),
            decimal_text(e.bytes_limit as nat),
            decimal_text(e.current_used as nat),
            e.message_text(),
        ],
{
    reveal_strlit("CB:");
    reveal_strlit(":");
    let wanted = decimal_text(e.bytes_wanted as nat);
    let limit = decimal_text(e.bytes_limit as nat);
    let used = decimal_text(e.current_used as nat);
    let message = e.message_text();
    lemma_decimal_digits(e.bytes_wanted as nat);
    lemma_decimal_digits(e.bytes_limit as nat);
    lemma_decimal_digits(e.current_used as nat);
    let body = e.encoded_text().subrange(3, e.encoded_text().len() as int);
    let third = used + seq![':'] + message;
    let second = limit + seq![':'] + third;
    assert(":"@ =~= seq![':']);
    assert(e.encoded_text().subrange(0, 3) =~= "CB:"@);
    assert(body =~= wanted + seq![':'] + second);
    lemma_split_first(wanted, second, 4);
    lemma_split_first(limit, third, 3);
    lemma_split_first(used, message, 2);
    assert(split_at_colons(message, 1) =~= seq![message]);
    assert(split_at_colons(body, 4) =~= seq![wanted, limit, used, message]);
}

/// `s` holds no colon.
pub open spec fn colon_free(s: Seq<char>) -> bool {
    forall|i: int| 0 <= i < s.len() ==> #[trigger] s[i] != ':'
}

proof fn lemma_colon_free_concat(a: Seq<char>, b: Seq<char>)
    requires
        colon_free(a),
        colon_free(b),
    ensures
        colon_free(a + b),
{
}

proof fn lemma_tenths_colon_free(bytes: nat, unit: nat)
    ensures
        colon_free(tenths_text(bytes, unit)),
{
    let tenths = round_div(nearest_double(bytes) * 10, unit);
    lemma_decimal_digits(tenths / 10);
    lemma_decimal_digits(tenths % 10);
    lemma_colon_free_concat(decimal_text(tenths / 10), seq!['.']);
    lemma_colon_free_concat(decimal_text(tenths / 10) + seq!['.'], decimal_text(tenths % 10));
}

proof fn lemma_size_colon_free(bytes: nat)
    ensures
        colon_free(human_text(bytes)),
{
    reveal_strlit("gb");
    reveal_strlit("mb");
    reveal_strlit("kb");
    reveal_strlit("b");
    lemma_tenths_colon_free(bytes, GB as nat);
    lemma_tenths_colon_free(bytes, MB as nat);
    lemma_tenths_colon_free(bytes, KB as nat);
    lemma_decimal_digits(bytes);
    lemma_colon_free_concat(tenths_text(bytes, GB as nat), "gb"@);
    lemma_colon_free_concat(tenths_text(bytes, MB as nat), "mb"@);
    lemma_colon_free_concat(tenths_text(bytes, KB as nat), "kb"@);
    lemma_colon_free_concat(decimal_text(bytes), "b"@);
}

/// The text of an error holds no colon, so an encoded error has the same pieces however many more
/// the other side would split off.
pub proof fn law_error_text_has_no_colon(e: CircuitBreakError)
    ensures
        colon_free(e.message_text()),
{
    reveal_strlit("[native_request] Data too large, data would be [");
    reveal_strlit("/");
    reveal_strlit("], which is larger than the limit of [");
    reveal_strlit("]");
    let total = (e.current_used + e.bytes_wanted) as nat;
    lemma_decimal_digits(total);
    lemma_decimal_digits(e.bytes_limit as nat);
    lemma_size_colon_free(total);
    lemma_size_colon_free(e.bytes_limit as nat);
}

/// Two errors with the same encoding are the same error.
pub proof fn law_encoding_is_injective(a: CircuitBreakError, b: CircuitBreakError)
    requires
        a.encoded_text() == b.encoded_text(),
    ensures
        a == b,
{
    law_encoded_error_splits(a);
    law_encoded_error_splits(b);
    let left = split_at_colons(a.encoded_text().subrange(3, a.encoded_text().len() as int), 4);
    let right = split_at_colons(b.encoded_text().subrange(3, b.encoded_text().len() as int), 4);
    assert(left[0] == right[0]);
    assert(left[1] == right[1]);
    assert(left[2] == right[2]);
    lemma_decimal_injective(a.bytes_wanted as nat, b.bytes_wanted as nat);
    lemma_decimal_injective(a.bytes_limit as nat, b.bytes_limit as nat);
    lemma_decimal_injective(a.current_used as nat, b.current_used as nat);
}

} // verus!
