//! What the texts and sizes that go over the bridge say, read back from their characters.
//!
//! A law that speaks of a call holds for every call with these arguments and this result.

use vstd::arithmetic::power2::{lemma2_to64, lemma_pow2_pos, lemma_pow2_unfold, pow2};
use vstd::prelude::*;

use crate::double::{double_spacing, nearest_double, round_div};
use crate::human_size::{human_bytes, human_text, tenths_text};
use crate::text::{
    decimal, decimal_text, lemma_decimal_digits, prefixed, signed_decimal, signed_decimal_text,
};

verus! {

/// What a row of digits is worth.
pub open spec fn digits_value(s: Seq<char>) -> int
    decreases s.len(),
{
    if s.len() == 0 {
        0
    } else {
        digits_value(s.drop_last()) * 10 + (s.last() as int - '0' as int)
    }
}

/// `s` is a row of digits, without a zero in front that it could do without, and worth `n`.
pub open spec fn reads_as(s: Seq<char>, n: int) -> bool {
    &&& s.len() > 0
    &&& forall|i: int| 0 <= i < s.len() ==> '0' <= #[trigger] s[i] <= '9'
    &&& s.len() > 1 ==> s[0] != '0'
    &&& digits_value(s) == n
}

/// A number is written with its digits and nothing else.
pub proof fn law_decimal_text_reads_back(n: nat)
    ensures
        reads_as(decimal_text(n), n as int),
    decreases n,
{
    let s = decimal_text(n);
    lemma_decimal_digits(n);
    if n < 10 {
        assert(s.drop_last() =~= Seq::empty());
        assert(digits_value(s.drop_last()) == 0);
    } else {
        let front = decimal_text(n / 10);
        law_decimal_text_reads_back(n / 10);
        assert(s.drop_last() =~= front);
        assert(s[0] == front[0]);
        if front.len() == 1 {
            assert(front.drop_last() =~= Seq::empty());
            assert(digits_value(front.drop_last()) == 0);
            assert(front.last() == front[0]);
        }
    }
}

/// `decimal` writes a number so that it reads back.
pub proof fn law_decimal(n: u128, r: String)
    requires
        call_ensures(decimal, (n,), r),
    ensures
        reads_as(r@, n as int),
{
    law_decimal_text_reads_back(n as nat);
}

/// The text of a signed number is a minus sign and the digits of its magnitude if it is negative,
/// and its digits otherwise.
pub proof fn law_signed_decimal_text_reads_back(n: int)
    ensures
        n >= 0 ==> reads_as(signed_decimal_text(n), n),
        n < 0 ==> signed_decimal_text(n).len() > 0 && signed_decimal_text(n)[0] == '-' && reads_as(
            signed_decimal_text(n).skip(1),
            -n,
        ),
{
    if n >= 0 {
        law_decimal_text_reads_back(n as nat);
    } else {
        law_decimal_text_reads_back((-n) as nat);
        assert(signed_decimal_text(n).skip(1) =~= decimal_text((-n) as nat));
    }
}

/// `signed_decimal` writes a signed number so that it reads back.
pub proof fn law_signed_decimal(n: i64, r: String)
    requires
        call_ensures(signed_decimal, (n,), r),
    ensures
        n >= 0 ==> reads_as(r@, n as int),
        n < 0 ==> r@.len() > 0 && r@[0] == '-' && reads_as(r@.skip(1), -n),
{
    law_signed_decimal_text_reads_back(n as int);
}

/// `prefixed` puts its two texts one after the other.
pub proof fn law_prefixed(prefix: &str, detail: &str, r: String)
    requires
        call_ensures(prefixed, (prefix, detail), r),
    ensures
        r@.take(prefix@.len() as int) == prefix@,
        r@.skip(prefix@.len() as int) == detail@,
{
    assert(r@.take(prefix@.len() as int) =~= prefix@);
    assert(r@.skip(prefix@.len() as int) =~= detail@);
}

/// How far two integers are apart.
pub open spec fn distance(a: int, b: int) -> int {
    if a <= b {
        b - a
    } else {
        a - b
    }
}

/// A rounded quotient is at most half a divisor away from the dividend, and even if it is exactly
/// that far away.
pub proof fn law_rounded_quotient_is_nearest(n: nat, d: nat)
    requires
        d > 0,
    ensures
        2 * distance((round_div(n, d) * d) as int, n as int) <= d,
        2 * distance((round_div(n, d) * d) as int, n as int) == d ==> round_div(n, d) % 2 == 0,
{
    let q = n / d;
    let r = n % d;
    assert(n == q * d + r && 0 <= r < d) by (nonlinear_arith)
        requires
            d > 0,
            q == n / d,
            r == n % d,
    ;
    assert((q + 1) * d == q * d + d) by (nonlinear_arith);
}

proof fn lemma_spacing_is_power(n: nat) -> (e: nat)
    ensures
        double_spacing(n) == pow2(e),
        n < 0x20_0000_0000_0000 * pow2(e),
        e > 0 ==> 0x10_0000_0000_0000 * pow2(e) <= n,
        n < 0x20_0000_0000_0000 ==> e == 0,
    decreases n,
{
    lemma2_to64();
    if n < 0x20_0000_0000_0000 {
        0
    } else {
        let half = lemma_spacing_is_power(n / 2);
        lemma_pow2_unfold(half + 1);
        half + 1
    }
}

/// A count in double precision is the nearest multiple, a tie going to the even one, of the power of
/// two that leaves it 53 bits: `e` is its exponent, and the second number how often it is taken.
pub proof fn law_double_is_nearest(n: nat) -> (r: (nat, nat))
    ensures
        nearest_double(n) == r.1 * pow2(r.0),
        n < 0x20_0000_0000_0000 * pow2(r.0),
        r.0 > 0 ==> 0x10_0000_0000_0000 * pow2(r.0) <= n,
        2 * distance(nearest_double(n) as int, n as int) <= pow2(r.0),
        2 * distance(nearest_double(n) as int, n as int) == pow2(r.0) ==> r.1 % 2 == 0,
        n < 0x20_0000_0000_0000 ==> nearest_double(n) == n,
{
    let e = lemma_spacing_is_power(n);
    lemma2_to64();
    lemma_pow2_pos(e);
    law_rounded_quotient_is_nearest(n, double_spacing(n));
    (e, round_div(n, double_spacing(n)))
}

/// `s` shows `amount` bytes in units of `unit` bytes, with one digit after the point, rounded to
/// nearest with a tie going to the even digit, and with the unit's letter and a `b` behind it.
pub open spec fn shows_tenths(s: Seq<char>, amount: nat, unit: nat, letter: char) -> bool {
    let point = s.len() - 4;
    let whole = s.take(point);
    let tenths = 10 * digits_value(whole) + (s[point + 1] as int - '0' as int);
    &&& point > 0
    &&& reads_as(whole, digits_value(whole))
    &&& s[point] == '.'
    &&& '0' <= s[point + 1] <= '9'
    &&& s[point + 2] == letter
    &&& s[point + 3] == 'b'
    &&& 2 * distance(tenths * unit, 10 * amount as int) <= unit
    &&& 2 * distance(tenths * unit, 10 * amount as int) == unit ==> tenths % 2 == 0
}

proof fn lemma_tenths_show(bytes: nat, unit: nat, suffix: Seq<char>, letter: char)
    requires
        unit > 0,
        suffix == seq![letter, 'b'],
    ensures
        shows_tenths(tenths_text(bytes, unit) + suffix, nearest_double(bytes), unit, letter),
{
    let amount = nearest_double(bytes);
    let tenths = round_div(amount * 10, unit);
    let s = tenths_text(bytes, unit) + suffix;
    let whole = decimal_text(tenths / 10);
    let digit = decimal_text(tenths % 10);
    law_rounded_quotient_is_nearest(amount * 10, unit);
    law_decimal_text_reads_back(tenths / 10);
    law_decimal_text_reads_back(tenths % 10);
    assert(digit.len() == 1);
    assert(digit.drop_last() =~= Seq::empty());
    assert(digits_value(digit.drop_last()) == 0);
    assert(digit.last() == digit[0]);
    assert(s.len() == whole.len() + 4);
    assert(s.take(s.len() - 4) =~= whole);
    assert(s[s.len() - 3] == digit[0]);
}

/// The text of a size: below a kilobyte its digits and a `b`, and otherwise the largest unit that it
/// reaches, with one digit after the point. Counts below 2^53 are shown as they are.
pub proof fn law_size_text(bytes: nat)
    ensures
        bytes < 0x20_0000_0000_0000 ==> nearest_double(bytes) == bytes,
        bytes < 1024 ==> reads_as(human_text(bytes).drop_last(), bytes as int) && human_text(
            bytes,
        ).last() == 'b',
        1024 <= bytes < 1024 * 1024 ==> shows_tenths(
            human_text(bytes),
            nearest_double(bytes),
            1024,
            'k',
        ),
        1024 * 1024 <= bytes < 1024 * 1024 * 1024 ==> shows_tenths(
            human_text(bytes),
            nearest_double(bytes),
            (1024 * 1024) as nat,
            'm',
        ),
        1024 * 1024 * 1024 <= bytes ==> shows_tenths(
            human_text(bytes),
            nearest_double(bytes),
            (1024 * 1024 * 1024) as nat,
            'g',
        ),
{
    reveal_strlit("gb");
    reveal_strlit("mb");
    reveal_strlit("kb");
    reveal_strlit("b");
    let _ = law_double_is_nearest(bytes);
    assert("gb"@ =~= seq!['g', 'b']);
    assert("mb"@ =~= seq!['m', 'b']);
    assert("kb"@ =~= seq!['k', 'b']);
    lemma_tenths_show(bytes, 1024, "kb"@, 'k');
    lemma_tenths_show(bytes, (1024 * 1024) as nat, "mb"@, 'm');
    lemma_tenths_show(bytes, (1024 * 1024 * 1024) as nat, "gb"@, 'g');
    if bytes < 1024 {
        law_decimal_text_reads_back(bytes);
        assert(human_text(bytes).drop_last() =~= decimal_text(bytes));
    }
}

/// `human_bytes` shows a count: below a kilobyte its digits and a `b`, and otherwise the largest unit
/// that it reaches, with one digit after the point.
pub proof fn law_human_bytes(bytes: usize, r: String)
    requires
        call_ensures(human_bytes, (bytes,), r),
    ensures
        bytes < 1024 ==> reads_as(r@.drop_last(), bytes as int) && r@.last() == 'b',
        1024 <= bytes < 1024 * 1024 ==> shows_tenths(r@, bytes as nat, 1024, 'k'),
        1024 * 1024 <= bytes < 1024 * 1024 * 1024 ==> shows_tenths(
            r@,
            bytes as nat,
            (1024 * 1024) as nat,
            'm',
        ),
        1024 * 1024 * 1024 <= bytes < 0x20_0000_0000_0000 ==> shows_tenths(
            r@,
            bytes as nat,
            (1024 * 1024 * 1024) as nat,
            'g',
        ),
        0x20_0000_0000_0000 <= bytes ==> shows_tenths(
            r@,
            nearest_double(bytes as nat),
            (1024 * 1024 * 1024) as nat,
            'g',
        ),
{
    law_size_text(bytes as nat);
}

} // verus!
