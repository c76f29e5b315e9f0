//! Sizes as Docker prints them.
//!
//! Docker prints a decimal number and a unit. The number is read as the
//! nearest binary number of 53 significant digits, as `f64` holds it, and the
//! size is the integer part of that number times the unit.
use vstd::arithmetic::div_mod::lemma_fundamental_div_mod;
use vstd::arithmetic::div_mod::lemma_fundamental_div_mod_converse;
use vstd::prelude::*;

use crate::bignat::BigNat;
use crate::number::all_digits;
use crate::number::decimal;
use crate::number::digits_value;
use crate::number::lemma_decimal;
use crate::text::char_is_digit;
use crate::text::chars_of;
use crate::text::first_of;
use crate::text::is_digit;
use crate::text::is_space;
use crate::text::law_split_first;
use crate::text::law_trimmed;
use crate::text::lemma_first_of_is;
use crate::text::lower_text;
use crate::text::same_text;
use crate::text::split_first;
use crate::text::split_first_text;
use crate::text::to_lower_text;
use crate::text::trim_text;
use crate::text::trimmed;

verus! {

/// The least number of 53 binary digits.
pub const LEAST_53_BITS: u64 = 0x10_0000_0000_0000;

/// The least number of 54 binary digits.
pub const LEAST_54_BITS: u64 = 0x20_0000_0000_0000;

/// Two to the power of `n`.
pub open spec fn two(n: nat) -> nat
    decreases n,
{
    if n == 0 {
        1
    } else {
        2 * two((n - 1) as nat)
    }
}

/// Ten to the power of `n`.
pub open spec fn ten(n: nat) -> nat
    decreases n,
{
    if n == 0 {
        1
    } else {
        10 * ten((n - 1) as nat)
    }
}

/// How often `b` is to be doubled until `a / b` has at most 53 binary digits
/// before the point.
pub open spec fn up_shift(a: nat, b: nat) -> nat
    decreases a - b,
{
    if b == 0 || a < b * LEAST_54_BITS {
        0
    } else {
        1 + up_shift(a, 2 * b)
    }
}

/// How often `a` is to be doubled until `a / b` has at least 53 binary digits
/// before the point.
pub open spec fn down_shift(a: nat, b: nat) -> nat
    decreases 2 * b * LEAST_53_BITS - a,
{
    if a == 0 || a >= b * LEAST_53_BITS {
        0
    } else {
        1 + down_shift(2 * a, b)
    }
}

/// The integer nearest to `a / b`, and of two that are equally near the even.
pub open spec fn nearest(a: nat, b: nat) -> nat {
    if 2 * (a % b) < b || (2 * (a % b) == b && (a / b) % 2 == 0) {
        a / b
    } else {
        a / b + 1
    }
}

/// The integer part of the number of 53 significant binary digits that is
/// nearest to `a / b`.
pub open spec fn float_floor(a: nat, b: nat) -> nat {
    if a == 0 {
        0
    } else if up_shift(a, b) > 0 {
        nearest(a, b * two(up_shift(a, b))) * two(up_shift(a, b))
    } else {
        nearest(a * two(down_shift(a, b)), b) / two(down_shift(a, b))
    }
}

/// A number, or the largest of 64 binary digits if it has more.
pub open spec fn capped(n: nat) -> u64 {
    if n <= u64::MAX {
        n as u64
    } else {
        u64::MAX
    }
}

proof fn lemma_two_positive(n: nat)
    ensures
        two(n) > 0,
    decreases n,
{
    if n > 0 {
        lemma_two_positive((n - 1) as nat);
    }
}

proof fn lemma_times_two_zero(n: nat)
    ensures
        n * two(0) == n,
{
    assert(n * 1 == n) by (nonlinear_arith);
}

proof fn lemma_two_add(m: nat, n: nat)
    ensures
        two(m + n) == two(m) * two(n),
    decreases m,
{
    if m > 0 {
        lemma_two_add((m - 1) as nat, n);
        let x = two((m - 1) as nat);
        let y = two(n);
        assert(2 * (x * y) == (2 * x) * y) by (nonlinear_arith);
    } else {
        assert(1 * two(n) == two(n)) by (nonlinear_arith);
    }
}

proof fn lemma_two_grows(m: nat, n: nat)
    requires
        m <= n,
    ensures
        two(m) <= two(n),
    decreases n,
{
    if m < n {
        lemma_two_grows(m, (n - 1) as nat);
    }
}

proof fn lemma_two_known()
    ensures
        two(52) == LEAST_53_BITS,
        two(53) == LEAST_54_BITS,
        two(54) == 2 * LEAST_54_BITS,
        two(12) == 4096,
{
    reveal_with_fuel(two, 55);
}

/// The bounds that a quotient has once its divisor was doubled.
proof fn lemma_up_shift(a: nat, b: nat)
    requires
        b > 0,
    ensures
        a < b * two(up_shift(a, b)) * LEAST_54_BITS,
        up_shift(a, b) > 0 ==> b * two(up_shift(a, b)) * LEAST_53_BITS <= a,
    decreases a - b,
{
    if a < b * LEAST_54_BITS {
        lemma_times_two_zero(b);
    } else {
        lemma_up_shift(a, 2 * b);
        let u = up_shift(a, 2 * b);
        assert(2 * b * two(u) == b * two(1 + u)) by (nonlinear_arith)
            requires
                two(1 + u) == 2 * two(u),
        ;
        if u == 0 {
            lemma_times_two_zero(2 * b);
            assert(2 * b * LEAST_53_BITS == b * LEAST_54_BITS) by (nonlinear_arith)
                requires
                    2 * LEAST_53_BITS == LEAST_54_BITS,
            ;
        }
    }
}

/// The bounds that a quotient has once its dividend was doubled.
proof fn lemma_down_shift(a: nat, b: nat)
    requires
        a > 0,
        a < b * LEAST_54_BITS,
    ensures
        a * two(down_shift(a, b)) < b * LEAST_54_BITS,
        b * LEAST_53_BITS <= a * two(down_shift(a, b)),
    decreases 2 * b * LEAST_53_BITS - a,
{
    if a >= b * LEAST_53_BITS {
        lemma_times_two_zero(a);
    } else {
        assert(2 * (b * LEAST_53_BITS) == b * LEAST_54_BITS) by (nonlinear_arith)
            requires
                2 * LEAST_53_BITS == LEAST_54_BITS,
        ;
        lemma_down_shift(2 * a, b);
        let d = down_shift(2 * a, b);
        assert(2 * a * two(d) == a * two(1 + d)) by (nonlinear_arith)
            requires
                two(1 + d) == 2 * two(d),
        ;
    }
}

/// A quotient below a bound is nearest to an integer up to that bound.
proof fn lemma_nearest_bounds(a: nat, b: nat, low: nat, high: nat)
    requires
        b > 0,
        b * low <= a < b * high,
    ensures
        low <= nearest(a, b) <= high,
{
    lemma_fundamental_div_mod(a as int, b as int);
    let q = a / b;
    let r = a % b;
    assert(q < high) by (nonlinear_arith)
        requires
            a == b * q + r,
            a < b * high,
            r >= 0,
            b > 0,
    ;
    assert(low <= q) by (nonlinear_arith)
        requires
            a == b * q + r,
            b * low <= a,
            r < b,
            b > 0,
    ;
}

/// Twice a number.
fn doubled(n: &BigNat) -> (r: BigNat)
    ensures
        r@ == 2 * n@,
{
    n.times_plus(2, 0)
}

/// The integer nearest to `a / b`, below 54 binary digits.
fn nearest_quotient(a: BigNat, b: &BigNat) -> (r: u64)
    requires
        b@ > 0,
        a@ < b@ * LEAST_54_BITS,
    ensures
        r == nearest(a@, b@),
        r <= LEAST_54_BITS,
{
    let ghost x = a@;
    let ghost y = b@;
    let half = b.times_plus(0x400_0000, 0);
    let whole = half.times_plus(0x800_0000, 0);
    let ghost d = whole@;
    proof {
        assert(0x400_0000 * 0x800_0000 == LEAST_54_BITS);
        assert(d == y * LEAST_54_BITS) by (nonlinear_arith)
            requires
                d == y * 0x400_0000 * 0x800_0000,
                0x400_0000 * 0x800_0000 == LEAST_54_BITS,
        ;
    }
    let mut rest = a;
    let mut q: u64 = 0;
    proof {
        lemma_two_known();
        lemma_times_two_zero(x);
        assert(0 * d == 0) by (nonlinear_arith);
    }
    for i in 0..53u64
        invariant
            whole@ == d,
            d > 0,
            x < d,
            rest@ < d,
            x * two(i as nat) == q * d + rest@,
            q < two(i as nat),
            two(53) == LEAST_54_BITS,
    {
        let ghost before = rest@;
        let ghost p = q as nat;
        let ghost t = two(i as nat);
        rest = doubled(&rest);
        proof {
            lemma_two_grows((i + 1) as nat, 53);
            assert(two((i + 1) as nat) == 2 * t);
            assert(x * (2 * t) == (2 * p) * d + 2 * before) by (nonlinear_arith)
                requires
                    x * t == p * d + before,
            ;
        }
        q = 2 * q;
        if !rest.less(&whole) {
            rest = rest.minus(&whole);
            q = q + 1;
            proof {
                assert((2 * p + 1) * d == (2 * p) * d + d) by (nonlinear_arith);
            }
        }
    }
    proof {
        let p = q as nat;
        let rem = x - p * y;
        assert(p * d == p * y * LEAST_54_BITS) by (nonlinear_arith)
            requires
                d == y * LEAST_54_BITS,
        ;
        assert(rem * LEAST_54_BITS == rest@) by (nonlinear_arith)
            requires
                x * LEAST_54_BITS == p * y * LEAST_54_BITS + rest@,
                rem == x - p * y,
        ;
        assert(rem >= 0) by (nonlinear_arith)
            requires
                rem * LEAST_54_BITS >= 0,
        ;
        assert(rem < y) by (nonlinear_arith)
            requires
                rem * LEAST_54_BITS < y * LEAST_54_BITS,
        ;
        assert(p * y == y * p) by (nonlinear_arith);
        lemma_fundamental_div_mod_converse(x as int, y as int, p as int, rem);
        assert(x / y == p && x % y == rem);
        assert((2 * rest@ < d) == (2 * rem < y)) by (nonlinear_arith)
            requires
                rest@ == rem * LEAST_54_BITS,
                d == y * LEAST_54_BITS,
        ;
        assert((2 * rest@ == d) == (2 * rem == y)) by (nonlinear_arith)
            requires
                rest@ == rem * LEAST_54_BITS,
                d == y * LEAST_54_BITS,
        ;
    }
    let twice = doubled(&rest);
    if twice.less(&whole) {
        q
    } else if whole.less(&twice) {
        q + 1
    } else if q % 2 == 0 {
        q
    } else {
        q + 1
    }
}

/// The integer part of the number of 53 significant binary digits that is
/// nearest to `a / b`, capped to 64 binary digits.
fn float_floor_capped(a: BigNat, b: BigNat) -> (r: u64)
    requires
        b@ > 0,
    ensures
        r == capped(float_floor(a@, b@)),
{
    let ghost x = a@;
    let ghost y = b@;
    let zero = BigNat::zero();
    if !zero.less(&a) {
        return 0;
    }
    let mut divisor = b.times_plus(1, 0);
    let mut bound = b.times_plus(0x400_0000, 0).times_plus(0x800_0000, 0);
    let mut up: u64 = 0;
    proof {
        assert(0x400_0000 * 0x800_0000 == LEAST_54_BITS);
        assert(y * 0x400_0000 * 0x800_0000 == y * LEAST_54_BITS) by (nonlinear_arith)
            requires
                0x400_0000 * 0x800_0000 == LEAST_54_BITS,
        ;
        lemma_times_two_zero(y);
        lemma_up_shift(x, y);
        lemma_two_known();
    }
    while up < 12 && !a.less(&bound)
        invariant
            a@ == x,
            y > 0,
            up <= 12,
            divisor@ == y * two(up as nat),
            bound@ == divisor@ * LEAST_54_BITS,
            divisor@ > 0,
            up_shift(x, y) == up + up_shift(x, divisor@),
        decreases 12 - up,
    {
        let ghost v = divisor@;
        divisor = doubled(&divisor);
        bound = doubled(&bound);
        up = up + 1;
        proof {
            let t = two((up - 1) as nat);
            assert(2 * (y * t) == y * (2 * t)) by (nonlinear_arith);
            assert(2 * (v * LEAST_54_BITS) == (2 * v) * LEAST_54_BITS) by (nonlinear_arith);
        }
    }
    if up == 12 {
        proof {
            let u = up_shift(x, y);
            lemma_two_grows(12, u);
            lemma_two_positive(u);
            let v = y * two(u);
            assert(v > 0) by (nonlinear_arith)
                requires
                    v == y * two(u),
                    y > 0,
                    two(u) > 0,
            ;
            lemma_nearest_bounds(x, v, LEAST_53_BITS as nat, LEAST_54_BITS as nat);
            assert(nearest(x, v) * two(u) >= LEAST_53_BITS * 4096) by (nonlinear_arith)
                requires
                    nearest(x, v) >= LEAST_53_BITS,
                    two(u) >= 4096,
            ;
        }
        return u64::MAX;
    }
    if up > 0 {
        proof {
            assert(up_shift(x, divisor@) == 0);
        }
        let q = nearest_quotient(a, &divisor);
        let mut r: u128 = q as u128;
        let mut i: u64 = 0;
        proof {
            lemma_two_grows(up as nat, 12);
            lemma_times_two_zero(q as nat);
        }
        while i < up
            invariant
                i <= up <= 12,
                q <= LEAST_54_BITS,
                r == q * two(i as nat),
                two(12) == 4096,
            decreases up - i,
        {
            proof {
                lemma_two_grows(i as nat, 12);
                let t = two(i as nat);
                assert(q * t <= LEAST_54_BITS * 4096) by (nonlinear_arith)
                    requires
                        q <= LEAST_54_BITS,
                        t <= 4096,
                ;
                assert(2 * (q * t) == q * (2 * t)) by (nonlinear_arith);
            }
            r = 2 * r;
            i = i + 1;
        }
        if r <= u64::MAX as u128 {
            return r as u64;
        } else {
            return u64::MAX;
        }
    }
    let low = b.times_plus(0x400_0000, 0).times_plus(0x400_0000, 0);
    let mut dividend = a;
    let mut down: u64 = 0;
    proof {
        assert(0x400_0000 * 0x400_0000 == LEAST_53_BITS);
        assert(y * 0x400_0000 * 0x400_0000 == y * LEAST_53_BITS) by (nonlinear_arith)
            requires
                0x400_0000 * 0x400_0000 == LEAST_53_BITS,
        ;
        lemma_times_two_zero(x);
        lemma_times_two_zero(y);
        lemma_down_shift(x, y);
    }
    while down < 54 && dividend.less(&low)
        invariant
            x > 0,
            down <= 54,
            low@ == y * LEAST_53_BITS,
            dividend@ == x * two(down as nat),
            dividend@ > 0,
            down_shift(x, y) == down + down_shift(dividend@, y),
        decreases 54 - down,
    {
        dividend = doubled(&dividend);
        down = down + 1;
        proof {
            let t = two((down - 1) as nat);
            assert(2 * (x * t) == x * (2 * t)) by (nonlinear_arith);
        }
    }
    if down == 54 {
        proof {
            let d = down_shift(x, y);
            lemma_two_grows(54, d);
            assert(y * 0 <= x * two(d)) by (nonlinear_arith);
            lemma_nearest_bounds(x * two(d), y, 0, LEAST_54_BITS as nat);
            vstd::arithmetic::div_mod::lemma_basic_div(
                nearest(x * two(d), y) as int,
                two(d) as int,
            );
        }
        return 0;
    }
    proof {
        assert(down_shift(dividend@, y) == 0);
    }
    let q = nearest_quotient(dividend, &b);
    let mut r: u64 = q;
    let mut i: u64 = 0;
    proof {
        assert(q as nat / two(0) == q);
    }
    while i < down
        invariant
            i <= down,
            r == q as nat / two(i as nat),
        decreases down - i,
    {
        proof {
            let t = two(i as nat);
            lemma_two_positive(i as nat);
            vstd::arithmetic::div_mod::lemma_div_denominator(q as int, t as int, 2);
            assert(t * 2 == two((i + 1) as nat));
        }
        r = r / 2;
        i = i + 1;
    }
    r
}

/// Whether a character may stand in the number of a size.
pub open spec fn is_number_char(c: char) -> bool {
    is_digit(c) || c == '.'
}

/// How many characters at the start of a text may stand in a number.
pub open spec fn number_len(s: Seq<char>) -> nat
    decreases s.len(),
{
    if s.len() == 0 || !is_number_char(s[0]) {
        0
    } else {
        1 + number_len(s.drop_first())
    }
}

/// The digits of a decimal number, without its point, and how many of them
/// stand behind the point.
pub open spec fn decimal_digits(s: Seq<char>) -> (Seq<char>, nat) {
    let at = first_of(s, '.');
    if at < s.len() {
        (s.take(at) + s.skip(at + 1), (s.len() - at - 1) as nat)
    } else {
        (s, 0)
    }
}

/// The power of 1024 that a unit stands for.
pub open spec fn unit_power(unit: Seq<char>) -> Option<nat> {
    let name = lower_text(trimmed(unit));
    if name == "b"@ {
        Some(0)
    } else if name == "kb"@ || name == "kib"@ {
        Some(1)
    } else if name == "mb"@ || name == "mib"@ {
        Some(2)
    } else if name == "gb"@ || name == "gib"@ {
        Some(3)
    } else if name == "tb"@ || name == "tib"@ {
        Some(4)
    } else if name == "pb"@ || name == "pib"@ {
        Some(5)
    } else {
        None
    }
}

/// The number of bytes of `digits`, with the last `behind` of them behind the
/// point, in units of 1024 to the given power.
pub open spec fn size_of(digits: Seq<char>, behind: nat, power: nat) -> u64 {
    capped(float_floor(digits_value(digits) * two(10 * power), ten(behind)))
}

/// The number of bytes that a size stands for, if it is one: a decimal number
/// and a unit.
pub open spec fn docker_size(s: Seq<char>) -> Option<u64> {
    let t = trimmed(s);
    let n = number_len(t) as int;
    let (digits, behind) = decimal_digits(t.take(n));
    match unit_power(t.skip(n)) {
        Some(power) => if n < t.len() && all_digits(digits) {
            Some(size_of(digits, behind, power))
        } else {
            None
        },
        None => None,
    }
}

proof fn lemma_number_len(s: Seq<char>, n: int)
    requires
        0 <= n <= s.len(),
        forall|i: int| 0 <= i < n ==> is_number_char(#[trigger] s[i]),
        n < s.len() ==> !is_number_char(s[n]),
    ensures
        number_len(s) == n,
    decreases s.len(),
{
    if n > 0 {
        let rest = s.drop_first();
        assert forall|i: int| 0 <= i < n - 1 implies is_number_char(#[trigger] rest[i]) by {
            assert(rest[i] == s[i + 1]);
        }
        assert(is_number_char(s[0]));
        lemma_number_len(rest, n - 1);
    }
}

proof fn lemma_ten_positive(n: nat)
    ensures
        ten(n) > 0,
    decreases n,
{
    if n > 0 {
        lemma_ten_positive((n - 1) as nat);
    }
}

/// The power of 1024 that a unit stands for.
fn parse_unit(unit: &str) -> (r: Option<u32>)
    ensures
        match r {
            Some(power) => unit_power(unit@) == Some(power as nat) && power <= 5,
            None => unit_power(unit@) is None,
        },
{
    let name = to_lower_text(trim_text(unit).as_str());
    let name = name.as_str();
    if same_text(name, "b") {
        Some(0)
    } else if same_text(name, "kb") || same_text(name, "kib") {
        Some(1)
    } else if same_text(name, "mb") || same_text(name, "mib") {
        Some(2)
    } else if same_text(name, "gb") || same_text(name, "gib") {
        Some(3)
    } else if same_text(name, "tb") || same_text(name, "tib") {
        Some(4)
    } else if same_text(name, "pb") || same_text(name, "pib") {
        Some(5)
    } else {
        None
    }
}

/// The number that a row of digits stands for.
fn digits_number(digits: &Vec<char>) -> (r: BigNat)
    requires
        all_digits(digits@),
    ensures
        r@ == digits_value(digits@),
{
    let mut r = BigNat::zero();
    let ghost all = digits@;
    for i in 0..digits.len()
        invariant
            all == digits@,
            all_digits(all),
            r@ == digits_value(all.take(i as int)),
    {
        assert(is_digit(all[i as int]));
        let d: u32 = digits[i] as u32 - 48;
        r = r.times_plus(10, d);
        proof {
            assert(all.take(i + 1).drop_last() =~= all.take(i as int));
            assert(all.take(i + 1).last() == all[i as int]);
        }
    }
    proof {
        assert(all.take(all.len() as int) =~= all);
    }
    r
}

/// The number of bytes that a size stands for, if it is one.
pub fn parse_docker_size_bytes(size: &str) -> (r: Option<u64>)
    ensures
        r == docker_size(size@),
{
    let size = trim_text(size);
    let v = chars_of(size.as_str());
    let ghost t = size@;
    let mut n: usize = 0;
    while n < v.len() && (char_is_digit(v[n]) || v[n] == '.')
        invariant
            v@ == t,
            n <= v.len(),
            forall|i: int| 0 <= i < n ==> is_number_char(#[trigger] t[i]),
        decreases v.len() - n,
    {
        n += 1;
    }
    proof {
        lemma_number_len(t, n as int);
    }
    if n == v.len() {
        return None;
    }
    let ghost number = t.take(n as int);
    let mut at: usize = 0;
    while at < n && v[at] != '.'
        invariant
            v@ == t,
            at <= n < v.len(),
            number == t.take(n as int),
            forall|i: int| 0 <= i < at ==> number[i] != '.',
        decreases n - at,
    {
        at += 1;
    }
    let mut digits: Vec<char> = Vec::new();
    let mut valid = true;
    let ghost parts = decimal_digits(number);
    proof {
        lemma_first_of_is(number, '.', at as int);
    }
    let skipped: usize = if at < n {
        1
    } else {
        0
    };
    let total: usize = n - skipped;
    proof {
        assert(parts.0.len() == total);
    }
    for i in 0..total
        invariant
            v@ == t,
            n < v.len(),
            at <= n,
            skipped == (if at < n {
                1usize
            } else {
                0usize
            }),
            total == n - skipped,
            number == t.take(n as int),
            parts == decimal_digits(number),
            first_of(number, '.') == at,
            digits@ == parts.0.take(i as int),
            valid == (forall|j: int| 0 <= j < i ==> is_digit(#[trigger] parts.0[j])),
    {
        let c = if i < at {
            v[i]
        } else {
            v[i + skipped]
        };
        proof {
            assert(c == parts.0[i as int]);
            assert(parts.0.take(i + 1) =~= parts.0.take(i as int).push(c));
        }
        digits.push(c);
        valid = valid && char_is_digit(c);
    }
    proof {
        assert(parts.0.take(total as int) =~= parts.0);
    }
    let behind: usize = if at < n {
        n - at - 1
    } else {
        0
    };
    proof {
        assert(t.subrange(n as int, t.len() as int) =~= t.skip(n as int));
    }
    let power = match parse_unit(size.as_str().substring_char(n, v.len())) {
        Some(power) => power,
        None => return None,
    };
    if total == 0 || !valid {
        return None;
    }
    let mut a = digits_number(&digits);
    let ghost value = a@;
    proof {
        lemma_times_two_zero(value);
    }
    for i in 0..power
        invariant
            power <= 5,
            a@ == value * two((10 * i) as nat),
    {
        a = a.times_plus(1024, 0);
        proof {
            let e = (10 * i) as nat;
            lemma_two_add(e, 10);
            reveal_with_fuel(two, 11);
            assert(value * two(e) * 1024 == value * (two(e) * 1024)) by (nonlinear_arith);
        }
    }
    let mut b = BigNat::zero().times_plus(0, 1);
    for i in 0..behind
        invariant
            b@ == ten(i as nat),
    {
        b = b.times_plus(10, 0);
    }
    proof {
        lemma_ten_positive(behind as nat);
    }
    Some(float_floor_capped(a, b))
}

/// The size of which the given text is the first part, or zero.
pub open spec fn size_or_zero(s: Seq<char>) -> u64 {
    match docker_size(s) {
        Some(n) => n,
        None => 0,
    }
}

/// The first of two sizes with a slash between, or zero if it is none.
pub fn parse_first_docker_size_bytes(value: &str) -> (r: u64)
    ensures
        r == size_or_zero(split_first(value@, '/').0),
{
    match parse_docker_size_bytes(split_first_text(value, '/').0.as_str()) {
        Some(n) => n,
        None => 0,
    }
}

/// What an effect has read from and written to disks, in bytes.
#[derive(Clone, Copy, Debug, PartialEq, Eq, Structural)]
pub struct DiskUsage {
    pub total_written_bytes: u64,
    pub written_bytes: u64,
    pub total_read_bytes: u64,
    pub read_bytes: u64,
}

/// What stands between the first and the second slash, or nothing.
pub open spec fn second_part(s: Seq<char>) -> Seq<char> {
    match split_first(s, '/').1 {
        Some(rest) => split_first(rest, '/').0,
        None => seq![],
    }
}

/// What a container has read and written: two sizes with a slash between, each
/// zero if it is none. Docker tells only totals.
pub fn parse_block_io(block_io: &str) -> (r: DiskUsage)
    ensures
        ({
            let read = size_or_zero(split_first(block_io@, '/').0);
            let written = size_or_zero(second_part(block_io@));
            r == (DiskUsage {
                total_written_bytes: written,
                written_bytes: written,
                total_read_bytes: read,
                read_bytes: read,
            })
        }),
{
    let (first, rest) = split_first_text(block_io, '/');
    let read_bytes = match parse_docker_size_bytes(first.as_str()) {
        Some(n) => n,
        None => 0,
    };
    let second = match rest {
        Some(rest) => split_first_text(rest.as_str(), '/').0,
        None => String::new(),
    };
    proof {
        assert(second@ =~= second_part(block_io@));
    }
    let written_bytes = match parse_docker_size_bytes(second.as_str()) {
        Some(n) => n,
        None => 0,
    };
    DiskUsage {
        total_written_bytes: written_bytes,
        written_bytes,
        total_read_bytes: read_bytes,
        read_bytes,
    }
}

/// A whole number below 54 binary digits, in any unit, is a size exactly.
pub proof fn law_whole_sizes_exact(n: nat, power: nat)
    requires
        n < LEAST_54_BITS,
    ensures
        float_floor(n * two(10 * power), 1) == n * two(10 * power),
{
    let j = 10 * power;
    let a = n * two(j);
    lemma_two_positive(j);
    if a > 0 {
        lemma_up_shift(a, 1);
        let u = up_shift(a, 1);
        if u > 0 {
            assert(1 * two(u) == two(u)) by (nonlinear_arith);
            if u > j {
                lemma_two_grows(j, (u - 1) as nat);
                assert(a < two(u) * LEAST_53_BITS) by (nonlinear_arith)
                    requires
                        a == n * two(j),
                        n < LEAST_54_BITS,
                        2 * two(j) <= two(u),
                        2 * LEAST_53_BITS == LEAST_54_BITS,
                        two(j) > 0,
                ;
            }
            let k = (j - u) as nat;
            lemma_two_add(u, k);
            let q = n * two(k);
            assert(a == two(u) * q) by (nonlinear_arith)
                requires
                    a == n * two(j),
                    two(j) == two(u) * two(k),
                    q == n * two(k),
            ;
            lemma_two_positive(u);
            assert(two(u) * q == q * two(u)) by (nonlinear_arith);
            lemma_fundamental_div_mod_converse(a as int, two(u) as int, q as int, 0);
        } else {
            lemma_times_two_zero(1);
            lemma_down_shift(a, 1);
            let d = down_shift(a, 1);
            let b = a * two(d);
            lemma_two_positive(d);
            assert(b == 1 * b + 0);
            lemma_fundamental_div_mod_converse(b as int, 1, b as int, 0);
            assert(nearest(b, 1) == b);
            assert(b == two(d) * a + 0) by (nonlinear_arith)
                requires
                    b == a * two(d),
            ;
            lemma_fundamental_div_mod_converse(b as int, two(d) as int, a as int, 0);
        }
    }
}

/// The units of sizes: bytes, and the powers of 1024 with and without an `i`, in
/// any case and with white space round them; no other text is a unit.
pub proof fn law_units(unit: Seq<char>)
    ensures
        ({
            let name = lower_text(trimmed(unit));
            &&& unit_power(unit) == Some(0nat) <==> name == "b"@
            &&& unit_power(unit) == Some(1nat) <==> name == "kb"@ || name == "kib"@
            &&& unit_power(unit) == Some(2nat) <==> name == "mb"@ || name == "mib"@
            &&& unit_power(unit) == Some(3nat) <==> name == "gb"@ || name == "gib"@
            &&& unit_power(unit) == Some(4nat) <==> name == "tb"@ || name == "tib"@
            &&& unit_power(unit) == Some(5nat) <==> name == "pb"@ || name == "pib"@
            &&& unit_power(unit) is Some ==> unit_power(unit)->0 <= 5
        }),
{
    reveal_strlit("b");
    reveal_strlit("kb");
    reveal_strlit("kib");
    reveal_strlit("mb");
    reveal_strlit("mib");
    reveal_strlit("gb");
    reveal_strlit("gib");
    reveal_strlit("tb");
    reveal_strlit("tib");
    reveal_strlit("pb");
    reveal_strlit("pib");
    assert("kb"@[0] == 'k' && "kib"@[0] == 'k' && "mb"@[0] == 'm' && "mib"@[0] == 'm');
    assert("gb"@[0] == 'g' && "gib"@[0] == 'g' && "tb"@[0] == 't' && "tib"@[0] == 't');
    assert("pb"@[0] == 'p' && "pib"@[0] == 'p' && "b"@.len() == 1);
    assert("kb"@.len() == 2 && "mb"@.len() == 2 && "gb"@.len() == 2 && "tb"@.len() == 2);
    assert("pb"@.len() == 2 && "kib"@.len() == 3 && "mib"@.len() == 3 && "gib"@.len() == 3);
    assert("tib"@.len() == 3 && "pib"@.len() == 3);
}

/// A size is read from its digits, with those behind the point divided off, and
/// its unit; the number of bytes is the integer part of their product as it is
/// held, and no more than fits.
pub proof fn law_sizes_are_read(whole: Seq<char>, part: Seq<char>, unit: Seq<char>)
    requires
        all_digits(whole),
        forall|i: int| 0 <= i < part.len() ==> is_digit(#[trigger] part[i]),
        unit.len() > 0,
        !is_digit(unit[0]) && unit[0] != '.',
        !is_space(unit.last()),
    ensures
        match unit_power(unit) {
            Some(power) => {
                let bytes = float_floor(
                    digits_value(whole + part) * two(10 * power),
                    ten(part.len()),
                );
                let size = if bytes <= u64::MAX {
                    bytes as u64
                } else {
                    u64::MAX
                };
                &&& docker_size(whole + seq!['.'] + part + unit) == Some(size)
                &&& part.len() == 0 ==> docker_size(whole + unit) == Some(size)
            },
            None => docker_size(whole + seq!['.'] + part + unit) is None && docker_size(whole + unit)
                is None,
        },
{
    let number = whole + seq!['.'] + part;
    let s = number + unit;
    assert forall|i: int| 0 <= i < number.len() implies is_number_char(#[trigger] number[i]) by {
        if i < whole.len() {
            assert(is_digit(whole[i]));
        } else if i > whole.len() {
            assert(number[i] == part[i - whole.len() - 1]);
        }
    }
    lemma_size_is_split(number, unit);
    assert forall|i: int| 0 <= i < whole.len() implies number[i] != '.' by {
        assert(is_digit(whole[i]));
    }
    assert(number[whole.len() as int] == '.');
    lemma_first_of_is(number, '.', whole.len() as int);
    assert(number.take(whole.len() as int) + number.skip(whole.len() as int + 1) =~= whole + part);
    assert forall|i: int| 0 <= i < (whole + part).len() implies is_digit(#[trigger] (whole + part)[i]) by {
        if i < whole.len() {
            assert(is_digit(whole[i]));
        } else {
            assert((whole + part)[i] == part[i - whole.len()]);
        }
    }
    assert forall|i: int| 0 <= i < whole.len() implies is_number_char(#[trigger] whole[i]) by {
        assert(is_digit(whole[i]));
    }
    lemma_size_is_split(whole, unit);
    assert forall|i: int| 0 <= i < whole.len() implies whole[i] != '.' by {
        assert(is_digit(whole[i]));
    }
    lemma_first_of_is(whole, '.', whole.len() as int);
    if part.len() == 0 {
        assert(whole + part =~= whole);
    }
}

proof fn lemma_size_is_split(number: Seq<char>, unit: Seq<char>)
    requires
        number.len() > 0,
        is_digit(number[0]),
        forall|i: int| 0 <= i < number.len() ==> is_number_char(#[trigger] number[i]),
        unit.len() > 0,
        !is_number_char(unit[0]),
        !is_space(unit.last()),
    ensures
        trimmed(number + unit) == number + unit,
        number_len(number + unit) == number.len(),
        (number + unit).take(number.len() as int) == number,
        (number + unit).skip(number.len() as int) == unit,
{
    let s = number + unit;
    let none = Seq::<char>::empty();
    assert(s[0] == number[0]);
    assert(s.last() == unit.last());
    law_trimmed(none, s, none);
    assert(none + s + none =~= s);
    assert forall|i: int| 0 <= i < number.len() implies is_number_char(#[trigger] s[i]) by {
        assert(s[i] == number[i]);
    }
    assert(s[number.len() as int] == unit[0]);
    lemma_number_len(s, number.len() as int);
    assert(s.take(number.len() as int) =~= number);
    assert(s.skip(number.len() as int) =~= unit);
}

/// A whole number of a unit is that many bytes, 1024 of a unit making one of the
/// next, as long as they fit.
pub proof fn law_whole_sizes(n: nat, unit: Seq<char>)
    requires
        n < LEAST_54_BITS,
        unit.len() > 0,
        !is_digit(unit[0]) && unit[0] != '.',
        !is_space(unit.last()),
    ensures
        ({
            let name = lower_text(trimmed(unit));
            let read = docker_size(decimal(n) + unit);
            let is = |bytes: nat| bytes <= u64::MAX ==> read == Some(bytes as u64);
            &&& name == "b"@ ==> is(n)
            &&& name == "kb"@ || name == "kib"@ ==> is(n * 1024)
            &&& name == "mb"@ || name == "mib"@ ==> is(n * 1048576)
            &&& name == "gb"@ || name == "gib"@ ==> is(n * 1073741824)
            &&& name == "tb"@ || name == "tib"@ ==> is(n * 1099511627776)
            &&& name == "pb"@ || name == "pib"@ ==> is(n * 1125899906842624)
        }),
{
    law_units(unit);
    lemma_decimal(n);
    let none = Seq::<char>::empty();
    law_sizes_are_read(decimal(n), none, unit);
    assert(decimal(n) + none =~= decimal(n));
    if let Some(power) = unit_power(unit) {
        law_whole_sizes_exact(n, power);
        lemma_powers_of_1024();
        let unit_bytes: nat = if power == 0 {
            1
        } else if power == 1 {
            1024
        } else if power == 2 {
            1048576
        } else if power == 3 {
            1073741824
        } else if power == 4 {
            1099511627776
        } else {
            1125899906842624
        };
        assert(two(10 * power) == unit_bytes);
        assert(ten(none.len()) == 1);
        assert(n * unit_bytes <= u64::MAX ==> docker_size(decimal(n) + unit) == Some(
            (n * unit_bytes) as u64,
        ));
    }
}

proof fn lemma_powers_of_1024()
    ensures
        two(0) == 1,
        two(10) == 1024,
        two(20) == 1048576,
        two(30) == 1073741824,
        two(40) == 1099511627776,
        two(50) == 1125899906842624,
{
    reveal_with_fuel(two, 51);
}

/// A text without a number, or with nothing behind it, is no size.
pub proof fn law_no_size(s: Seq<char>)
    ensures
        s.len() == 0 ==> docker_size(s) is None,
        s.len() > 0 && !is_digit(s[0]) && s[0] != '.' && !is_space(s[0]) && !is_space(s.last())
            ==> docker_size(s) is None,
        (forall|i: int| 0 <= i < s.len() ==> is_digit(#[trigger] s[i])) ==> docker_size(s) is None,
{
    let none = Seq::<char>::empty();
    law_units(none);
    reveal_strlit("b");
    reveal_strlit("kb");
    reveal_strlit("kib");
    reveal_strlit("mb");
    reveal_strlit("mib");
    reveal_strlit("gb");
    reveal_strlit("gib");
    reveal_strlit("tb");
    reveal_strlit("tib");
    reveal_strlit("pb");
    reveal_strlit("pib");
    assert(lower_text(trimmed(none)).len() == 0);
    if s.len() > 0 && !is_space(s[0]) && !is_space(s.last()) {
        law_trimmed(none, s, none);
        assert(none + s + none =~= s);
        if !is_number_char(s[0]) {
            assert(s.take(0) =~= none);
            lemma_first_of_is(none, '.', 0);
        }
    }
    if forall|i: int| 0 <= i < s.len() ==> is_digit(#[trigger] s[i]) {
        if s.len() > 0 {
            assert(is_digit(s[0]));
            assert(is_digit(s[s.len() - 1]));
            assert forall|i: int| 0 <= i < s.len() implies is_number_char(#[trigger] s[i]) by {
                assert(is_digit(s[i]));
            }
            lemma_number_len(s, s.len() as int);
            assert(s.skip(s.len() as int) =~= none);
        } else {
            assert(s =~= none);
            assert(trimmed(s) =~= none);
            assert(trimmed(s).skip(0) =~= none);
        }
    }
}

/// The integer nearest to a quotient is at most a half away from it, and is even
/// where it is just that.
pub proof fn law_nearest(a: nat, b: nat)
    requires
        b > 0,
    ensures
        -(b as int) <= 2 * (b * nearest(a, b) - a) <= b,
        2 * (b * nearest(a, b) - a) == b || 2 * (a - b * nearest(a, b)) == b ==> nearest(a, b) % 2
            == 0,
{
    lemma_fundamental_div_mod(a as int, b as int);
    let q = a / b;
    let r = a % b;
    assert(b * (q + 1) == b * q + b) by (nonlinear_arith);
}

/// As long as it has no more than 53 binary digits, what is held of a quotient
/// is its integer part or the integer above, and a whole quotient is held as it
/// is.
pub proof fn law_small_quotients(a: nat, b: nat)
    requires
        b > 0,
        a < b * LEAST_54_BITS,
    ensures
        a / b <= float_floor(a, b) <= a / b + 1,
        a % b == 0 ==> float_floor(a, b) == a / b,
{
    lemma_fundamental_div_mod(a as int, b as int);
    let q = a / b;
    let r = a % b;
    if a == 0 {
        assert(q == 0) by (nonlinear_arith)
            requires
                b * q + r == 0,
                b > 0,
                q >= 0,
                r >= 0,
        ;
    } else {
        lemma_down_shift(a, b);
        let d = down_shift(a, b);
        let t = two(d);
        lemma_two_positive(d);
        let x = a * t;
        let low = q * t;
        let high = (q + 1) * t;
        assert(b * low <= x && x < b * high) by (nonlinear_arith)
            requires
                a == b * q + r,
                0 <= r < b,
                t > 0,
                x == a * t,
                low == q * t,
                high == (q + 1) * t,
        ;
        lemma_nearest_bounds(x, b, low, high);
        let m = nearest(x, b);
        lemma_fundamental_div_mod(m as int, t as int);
        assert(q <= m / t && m / t <= q + 1) by (nonlinear_arith)
            requires
                m == t * (m / t) + m % t,
                0 <= m % t < t,
                q * t <= m,
                m <= (q + 1) * t,
                t > 0,
        ;
        if r == 0 {
            assert(x == b * low) by (nonlinear_arith)
                requires
                    a == b * q,
                    x == a * t,
                    low == q * t,
            ;
            lemma_fundamental_div_mod_converse(x as int, b as int, low as int, 0);
            assert(m == low);
            assert(low == t * q + 0) by (nonlinear_arith)
                requires
                    low == q * t,
            ;
            lemma_fundamental_div_mod_converse(low as int, t as int, q as int, 0);
        }
    }
}

/// Of two sizes with a slash between, the second is what stands behind the
/// slash, up to the next one if there is one; without a slash there is none, and
/// what is no size counts as nothing.
pub proof fn law_two_sizes(first: Seq<char>, second: Seq<char>, rest: Seq<char>)
    requires
        !first.contains('/'),
        !second.contains('/'),
    ensures
        split_first(first + seq!['/'] + second, '/').0 == first,
        second_part(first + seq!['/'] + second) == second,
        second_part(first + seq!['/'] + second + seq!['/'] + rest) == second,
        second_part(first) == Seq::<char>::empty(),
        size_or_zero(first) == (match docker_size(first) {
            Some(bytes) => bytes,
            None => 0u64,
        }),
{
    law_split_first(first, '/', second);
    law_split_first(second, '/', rest);
    law_split_first(first, '/', second + seq!['/'] + rest);
    assert(first + seq!['/'] + second + seq!['/'] + rest =~= first + seq!['/'] + (second + seq!['/']
        + rest));
}

/// What is held of a quotient has 53 significant binary digits: the quotient is
/// scaled by the power of two that gives it so many before the point, rounded to
/// the nearest integer there, and scaled back.
pub proof fn law_held_quotients(a: nat, b: nat, shift: nat)
    requires
        b > 0,
        a > 0,
    ensures
        b * LEAST_53_BITS <= a * two(shift) < b * LEAST_54_BITS ==> float_floor(a, b) == nearest(
            a * two(shift),
            b,
        ) / two(shift),
        shift > 0 && b * two(shift) * LEAST_53_BITS <= a < b * two(shift) * LEAST_54_BITS
            ==> float_floor(a, b) == nearest(a, b * two(shift)) * two(shift),
{
    lemma_two_positive(shift);
    if b * LEAST_53_BITS <= a * two(shift) < b * LEAST_54_BITS {
        lemma_down_shift_is(a, b, shift);
        assert(a <= a * two(shift)) by (nonlinear_arith)
            requires
                two(shift) >= 1,
                a >= 0,
        ;
    }
    if shift > 0 && b * two(shift) * LEAST_53_BITS <= a < b * two(shift) * LEAST_54_BITS {
        lemma_up_shift_is(a, b, shift);
    }
}

proof fn lemma_down_shift_is(a: nat, b: nat, d: nat)
    requires
        a > 0,
        b * LEAST_53_BITS <= a * two(d) < b * LEAST_54_BITS,
    ensures
        down_shift(a, b) == d,
    decreases d,
{
    if d == 0 {
        lemma_times_two_zero(a);
    } else {
        let t = two((d - 1) as nat);
        lemma_two_positive((d - 1) as nat);
        assert(a * two(d) == 2 * a * t && 2 * a <= 2 * a * t) by (nonlinear_arith)
            requires
                two(d) == 2 * t,
                t >= 1,
                a >= 0,
        ;
        assert(b * LEAST_54_BITS == 2 * (b * LEAST_53_BITS)) by (nonlinear_arith)
            requires
                2 * LEAST_53_BITS == LEAST_54_BITS,
        ;
        lemma_down_shift_is(2 * a, b, (d - 1) as nat);
    }
}

proof fn lemma_up_shift_is(a: nat, b: nat, u: nat)
    requires
        b > 0,
        u > 0 ==> b * two(u) * LEAST_53_BITS <= a,
        a < b * two(u) * LEAST_54_BITS,
    ensures
        up_shift(a, b) == u,
    decreases u,
{
    if u == 0 {
        lemma_times_two_zero(b);
    } else {
        let t = two((u - 1) as nat);
        lemma_two_positive((u - 1) as nat);
        assert(b * two(u) == 2 * b * t) by (nonlinear_arith)
            requires
                two(u) == 2 * t,
        ;
        assert(b * LEAST_54_BITS <= 2 * b * t * LEAST_53_BITS) by (nonlinear_arith)
            requires
                t >= 1,
                b > 0,
                2 * LEAST_53_BITS == LEAST_54_BITS,
        ;
        lemma_up_shift_is(a, 2 * b, (u - 1) as nat);
    }
}

} // verus!
