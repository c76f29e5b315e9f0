//! Numbers as text: decimal and hexadecimal digits, and their reading.
use vstd::prelude::*;

use crate::text::char_is_digit;
use crate::text::chars_of;
use crate::text::is_digit;

verus! {

/// The decimal digit for a number below ten.
pub open spec fn digit(n: nat) -> char {
    (48 + n) as char
}

/// The decimal writing of a number, without leading zeros.
pub open spec fn decimal(n: nat) -> Seq<char>
    decreases n,
{
    if n < 10 {
        seq![digit(n)]
    } else {
        decimal(n / 10).push(digit(n % 10))
    }
}

/// The decimal writing of a signed number.
pub open spec fn signed_decimal(n: int) -> Seq<char> {
    if n < 0 {
        seq!['-'] + decimal((-n) as nat)
    } else {
        decimal(n as nat)
    }
}

/// The decimal writing of a number.
pub fn decimal_text(n: u64) -> (r: String)
    ensures
        r@ == decimal(n as nat),
    decreases n,
{
    let d: u8 = 48 + (n % 10) as u8;
    let mut r = if n < 10 {
        String::new()
    } else {
        decimal_text(n / 10)
    };
    r.push(d as char);
    proof {
        if n < 10 {
            assert(seq![].push(d as char) =~= decimal(n as nat));
        }
    }
    r
}

/// The decimal writing of a signed number.
pub fn signed_decimal_text(n: i8) -> (r: String)
    ensures
        r@ == signed_decimal(n as int),
{
    if n < 0 {
        let mut r = String::new();
        r.push('-');
        let m: i16 = 0 - (n as i16);
        r.append(decimal_text(m as u64).as_str());
        proof {
            assert(Seq::<char>::empty().push('-') =~= seq!['-']);
        }
        r
    } else {
        decimal_text(n as u64)
    }
}

/// The number that a row of decimal digits stands for.
pub open spec fn digits_value(s: Seq<char>) -> nat
    decreases s.len(),
{
    if s.len() == 0 {
        0
    } else {
        digits_value(s.drop_last()) * 10 + (s.last() as nat - 48) as nat
    }
}

/// Whether a text is a non-empty row of decimal digits.
pub open spec fn all_digits(s: Seq<char>) -> bool {
    s.len() > 0 && forall|i: int| 0 <= i < s.len() ==> is_digit(#[trigger] s[i])
}

/// The digits of a number: what follows a leading `+`, or the whole text.
pub open spec fn unsigned_digits(s: Seq<char>) -> Seq<char> {
    if s.len() > 0 && s[0] == '+' {
        s.drop_first()
    } else {
        s
    }
}

/// The number that a text stands for: decimal digits, with an optional `+`.
pub open spec fn number_of(s: Seq<char>) -> Option<nat> {
    if all_digits(unsigned_digits(s)) {
        Some(digits_value(unsigned_digits(s)))
    } else {
        None
    }
}

/// The number that a text stands for, if it is at most `max`.
pub open spec fn bounded_number_of(s: Seq<char>, max: nat) -> Option<nat> {
    match number_of(s) {
        Some(n) => if n <= max {
            Some(n)
        } else {
            None
        },
        None => None,
    }
}

proof fn lemma_digits_value_grows(s: Seq<char>, k: int)
    requires
        0 <= k <= s.len(),
    ensures
        digits_value(s.take(k)) <= digits_value(s),
    decreases s.len() - k,
{
    if k < s.len() {
        lemma_digits_value_grows(s, k + 1);
        assert(s.take(k + 1).drop_last() =~= s.take(k));
    } else {
        assert(s.take(k) =~= s);
    }
}

/// Reads a decimal number of at most `max`.
pub fn parse_bounded(s: &str, max: u64) -> (r: Option<u64>)
    ensures
        r is Some == bounded_number_of(s@, max as nat) is Some,
        r is Some ==> r->0 as nat == bounded_number_of(s@, max as nat)->0,
{
    let v = chars_of(s);
    let from: usize = if v.len() > 0 && v[0] == '+' {
        1
    } else {
        0
    };
    let ghost d = unsigned_digits(s@);
    proof {
        assert(d =~= s@.skip(from as int));
    }
    if from >= v.len() {
        return None;
    }
    let mut n: u64 = 0;
    let mut i: usize = from;
    while i < v.len()
        invariant
            v@ == s@,
            from <= i <= v.len(),
            d == s@.skip(from as int),
            d == unsigned_digits(s@),
            n == digits_value(d.take(i - from)),
            n <= max,
            forall|j: int| 0 <= j < i - from ==> is_digit(#[trigger] d[j]),
        decreases v.len() - i,
    {
        let c = v[i];
        if !char_is_digit(c) {
            assert(!is_digit(d[i - from]));
            return None;
        }
        let k: u64 = c as u64 - 48;
        proof {
            assert(d.take(i + 1 - from).drop_last() =~= d.take(i - from));
            lemma_digits_value_grows(d, i + 1 - from);
        }
        if k > max || n > (max - k) / 10 {
            return None;
        }
        n = n * 10 + k;
        i += 1;
    }
    proof {
        assert(d.take(v.len() - from) =~= d);
    }
    Some(n)
}

/// Reads a decimal number that fits in 64 bits.
pub fn parse_u64(s: &str) -> (r: Option<u64>)
    ensures
        r is Some == bounded_number_of(s@, u64::MAX as nat) is Some,
        r is Some ==> r->0 as nat == bounded_number_of(s@, u64::MAX as nat)->0,
{
    parse_bounded(s, u64::MAX)
}

/// Reads a decimal number that fits in 32 bits.
pub fn parse_u32(s: &str) -> (r: Option<u32>)
    ensures
        r is Some == bounded_number_of(s@, u32::MAX as nat) is Some,
        r is Some ==> r->0 as nat == bounded_number_of(s@, u32::MAX as nat)->0,
{
    match parse_bounded(s, u32::MAX as u64) {
        Some(n) => Some(n as u32),
        None => None,
    }
}

/// The decimal writing is a row of digits that stands for the number.
pub proof fn lemma_decimal(n: nat)
    ensures
        all_digits(decimal(n)),
        digits_value(decimal(n)) == n,
        decimal(n)[0] != '+',
    decreases n,
{
    if n < 10 {
        let s = decimal(n);
        assert(s.drop_last() =~= Seq::<char>::empty());
        assert(s.last() == digit(n));
        assert(digits_value(s.drop_last()) == 0);
    } else {
        lemma_decimal(n / 10);
        let s = decimal(n);
        assert(s.drop_last() =~= decimal(n / 10));
    }
}

/// Reading the decimal writing of a number gives the number back.
pub proof fn law_number_reads_back(n: nat)
    ensures
        number_of(decimal(n)) == Some(n),
{
    lemma_decimal(n);
}

/// No two numbers have the same decimal writing.
pub proof fn law_decimal_injective(a: nat, b: nat)
    requires
        decimal(a) == decimal(b),
    ensures
        a == b,
{
    lemma_decimal(a);
    lemma_decimal(b);
}

/// The decimal writing of a number below `10^k` has at most `k` digits.
pub proof fn lemma_decimal_len(n: nat, k: nat)
    requires
        n < vstd::arithmetic::power::pow(10, k),
        k > 0,
    ensures
        decimal(n).len() <= k,
    decreases k,
{
    vstd::arithmetic::power::lemma_pow1(10);
    if n >= 10 {
        if k == 1 {
        } else {
            vstd::arithmetic::power::lemma_pow_subtracts(10, 1, k);
            reveal(vstd::arithmetic::power::pow);
            assert(n / 10 < vstd::arithmetic::power::pow(10, (k - 1) as nat)) by (nonlinear_arith)
                requires
                    n < vstd::arithmetic::power::pow(10, k),
                    vstd::arithmetic::power::pow(10, k) == 10 * vstd::arithmetic::power::pow(10, (k - 1) as nat),
            ;
            lemma_decimal_len(n / 10, (k - 1) as nat);
        }
    }
}

/// A number that is not zero.
#[derive(Clone, Copy, Debug, PartialEq, Eq, Structural, PartialOrd, Ord, Hash)]
pub struct NonZeroUsize {
    value: usize,
}

impl NonZeroUsize {
    #[verifier::type_invariant]
    spec fn is_not_zero(&self) -> bool {
        self.value != 0
    }

    /// The number itself.
    pub closed spec fn number(&self) -> usize {
        self.value
    }

    /// Accepts any number but zero.
    pub fn new(value: usize) -> (r: Option<Self>)
        ensures
            r is Some <==> value != 0,
            r matches Some(n) ==> n.number() == value,
    {
        if value == 0 {
            None
        } else {
            Some(NonZeroUsize { value })
        }
    }

    /// The number itself.
    pub fn get(&self) -> (r: usize)
        ensures
            r == self.number(),
            r != 0,
    {
        proof {
            use_type_invariant(*self);
        }
        self.value
    }
}

/// A number is written digit by digit, the last digit being the rest of the
/// division by ten; a negative one has a minus before it.
pub proof fn law_decimal_digits(n: nat)
    ensures
        n < 10 ==> decimal(n) == seq!["0123456789"@[n as int]],
        n >= 10 ==> decimal(n) == decimal(n / 10).push("0123456789"@[n as int % 10]),
        signed_decimal(n as int) == decimal(n),
        n > 0 ==> signed_decimal(-n) == seq!['-'] + decimal(n),
{
    reveal_strlit("0123456789");
}

/// A text is a number exactly where it is a row of digits, with a plus before it
/// or not; a digit behind it makes it ten times as large, and adds the digit.
pub proof fn law_number_of(s: Seq<char>, i: int)
    requires
        0 <= i < 10,
    ensures
        number_of(s) is Some <==> all_digits(s) || (s.len() > 0 && s[0] == '+' && all_digits(
            s.drop_first(),
        )),
        number_of(seq!["0123456789"@[i]]) == Some(i as nat),
        number_of(s) is Some ==> number_of(s.push("0123456789"@[i])) == Some(
            (10 * number_of(s)->0 + i) as nat,
        ),
{
    reveal_strlit("0123456789");
    let d = "0123456789"@[i];
    assert(is_digit(d));
    let one = seq![d];
    assert(unsigned_digits(one) == one);
    assert(all_digits(one));
    assert(one.drop_last() =~= Seq::<char>::empty());
    assert(digits_value(one.drop_last()) == 0);
    if s.len() > 0 && s[0] == '+' {
        assert(!is_digit(s[0]));
    }
    if number_of(s) is Some {
        let u = unsigned_digits(s);
        let t = s.push(d);
        assert(t[0] == s[0]);
        assert(unsigned_digits(t) =~= u.push(d));
        assert forall|k: int| 0 <= k < u.push(d).len() implies is_digit(#[trigger] u.push(d)[k]) by {
            if k < u.len() {
                assert(is_digit(u[k]));
            }
        }
        assert(u.push(d).drop_last() =~= u);
        assert(u.push(d).last() == d);
    }
}

/// A text stands for no more than the bound, and for just the number that it is
/// where that is no more.
pub proof fn law_bounded_number_of(s: Seq<char>, max: nat, n: nat)
    ensures
        bounded_number_of(s, max) == Some(n) <==> number_of(s) == Some(n) && n <= max,
{
}

} // verus!
