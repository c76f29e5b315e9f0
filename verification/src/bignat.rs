//! Natural numbers of any size.
use vstd::prelude::*;

verus! {

/// The number that one place of a number counts up to.
pub open spec fn base() -> nat {
    0x1_0000_0000
}

/// What the place at `n` counts for.
pub open spec fn weight(n: nat) -> nat
    decreases n,
{
    if n == 0 {
        1
    } else {
        base() * weight((n - 1) as nat)
    }
}

/// The place at `i`; there is nothing beyond the last.
pub open spec fn limb(limbs: Seq<u32>, i: int) -> nat {
    if 0 <= i < limbs.len() {
        limbs[i] as nat
    } else {
        0
    }
}

/// The number that the first `n` places stand for.
pub open spec fn value(limbs: Seq<u32>, n: nat) -> nat
    decreases n,
{
    if n == 0 {
        0
    } else {
        value(limbs, (n - 1) as nat) + limb(limbs, n - 1) * weight((n - 1) as nat)
    }
}

/// A natural number, by its places from the lowest up.
#[derive(Debug)]
pub struct BigNat {
    limbs: Vec<u32>,
}

impl View for BigNat {
    type V = nat;

    closed spec fn view(&self) -> nat {
        value(self.limbs@, self.limbs@.len())
    }
}

/// Places beyond the last count for nothing.
proof fn lemma_value_beyond(limbs: Seq<u32>, n: nat)
    requires
        n >= limbs.len(),
    ensures
        value(limbs, n) == value(limbs, limbs.len()),
    decreases n,
{
    if n > limbs.len() {
        lemma_value_beyond(limbs, (n - 1) as nat);
        let w = weight((n - 1) as nat);
        assert(0 * w == 0);
    }
}

/// The first places stand for less than the next counts for.
proof fn lemma_value_bound(limbs: Seq<u32>, n: nat)
    ensures
        value(limbs, n) < weight(n),
    decreases n,
{
    if n > 0 {
        let k = (n - 1) as nat;
        lemma_value_bound(limbs, k);
        let v = value(limbs, k);
        let l = limb(limbs, k as int);
        let w = weight(k);
        assert(v + l * w < base() * w) by (nonlinear_arith)
            requires
                v < w,
                l < base(),
                base() == 0x1_0000_0000,
        ;
    }
}

/// The number depends on nothing but its places.
proof fn lemma_value_same(a: Seq<u32>, b: Seq<u32>, n: nat)
    requires
        forall|i: int| 0 <= i < n ==> limb(a, i) == limb(b, i),
    ensures
        value(a, n) == value(b, n),
    decreases n,
{
    if n > 0 {
        lemma_value_same(a, b, (n - 1) as nat);
    }
}

impl BigNat {
    /// Zero.
    pub fn zero() -> (r: Self)
        ensures
            r@ == 0,
    {
        BigNat { limbs: Vec::new() }
    }

    /// The number times `factor`, and `more`.
    pub fn times_plus(&self, factor: u32, more: u32) -> (r: Self)
        ensures
            r@ == self@ * factor + more,
    {
        let ghost s = self.limbs@;
        let mut limbs: Vec<u32> = Vec::new();
        let mut carry: u32 = more;
        proof {
            assert(0 * (factor as nat) == 0);
            assert(1 * (more as nat) == more);
        }
        for i in 0..self.limbs.len()
            invariant
                s == self.limbs@,
                limbs@.len() == i,
                value(limbs@, i as nat) + weight(i as nat) * carry == value(s, i as nat) * factor + more,
        {
            let ghost before = limbs@;
            let ghost old_carry = carry as nat;
            let x = self.limbs[i];
            assert((x as u64) * (factor as u64) <= 0xffff_ffffu64 * 0xffff_ffffu64)
                by (nonlinear_arith)
                requires
                    x <= 0xffff_ffffu64,
                    factor <= 0xffff_ffffu64,
            ;
            let t: u64 = (x as u64) * (factor as u64) + carry as u64;
            let low: u32 = (t % 0x1_0000_0000) as u32;
            let high: u32 = (t / 0x1_0000_0000) as u32;
            limbs.push(low);
            carry = high;
            proof {
                let n = i as nat;
                let w = weight(n);
                assert forall|j: int| 0 <= j < n implies limb(before, j) == limb(limbs@, j) by {}
                lemma_value_same(before, limbs@, n);
                assert(limb(limbs@, n as int) == low);
                assert(limb(s, n as int) == x);
                assert(weight(n + 1) == base() * w);
                assert(t == low + base() * high);
                let v = value(before, n);
                let sv = value(s, n);
                let f = factor as nat;
                let l = low as nat;
                let h = high as nat;
                let xx = x as nat;
                assert(v + l * w + base() * w * h == (sv + xx * w) * f + more) by (nonlinear_arith)
                    requires
                        v + w * old_carry == sv * f + more,
                        xx * f + old_carry == l + base() * h,
                ;
                assert(weight(n + 1) * h == base() * w * h);
            }
        }
        let ghost before = limbs@;
        let ghost n = limbs@.len();
        limbs.push(carry);
        proof {
            assert forall|j: int| 0 <= j < n implies limb(before, j) == limb(limbs@, j) by {}
            lemma_value_same(before, limbs@, n);
            assert(limb(limbs@, n as int) == carry);
            let w = weight(n);
            let c = carry as nat;
            assert(c * w == w * c) by (nonlinear_arith);
            assert(value(limbs@, n + 1) == value(limbs@, n) + c * w);
        }
        BigNat { limbs }
    }

    /// Whether the number is less than another.
    pub fn less(&self, other: &Self) -> (r: bool)
        ensures
            r == (self@ < other@),
    {
        let ghost a = self.limbs@;
        let ghost b = other.limbs@;
        let n: usize = if self.limbs.len() < other.limbs.len() {
            other.limbs.len()
        } else {
            self.limbs.len()
        };
        let mut is_less = false;
        for i in 0..n
            invariant
                a == self.limbs@,
                b == other.limbs@,
                is_less == (value(a, i as nat) < value(b, i as nat)),
        {
            let x: u32 = if i < self.limbs.len() {
                self.limbs[i]
            } else {
                0
            };
            let y: u32 = if i < other.limbs.len() {
                other.limbs[i]
            } else {
                0
            };
            proof {
                let k = i as nat;
                lemma_value_bound(a, k);
                lemma_value_bound(b, k);
                let w = weight(k);
                let p = value(a, k);
                let q = value(b, k);
                let xx = x as nat;
                let yy = y as nat;
                assert(limb(a, k as int) == xx && limb(b, k as int) == yy);
                if xx < yy {
                    assert(p + xx * w < q + yy * w) by (nonlinear_arith)
                        requires
                            p < w,
                            xx < yy,
                    ;
                } else if yy < xx {
                    assert(q + yy * w < p + xx * w) by (nonlinear_arith)
                        requires
                            q < w,
                            yy < xx,
                    ;
                }
            }
            if x < y {
                is_less = true;
            } else if y < x {
                is_less = false;
            }
        }
        proof {
            lemma_value_beyond(a, n as nat);
            lemma_value_beyond(b, n as nat);
        }
        is_less
    }

    /// The number without another that is not greater.
    pub fn minus(&self, other: &Self) -> (r: Self)
        requires
            other@ <= self@,
        ensures
            r@ == self@ - other@,
    {
        let ghost a = self.limbs@;
        let ghost b = other.limbs@;
        let n: usize = if self.limbs.len() < other.limbs.len() {
            other.limbs.len()
        } else {
            self.limbs.len()
        };
        let mut limbs: Vec<u32> = Vec::new();
        let mut borrow: u32 = 0;
        proof {
            assert(weight(0) * 0 == 0);
        }
        for i in 0..n
            invariant
                a == self.limbs@,
                b == other.limbs@,
                limbs@.len() == i,
                borrow <= 1,
                value(a, i as nat) + weight(i as nat) * borrow == value(limbs@, i as nat) + value(
                    b,
                    i as nat,
                ),
        {
            let ghost before = limbs@;
            let ghost old_borrow = borrow as nat;
            let x: u32 = if i < self.limbs.len() {
                self.limbs[i]
            } else {
                0
            };
            let y: u32 = if i < other.limbs.len() {
                other.limbs[i]
            } else {
                0
            };
            let take: u64 = y as u64 + borrow as u64;
            let low: u32;
            if take <= x as u64 {
                low = (x as u64 - take) as u32;
                borrow = 0;
            } else {
                low = (x as u64 + 0x1_0000_0000 - take) as u32;
                borrow = 1;
            }
            limbs.push(low);
            proof {
                let k = i as nat;
                let w = weight(k);
                assert forall|j: int| 0 <= j < k implies limb(before, j) == limb(limbs@, j) by {}
                lemma_value_same(before, limbs@, k);
                assert(limb(limbs@, k as int) == low);
                let xx = x as nat;
                let yy = y as nat;
                let l = low as nat;
                let nb = borrow as nat;
                assert(limb(a, k as int) == xx && limb(b, k as int) == yy);
                assert(xx + base() * nb == l + yy + old_borrow);
                let p = value(a, k);
                let q = value(b, k);
                let v = value(before, k);
                assert(p + xx * w + base() * w * nb == v + l * w + (q + yy * w)) by (nonlinear_arith)
                    requires
                        p + w * old_borrow == v + q,
                        xx + base() * nb == l + yy + old_borrow,
                ;
                assert(weight(k + 1) == base() * w);
                assert(weight(k + 1) * nb == base() * w * nb);
            }
        }
        proof {
            lemma_value_beyond(a, n as nat);
            lemma_value_beyond(b, n as nat);
            lemma_value_bound(limbs@, n as nat);
            let w = weight(n as nat);
            assert(w * 1 == w && w * 0 == 0);
        }
        BigNat { limbs }
    }
}

} // verus!
