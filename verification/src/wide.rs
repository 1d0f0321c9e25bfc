//! Exact arithmetic on natural numbers wider than 64 bits, held as little-endian
//! sequences of 64-bit limbs. The scheduler needs it to compare ratios of resource
//! amounts exactly.
use vstd::prelude::*;

verus! {

/// The base of the limbs: 2^64.
pub open spec fn base() -> nat {
    0x1_0000_0000_0000_0000nat
}

/// The weight of the limb at index `i`: base^i.
pub open spec fn weight(i: nat) -> nat
    decreases i,
{
    if i == 0 {
        1
    } else {
        base() * weight((i - 1) as nat)
    }
}

/// The number held by little-endian limbs.
pub open spec fn val(s: Seq<u64>) -> nat
    decreases s.len(),
{
    if s.len() == 0 {
        0
    } else {
        val(s.drop_last()) + (s.last() as nat) * weight((s.len() - 1) as nat)
    }
}

proof fn lemma_weight_pos(i: nat)
    ensures
        weight(i) >= 1,
    decreases i,
{
    if i > 0 {
        lemma_weight_pos((i - 1) as nat);
        assert(base() * weight((i - 1) as nat) >= 1) by (nonlinear_arith)
            requires
                weight((i - 1) as nat) >= 1,
        ;
    }
}

/// Appending a limb adds it at the next weight.
proof fn lemma_val_push(s: Seq<u64>, x: u64)
    ensures
        val(s.push(x)) == val(s) + (x as nat) * weight(s.len()),
{
    assert(s.push(x).drop_last() =~= s);
}

/// The limbs up to `i + 1` hold the limbs up to `i` and the limb at `i`.
proof fn lemma_val_take(s: Seq<u64>, i: int)
    requires
        0 <= i < s.len(),
    ensures
        val(s.take(i + 1)) == val(s.take(i)) + (s[i] as nat) * weight(i as nat),
{
    assert(s.take(i + 1) =~= s.take(i).push(s[i]));
    lemma_val_push(s.take(i), s[i]);
}

/// A number held by `n` limbs is below base^n.
proof fn lemma_val_bound(s: Seq<u64>)
    ensures
        val(s) < weight(s.len()),
    decreases s.len(),
{
    if s.len() > 0 {
        let d = s.drop_last();
        lemma_val_bound(d);
        let w = weight(d.len());
        let l = s.last() as nat;
        assert(val(d) + l * w < base() * w) by (nonlinear_arith)
            requires
                val(d) < w,
                l < base(),
        ;
    }
}

/// Limbs holding the single number `x`.
pub fn from_u64(x: u64) -> (r: Vec<u64>)
    ensures
        val(r@) == x,
        r@.len() == 1,
{
    let mut r: Vec<u64> = Vec::new();
    r.push(x);
    proof {
        lemma_val_push(Seq::<u64>::empty(), x);
        assert(r@ =~= Seq::<u64>::empty().push(x));
        assert(val(Seq::<u64>::empty()) == 0);
        assert(weight(0) == 1);
        assert(Seq::<u64>::empty().len() == 0);
        assert(val(r@) == (x as nat) * weight(0));
        assert((x as nat) * 1 == x);
    }
    r
}

proof fn lemma_mul_step(vr: int, va: int, ai: int, k: int, c: int, lo: int, hi: int, w: int)
    by (nonlinear_arith)
    requires
        vr + c * w == va * k,
        lo + hi * 0x1_0000_0000_0000_0000 == ai * k + c,
    ensures
        vr + lo * w + hi * (0x1_0000_0000_0000_0000 * w) == (va + ai * w) * k,
{
}

/// The number held by `a`, multiplied by `k`.
pub fn mul_small(a: &Vec<u64>, k: u64) -> (r: Vec<u64>)
    ensures
        val(r@) == val(a@) * k,
        r@.len() == a@.len() + 1,
{
    let n = a.len();
    let mut r: Vec<u64> = Vec::new();
    let mut carry: u64 = 0;
    let mut i: usize = 0;
    assert(a@.take(0) =~= Seq::<u64>::empty());
    assert(val(Seq::<u64>::empty()) == 0);
    while i < n
        invariant
            n == a@.len(),
            0 <= i <= n,
            r@.len() == i,
            val(r@) + (carry as nat) * weight(i as nat) == val(a@.take(i as int)) * k,
        decreases n - i,
    {
        let ai = a[i];
        assert((ai as int) * (k as int) <= 0xFFFF_FFFF_FFFF_FFFE_0000_0000_0000_0001int)
            by (nonlinear_arith)
            requires
                0 <= ai <= 0xFFFF_FFFF_FFFF_FFFFint,
                0 <= k <= 0xFFFF_FFFF_FFFF_FFFFint,
        ;
        let prod: u128 = (ai as u128) * (k as u128);
        let t: u128 = prod + (carry as u128);
        let lo: u64 = (t % 0x1_0000_0000_0000_0000u128) as u64;
        let hi: u64 = (t / 0x1_0000_0000_0000_0000u128) as u64;
        proof {
            lemma_val_take(a@, i as int);
            lemma_val_push(r@, lo);
            lemma_mul_step(
                val(r@) as int,
                val(a@.take(i as int)) as int,
                ai as int,
                k as int,
                carry as int,
                lo as int,
                hi as int,
                weight(i as nat) as int,
            );
        }
        r.push(lo);
        carry = hi;
        i += 1;
    }
    proof {
        lemma_val_push(r@, carry);
        assert(a@.take(n as int) =~= a@);
    }
    r.push(carry);
    r
}

proof fn lemma_add_step(vr: int, va: int, vb: int, ai: int, bi: int, c: int, lo: int, hi: int, w: int)
    by (nonlinear_arith)
    requires
        vr + c * w == va + vb,
        lo + hi * 0x1_0000_0000_0000_0000 == ai + bi + c,
    ensures
        vr + lo * w + hi * (0x1_0000_0000_0000_0000 * w) == (va + ai * w) + (vb + bi * w),
{
}

/// The sum of the numbers held by `a` and `b`, which have the same number of limbs.
pub fn add(a: &Vec<u64>, b: &Vec<u64>) -> (r: Vec<u64>)
    requires
        a@.len() == b@.len(),
    ensures
        val(r@) == val(a@) + val(b@),
        r@.len() == a@.len() + 1,
{
    let n = a.len();
    let mut r: Vec<u64> = Vec::new();
    let mut carry: u64 = 0;
    let mut i: usize = 0;
    assert(a@.take(0) =~= Seq::<u64>::empty());
    assert(b@.take(0) =~= Seq::<u64>::empty());
    assert(val(Seq::<u64>::empty()) == 0);
    while i < n
        invariant
            n == a@.len(),
            n == b@.len(),
            0 <= i <= n,
            r@.len() == i,
            carry <= 1,
            val(r@) + (carry as nat) * weight(i as nat) == val(a@.take(i as int)) + val(
                b@.take(i as int),
            ),
        decreases n - i,
    {
        let ai = a[i];
        let bi = b[i];
        let t: u128 = (ai as u128) + (bi as u128) + (carry as u128);
        let lo: u64 = (t % 0x1_0000_0000_0000_0000u128) as u64;
        let hi: u64 = (t / 0x1_0000_0000_0000_0000u128) as u64;
        proof {
            lemma_val_take(a@, i as int);
            lemma_val_take(b@, i as int);
            lemma_val_push(r@, lo);
            lemma_add_step(
                val(r@) as int,
                val(a@.take(i as int)) as int,
                val(b@.take(i as int)) as int,
                ai as int,
                bi as int,
                carry as int,
                lo as int,
                hi as int,
                weight(i as nat) as int,
            );
        }
        r.push(lo);
        carry = hi;
        i += 1;
    }
    proof {
        lemma_val_push(r@, carry);
        assert(a@.take(n as int) =~= a@);
        assert(b@.take(n as int) =~= b@);
    }
    r.push(carry);
    r
}

/// Extends `a` with zero limbs up to `n` limbs; the number held is unchanged.
pub fn pad(a: &mut Vec<u64>, n: usize)
    ensures
        val(final(a)@) == val(old(a)@),
        final(a)@.len() == if old(a)@.len() < n { n as nat } else { old(a)@.len() },
{
    while a.len() < n
        invariant
            val(a@) == val(old(a)@),
            a@.len() >= old(a)@.len(),
            old(a)@.len() < n ==> a@.len() <= n,
            old(a)@.len() >= n ==> a@ == old(a)@,
        decreases n - a@.len(),
    {
        proof {
            lemma_val_push(a@, 0);
        }
        a.push(0);
    }
}

proof fn lemma_lt_step(va: int, vb: int, ai: int, bi: int, w: int)
    by (nonlinear_arith)
    requires
        0 <= va < w,
        0 <= vb < w,
        0 <= ai,
        0 <= bi,
    ensures
        (va + ai * w < vb + bi * w) == (ai < bi || (ai == bi && va < vb)),
{
}

/// Whether the number held by `a` is below the number held by `b`; both have the same
/// number of limbs.
pub fn lt(a: &Vec<u64>, b: &Vec<u64>) -> (r: bool)
    requires
        a@.len() == b@.len(),
    ensures
        r == (val(a@) < val(b@)),
{
    let n = a.len();
    let mut less = false;
    let mut i: usize = 0;
    assert(a@.take(0) =~= Seq::<u64>::empty());
    assert(b@.take(0) =~= Seq::<u64>::empty());
    while i < n
        invariant
            n == a@.len(),
            n == b@.len(),
            0 <= i <= n,
            less == (val(a@.take(i as int)) < val(b@.take(i as int))),
        decreases n - i,
    {
        proof {
            lemma_val_take(a@, i as int);
            lemma_val_take(b@, i as int);
            lemma_val_bound(a@.take(i as int));
            lemma_val_bound(b@.take(i as int));
            lemma_lt_step(
                val(a@.take(i as int)) as int,
                val(b@.take(i as int)) as int,
                a@[i as int] as int,
                b@[i as int] as int,
                weight(i as nat) as int,
            );
        }
        if a[i] < b[i] {
            less = true;
        } else if a[i] > b[i] {
            less = false;
        }
        i += 1;
    }
    proof {
        assert(a@.take(n as int) =~= a@);
        assert(b@.take(n as int) =~= b@);
    }
    less
}

/// Whether `x * y < u * v` for numbers held by limbs of possibly different lengths.
pub fn lt_any(x: &Vec<u64>, y: &Vec<u64>) -> (r: bool)
    ensures
        r == (val(x@) < val(y@)),
{
    let mut a = x.clone();
    let mut b = y.clone();
    assert(a@ =~= x@);
    assert(b@ =~= y@);
    let n = if a.len() < b.len() { b.len() } else { a.len() };
    pad(&mut a, n);
    pad(&mut b, n);
    lt(&a, &b)
}

} // verus!
