//! Natural numbers of any size as little-endian sequences of 64-bit limbs, with the few
//! operations that an exact product of many factors needs: multiplication and division by a
//! single limb, and reading a value back when it fits in one limb.
use vstd::prelude::*;
use vstd::arithmetic::div_mod::lemma_fundamental_div_mod_converse;

verus! {

/// The base of a limb: 2⁶⁴.
pub open spec fn limb_base() -> int {
    0x1_0000_0000_0000_0000
}

/// `limb_base()` to the power `n`.
pub open spec fn limb_power(n: nat) -> int
    decreases n,
{
    if n == 0 {
        1
    } else {
        limb_base() * limb_power((n - 1) as nat)
    }
}

/// The number that the little-endian limbs `s` denote.
pub open spec fn limbs_value(s: Seq<u64>) -> nat
    decreases s.len(),
{
    if s.len() == 0 {
        0
    } else {
        (s[0] + limb_base() * limbs_value(s.drop_first())) as nat
    }
}

/// Appending a limb adds it at the weight of its position.
proof fn lemma_value_push(s: Seq<u64>, x: u64)
    ensures
        limbs_value(s.push(x)) == limbs_value(s) + limb_power(s.len()) * x,
    decreases s.len(),
{
    if s.len() == 0 {
        assert(s.push(x).drop_first() =~= Seq::<u64>::empty());
        assert(limbs_value(Seq::<u64>::empty()) == 0);
        assert(limb_power(0) == 1);
    } else {
        assert(s.push(x).drop_first() =~= s.drop_first().push(x));
        assert(s.push(x)[0] == s[0]);
        lemma_value_push(s.drop_first(), x);
        assert(limb_power(s.len()) == limb_base() * limb_power((s.len() - 1) as nat));
        let v = limbs_value(s.drop_first()) as int;
        let p = limb_power((s.len() - 1) as nat);
        let b = limb_base();
        assert(b * (v + p * x) == b * v + (b * p) * x) by (nonlinear_arith);
    }
}

/// Every limb is at most the value; a nonzero limb above the lowest makes the value at least
/// one limb base.
proof fn lemma_value_bounds_limb(s: Seq<u64>, k: int)
    requires
        0 <= k < s.len(),
    ensures
        limbs_value(s) >= s[k],
        k >= 1 && s[k] != 0 ==> limbs_value(s) >= limb_base(),
    decreases s.len(),
{
    if k > 0 {
        lemma_value_bounds_limb(s.drop_first(), k - 1);
        let v = limbs_value(s.drop_first()) as int;
        assert(limb_base() * v >= v) by (nonlinear_arith)
            requires
                v >= 0,
                limb_base() == 0x1_0000_0000_0000_0000,
        ;
        if s[k] != 0 {
            assert(limb_base() * v >= limb_base()) by (nonlinear_arith)
                requires
                    v >= 1,
                    limb_base() == 0x1_0000_0000_0000_0000,
            ;
        }
    }
}

/// Limbs that are all zero above the lowest denote the lowest limb.
proof fn lemma_value_single(s: Seq<u64>)
    requires
        s.len() >= 1,
        forall|k: int| 1 <= k < s.len() ==> s[k] == 0,
    ensures
        limbs_value(s) == s[0],
    decreases s.len(),
{
    let t = s.drop_first();
    if t.len() > 0 {
        lemma_value_single(t);
        assert(limbs_value(t) == 0);
    } else {
        assert(limbs_value(t) == 0);
    }
}

/// `a * f`.
pub fn mul_limb(a: &Vec<u64>, f: u64) -> (r: Vec<u64>)
    ensures
        limbs_value(r@) == limbs_value(a@) * f,
{
    let mut r: Vec<u64> = Vec::new();
    let mut carry: u64 = 0;
    let mut i: usize = 0;
    assert(a@.take(0) =~= Seq::<u64>::empty());
    assert(limbs_value(Seq::<u64>::empty()) == 0);
    assert(limb_power(0) == 1);
    while i < a.len()
        invariant
            i <= a@.len(),
            r@.len() == i,
            limbs_value(r@) + limb_power(i as nat) * carry == limbs_value(a@.take(i as int)) * f,
        decreases a@.len() - i,
    {
        let x = a[i];
        assert((x as int) * (f as int) <= 0xFFFF_FFFF_FFFF_FFFE_0000_0000_0000_0001) by (nonlinear_arith)
            requires
                x <= 0xFFFF_FFFF_FFFF_FFFF,
                f <= 0xFFFF_FFFF_FFFF_FFFF,
        ;
        let cur: u128 = (x as u128) * (f as u128) + carry as u128;
        let lo = (cur % 0x1_0000_0000_0000_0000u128) as u64;
        let hi = (cur / 0x1_0000_0000_0000_0000u128) as u64;
        proof {
            let ghost rv = limbs_value(r@) as int;
            let ghost av = limbs_value(a@.take(i as int)) as int;
            let ghost p = limb_power(i as nat);
            lemma_value_push(r@, lo);
            lemma_value_push(a@.take(i as int), x);
            assert(a@.take(i + 1) =~= a@.take(i as int).push(x));
            assert(limb_power((i + 1) as nat) == limb_base() * p);
            assert(cur == lo + limb_base() * hi);
            assert(rv + p * lo + (limb_base() * p) * hi == (av + p * x) * f) by (nonlinear_arith)
                requires
                    rv + p * carry == av * f,
                    cur == x * f + carry,
                    cur == lo + limb_base() * hi,
            ;
        }
        r.push(lo);
        carry = hi;
        i = i + 1;
    }
    assert(a@.take(a@.len() as int) =~= a@);
    if carry > 0 {
        proof {
            lemma_value_push(r@, carry);
        }
        r.push(carry);
    }
    r
}

/// `a / d`, rounded down, and the remainder.
pub fn div_limb(a: &Vec<u64>, d: u64) -> (r: (Vec<u64>, u64))
    requires
        d > 0,
    ensures
        limbs_value(r.0@) == (limbs_value(a@) as int) / (d as int),
        r.1 == (limbs_value(a@) as int) % (d as int),
{
    let n = a.len();
    let mut q: Vec<u64> = Vec::new();
    while q.len() < n
        invariant
            q@.len() <= n,
        decreases n - q@.len(),
    {
        q.push(0);
    }
    let mut rem: u64 = 0;
    let mut i: usize = n;
    assert(a@.skip(n as int) =~= Seq::<u64>::empty());
    assert(q@.skip(n as int) =~= Seq::<u64>::empty());
    assert(limbs_value(Seq::<u64>::empty()) == 0);
    while i > 0
        invariant
            i <= n,
            n == a@.len(),
            q@.len() == n,
            rem < d,
            limbs_value(a@.skip(i as int)) == limbs_value(q@.skip(i as int)) * d + rem,
        decreases i,
    {
        i = i - 1;
        let x = a[i];
        assert((rem as int) * 0x1_0000_0000_0000_0000 + x < (d as int) * 0x1_0000_0000_0000_0000)
            by (nonlinear_arith)
            requires
                rem < d,
                x <= 0xFFFF_FFFF_FFFF_FFFF,
        ;
        let cur: u128 = (rem as u128) * 0x1_0000_0000_0000_0000u128 + x as u128;
        let qi_wide = cur / (d as u128);
        assert(qi_wide < 0x1_0000_0000_0000_0000) by (nonlinear_arith)
            requires
                cur < (d as int) * 0x1_0000_0000_0000_0000,
                qi_wide == (cur as int) / (d as int),
                d > 0,
        ;
        let qi = qi_wide as u64;
        let nr = (cur % (d as u128)) as u64;
        let ghost old_q = q@;
        q.set(i, qi);
        proof {
            assert(a@.skip(i as int).drop_first() =~= a@.skip(i + 1));
            assert(q@.skip(i as int).drop_first() =~= old_q.skip(i + 1));
            let ghost tail = limbs_value(old_q.skip(i + 1)) as int;
            let ghost b = limb_base();
            assert(cur == qi * d + nr) by (nonlinear_arith)
                requires
                    qi == (cur as int) / (d as int),
                    nr == (cur as int) % (d as int),
                    d > 0,
            ;
            assert(x + b * (tail * d + rem) == (qi + b * tail) * d + nr) by (nonlinear_arith)
                requires
                    cur == rem * b + x,
                    cur == qi * d + nr,
            ;
        }
        rem = nr;
    }
    assert(a@.skip(0) =~= a@);
    assert(q@.skip(0) =~= q@);
    proof {
        lemma_fundamental_div_mod_converse(limbs_value(a@) as int, d as int, limbs_value(q@) as int, rem as int);
    }
    (q, rem)
}

/// The value of `a` when it fits in one limb; `None` when it is at least `limb_base()`.
pub fn limbs_to_u64(a: &Vec<u64>) -> (r: Option<u64>)
    ensures
        match r {
            Some(v) => limbs_value(a@) == v,
            None => limbs_value(a@) >= limb_base(),
        },
{
    if a.len() == 0 {
        return Some(0);
    }
    let mut i: usize = 1;
    while i < a.len()
        invariant
            1 <= i <= a@.len(),
            forall|k: int| 1 <= k < i ==> a@[k] == 0,
        decreases a@.len() - i,
    {
        if a[i] != 0 {
            proof {
                lemma_value_bounds_limb(a@, i as int);
            }
            return None;
        }
        i = i + 1;
    }
    proof {
        lemma_value_single(a@);
    }
    Some(a[0])
}

} // verus!
