use vstd::prelude::*;

use vstd::arithmetic::div_mod::lemma_fundamental_div_mod_converse;

verus! {

/// Radix of one limb.
pub const LIMB_BASE: u128 = 0x1_0000_0000;

/// Weight of limb `i`: the radix to the power `i`.
pub open spec fn weight(i: nat) -> nat
    decreases i,
{
    if i == 0 {
        1
    } else {
        weight((i - 1) as nat) * 0x1_0000_0000
    }
}

/// Limb `i` of `s`, zero past its end.
pub open spec fn limb(s: Seq<u32>, i: nat) -> nat {
    if i < s.len() {
        s[i as int] as nat
    } else {
        0
    }
}

/// The number that the lowest `n` limbs of `s` stand for.
pub open spec fn value_upto(s: Seq<u32>, n: nat) -> nat
    decreases n,
{
    if n == 0 {
        0
    } else {
        value_upto(s, (n - 1) as nat) + limb(s, (n - 1) as nat) * weight((n - 1) as nat)
    }
}

/// The number that the little-endian limbs `s` stand for.
pub open spec fn value(s: Seq<u32>) -> nat {
    value_upto(s, s.len())
}

/// Two to the power `e`.
pub open spec fn two_to(e: nat) -> nat
    decreases e,
{
    if e == 0 {
        1
    } else {
        2 * two_to((e - 1) as nat)
    }
}

proof fn lemma_weight_pos(i: nat)
    ensures
        weight(i) > 0,
    decreases i,
{
    if i > 0 {
        lemma_weight_pos((i - 1) as nat);
        let w = weight((i - 1) as nat);
        assert(w * 0x1_0000_0000 > 0) by (nonlinear_arith)
            requires w > 0;
    }
}

proof fn lemma_upto_bound(s: Seq<u32>, n: nat)
    ensures
        value_upto(s, n) < weight(n),
    decreases n,
{
    if n > 0 {
        let k = (n - 1) as nat;
        lemma_upto_bound(s, k);
        let l = limb(s, k);
        let w = weight(k);
        let v = value_upto(s, k);
        assert(l < 0x1_0000_0000);
        assert(v + l * w < w * 0x1_0000_0000) by (nonlinear_arith)
            requires v < w, l < 0x1_0000_0000;
    }
}

proof fn lemma_upto_beyond(s: Seq<u32>, n: nat)
    requires
        n >= s.len(),
    ensures
        value_upto(s, n) == value(s),
    decreases n,
{
    if n > s.len() {
        lemma_upto_beyond(s, (n - 1) as nat);
    }
}

proof fn lemma_upto_prefix(s: Seq<u32>, t: Seq<u32>, n: nat)
    requires
        n <= s.len(),
        n <= t.len(),
        forall|i: int| 0 <= i < n ==> s[i] == t[i],
    ensures
        value_upto(s, n) == value_upto(t, n),
    decreases n,
{
    if n > 0 {
        lemma_upto_prefix(s, t, (n - 1) as nat);
    }
}

/// The limbs of `x`.
pub fn from_u64(x: u64) -> (r: Vec<u32>)
    ensures
        value(r@) == x,
{
    let mut r: Vec<u32> = Vec::new();
    r.push((x as u128 % LIMB_BASE) as u32);
    r.push((x as u128 / LIMB_BASE) as u32);
    assert(weight(1) == 0x1_0000_0000) by {
        assert(weight(0) == 1);
    }
    assert(limb(r@, 0) + limb(r@, 1) * 0x1_0000_0000 == x);
    assert(value_upto(r@, 0) == 0);
    assert(weight(0) == 1);
    assert(value_upto(r@, 1) == value_upto(r@, 0) + limb(r@, 0) * weight(0));
    assert(value_upto(r@, 1) == limb(r@, 0));
    assert(value_upto(r@, 2) == value_upto(r@, 1) + limb(r@, 1) * weight(1));
    r
}

/// The limbs of `value(a) * m`.
pub fn mul_small(a: &Vec<u32>, m: u64) -> (r: Vec<u32>)
    ensures
        value(r@) == value(a@) * m,
{
    let mut r: Vec<u32> = Vec::new();
    let mut carry: u64 = 0;
    let mut i: usize = 0;
    assert(value_upto(r@, 0) == 0);
    assert(value_upto(a@, 0) == 0);
    while i < a.len()
        invariant
            i <= a.len(),
            r@.len() == i,
            value_upto(r@, i as nat) + carry * weight(i as nat) == value_upto(a@, i as nat) * m,
        decreases a.len() - i,
    {
        let ai: u32 = a[i];
        assert((ai as u128) * (m as u128) <= 0xffff_ffff * 0xffff_ffff_ffff_ffff) by (nonlinear_arith)
            requires ai <= 0xffff_ffffu32, m <= 0xffff_ffff_ffff_ffffu64;
        let t: u128 = (ai as u128) * (m as u128) + (carry as u128);
        let lo: u32 = (t % LIMB_BASE) as u32;
        let hi: u64 = (t / LIMB_BASE) as u64;
        let ghost before = r@;
        r.push(lo);
        proof {
            let k = i as nat;
            lemma_upto_prefix(before, r@, k);
            assert(limb(r@, k) == lo);
            assert(limb(a@, k) == ai);
            let w = weight(k);
            assert(weight(k + 1) == w * 0x1_0000_0000);
            let vr = value_upto(before, k);
            let va = value_upto(a@, k);
            assert(vr + lo * w + hi * (w * 0x1_0000_0000) == (va + ai * w) * m) by (nonlinear_arith)
                requires
                    vr + carry * w == va * m,
                    t == lo + hi * 0x1_0000_0000,
                    t == ai * m + carry,
            ;
        }
        carry = hi;
        i = i + 1;
    }
    let n = i;
    let ghost body = r@;
    let c_lo: u32 = (carry as u128 % LIMB_BASE) as u32;
    let c_hi: u32 = (carry as u128 / LIMB_BASE) as u32;
    r.push(c_lo);
    r.push(c_hi);
    proof {
        let k = n as nat;
        lemma_upto_prefix(body, r@, k);
        assert(limb(r@, k) == c_lo);
        assert(limb(r@, k + 1) == c_hi);
        let w = weight(k);
        assert(weight(k + 1) == w * 0x1_0000_0000);
        assert(value_upto(r@, k + 2) == value_upto(r@, k + 1) + c_hi * weight(k + 1));
        assert(value_upto(r@, k + 1) == value_upto(body, k) + c_lo * w);
        assert(c_lo * w + c_hi * (w * 0x1_0000_0000) == carry * w) by (nonlinear_arith)
            requires carry == c_lo + c_hi * 0x1_0000_0000;
    }
    r
}

/// Whether `value(a) <= value(b)`.
pub fn le(a: &Vec<u32>, b: &Vec<u32>) -> (r: bool)
    ensures
        r == (value(a@) <= value(b@)),
{
    let n: usize = if a.len() >= b.len() { a.len() } else { b.len() };
    proof {
        lemma_upto_beyond(a@, n as nat);
        lemma_upto_beyond(b@, n as nat);
    }
    let mut i: usize = n;
    while i > 0
        invariant
            i <= n,
            value_upto(a@, n as nat) == value(a@),
            value_upto(b@, n as nat) == value(b@),
            value_upto(a@, n as nat) - value_upto(a@, i as nat) == value_upto(b@, n as nat)
                - value_upto(b@, i as nat),
        decreases i,
    {
        let j = i - 1;
        let x: u32 = if j < a.len() { a[j] } else { 0 };
        let y: u32 = if j < b.len() { b[j] } else { 0 };
        proof {
            let k = j as nat;
            assert(limb(a@, k) == x);
            assert(limb(b@, k) == y);
            lemma_upto_bound(a@, k);
            lemma_upto_bound(b@, k);
            lemma_weight_pos(k);
        }
        if x < y {
            proof {
                let k = j as nat;
                let w = weight(k);
                let va = value_upto(a@, k);
                let vb = value_upto(b@, k);
                assert(va + x * w < vb + y * w) by (nonlinear_arith)
                    requires va < w, vb >= 0, x < y, w > 0;
            }
            return true;
        }
        if x > y {
            proof {
                let k = j as nat;
                let w = weight(k);
                let va = value_upto(a@, k);
                let vb = value_upto(b@, k);
                assert(vb + y * w < va + x * w) by (nonlinear_arith)
                    requires vb < w, va >= 0, y < x, w > 0;
            }
            return false;
        }
        i = j;
    }
    true
}

/// The quotient `value(n) / value(d)`, which is below `2^64`.
pub fn quotient_u64(n: &Vec<u32>, d: &Vec<u32>) -> (q: u64)
    requires
        value(d@) > 0,
        value(n@) < 0x1_0000_0000_0000_0000 * value(d@),
    ensures
        q as int == value(n@) as int / value(d@) as int,
{
    let ghost nv = value(n@) as int;
    let ghost dv = value(d@) as int;
    let mut y: u64 = 0;
    let mut w: u128 = 0x1_0000_0000_0000_0000;
    let ghost mut e: nat = 64;
    assert(two_to(64) == 0x1_0000_0000_0000_0000) by {
        reveal_with_fuel(two_to, 65);
    }
    while w > 1
        invariant
            nv == value(n@),
            dv == value(d@),
            dv > 0,
            w == two_to(e),
            y + w <= 0x1_0000_0000_0000_0000,
            y * dv <= nv,
            nv < (y + w) * dv,
        decreases w,
    {
        assert(e > 0);
        let half: u128 = w / 2;
        assert(half == two_to((e - 1) as nat));
        let cand: u64 = (y as u128 + half) as u64;
        let prod = mul_small(d, cand);
        assert(value(prod@) == cand * dv);
        assert(w == 2 * half);
        let fits = le(&prod, n);
        if fits {
            assert((cand + half) * dv == (y + w) * dv);
            y = cand;
        }
        w = half;
        proof {
            e = (e - 1) as nat;
        }
    }
    proof {
        assert((y + 1) * dv == y * dv + dv) by (nonlinear_arith);
        lemma_fundamental_div_mod_converse(nv, dv, y as int, nv - y * dv);
    }
    y
}

} // verus!
