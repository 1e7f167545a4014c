use vstd::arithmetic::power::pow;
use vstd::prelude::*;

verus! {

/// The base of a limb: 2^32.
pub open spec fn limb_base() -> int {
    0x1_0000_0000
}

/// The limb at position `i` of `s`, 0 past its end.
pub open spec fn limb_at(s: Seq<u32>, i: int) -> int {
    if 0 <= i < s.len() {
        s[i] as int
    } else {
        0
    }
}

/// The value of the lowest `n` limbs of `s` (little-endian, base 2^32).
pub open spec fn prefix_value(s: Seq<u32>, n: nat) -> int
    decreases n,
{
    if n == 0 {
        0
    } else {
        prefix_value(s, (n - 1) as nat) + limb_at(s, n - 1) * pow(limb_base(), (n - 1) as nat)
    }
}

/// The value of the limbs `s` (little-endian, base 2^32).
pub open spec fn limbs_value(s: Seq<u32>) -> int {
    prefix_value(s, s.len())
}

proof fn lemma_pow_pos(n: nat)
    ensures
        pow(limb_base(), n) > 0,
{
    vstd::arithmetic::power::lemma_pow_positive(limb_base(), n);
}

proof fn lemma_pow_succ(n: nat)
    ensures
        pow(limb_base(), n + 1) == limb_base() * pow(limb_base(), n),
{
    vstd::arithmetic::power::lemma_pow_adds(limb_base(), n, 1);
    vstd::arithmetic::power::lemma_pow1(limb_base());
    assert(pow(limb_base(), n + 1) == pow(limb_base(), n) * limb_base());
}

proof fn lemma_prefix_nonneg(s: Seq<u32>, n: nat)
    ensures
        prefix_value(s, n) >= 0,
    decreases n,
{
    if n > 0 {
        lemma_prefix_nonneg(s, (n - 1) as nat);
        lemma_pow_pos((n - 1) as nat);
        let l = limb_at(s, n - 1);
        let p = pow(limb_base(), (n - 1) as nat);
        assert(l * p >= 0) by (nonlinear_arith)
            requires
                l >= 0,
                p > 0,
        ;
    }
}

/// Limbs past the end add nothing.
proof fn lemma_prefix_past_end(s: Seq<u32>, n: nat)
    requires
        n >= s.len(),
    ensures
        prefix_value(s, n) == limbs_value(s),
    decreases n,
{
    if n > s.len() {
        lemma_prefix_past_end(s, (n - 1) as nat);
        assert(limb_at(s, n - 1) == 0);
    }
}

/// Appending a limb leaves the value of the lower limbs unchanged.
proof fn lemma_prefix_push(s: Seq<u32>, x: u32, n: nat)
    requires
        n <= s.len(),
    ensures
        prefix_value(s.push(x), n) == prefix_value(s, n),
    decreases n,
{
    if n > 0 {
        lemma_prefix_push(s, x, (n - 1) as nat);
        assert(limb_at(s.push(x), n - 1) == limb_at(s, n - 1));
    }
}

/// One more limb of the running sum: `d + carry_out * B == x + y + carry_in`
/// extends the invariant by one position.
proof fn lemma_add_step(p_res: int, p_a: int, p_b: int, carry_in: int, x: int, y: int, d: int, carry_out: int, pw: int)
    requires
        p_res + carry_in * pw == p_a + p_b,
        d + carry_out * limb_base() == x + y + carry_in,
    ensures
        (p_res + d * pw) + carry_out * (limb_base() * pw) == (p_a + x * pw) + (p_b + y * pw),
{
    assert((p_res + d * pw) + carry_out * (limb_base() * pw) == p_res + (d + carry_out * limb_base()) * pw)
        by (nonlinear_arith);
    assert((x + y + carry_in) * pw == x * pw + y * pw + carry_in * pw) by (nonlinear_arith);
}

/// The lowest `n` limbs are worth less than `B^n`.
proof fn lemma_prefix_bound(s: Seq<u32>, n: nat)
    ensures
        0 <= prefix_value(s, n) < pow(limb_base(), n),
    decreases n,
{
    if n == 0 {
        vstd::arithmetic::power::lemma_pow0(limb_base());
    } else {
        let m = (n - 1) as nat;
        lemma_prefix_bound(s, m);
        lemma_pow_succ(m);
        let p = prefix_value(s, m);
        let l = limb_at(s, n - 1);
        let pw = pow(limb_base(), m);
        assert(0 <= l <= limb_base() - 1);
        assert(p + l * pw < limb_base() * pw) by (nonlinear_arith)
            requires
                0 <= p < pw,
                0 <= l <= limb_base() - 1,
        ;
        assert(l * pw >= 0) by (nonlinear_arith)
            requires
                0 <= l,
                pw > 0,
        ;
    }
}

/// Where `a` and `b` first differ from the top at position `j`, the larger
/// limb there makes the larger value.
proof fn lemma_top_limb_decides(a: Seq<u32>, b: Seq<u32>, j: nat)
    requires
        limb_at(a, j as int) > limb_at(b, j as int),
    ensures
        prefix_value(a, j + 1) > prefix_value(b, j + 1),
{
    lemma_prefix_bound(a, j);
    lemma_prefix_bound(b, j);
    let pa = prefix_value(a, j);
    let pb = prefix_value(b, j);
    let x = limb_at(a, j as int);
    let y = limb_at(b, j as int);
    let pw = pow(limb_base(), j);
    assert(pa + x * pw > pb + y * pw) by (nonlinear_arith)
        requires
            0 <= pa < pw,
            0 <= pb < pw,
            x >= y + 1,
    ;
}

/// A natural number of any size.
#[derive(Clone, Debug, PartialEq, Eq)]
pub struct BigNat {
    limbs: Vec<u32>,
}

impl BigNat {
    /// The number.
    pub closed spec fn view(&self) -> nat {
        limbs_value(self.limbs@) as nat
    }

    proof fn lemma_view(&self)
        ensures
            self@ == limbs_value(self.limbs@),
    {
        lemma_prefix_nonneg(self.limbs@, self.limbs@.len());
    }

    /// Zero.
    pub fn zero() -> (r: BigNat)
        ensures
            r@ == 0,
    {
        BigNat { limbs: Vec::new() }
    }

    /// The number `v`.
    pub fn from_u128(v: u128) -> (r: BigNat)
        ensures
            r@ == v,
    {
        let mut limbs: Vec<u32> = Vec::new();
        let mut rest: u128 = v;
        proof {
            lemma_pow_pos(0);
            assert(pow(limb_base(), 0) == 1) by {
                vstd::arithmetic::power::lemma_pow0(limb_base());
            }
            assert(limbs@.len() == 0);
            assert(limbs_value(limbs@) == 0);
            assert(rest * pow(limb_base(), limbs@.len()) == v);
        }
        while rest > 0
            invariant
                limbs_value(limbs@) + rest * pow(limb_base(), limbs@.len()) == v,
            decreases rest,
        {
            let d = (rest % 0x1_0000_0000) as u32;
            let next = rest / 0x1_0000_0000;
            proof {
                let n = limbs@.len();
                let pw = pow(limb_base(), n);
                lemma_pow_succ(n);
                lemma_prefix_push(limbs@, d, n);
                assert(rest == d + next * limb_base()) by (nonlinear_arith)
                    requires
                        d == rest % 0x1_0000_0000,
                        next == rest / 0x1_0000_0000,
                        limb_base() == 0x1_0000_0000,
                ;
                assert(rest * pw == d * pw + next * (limb_base() * pw)) by (nonlinear_arith)
                    requires
                        rest == d + next * limb_base(),
                ;
                assert(limb_at(limbs@.push(d), n as int) == d);
            }
            limbs.push(d);
            rest = next;
        }
        let r = BigNat { limbs };
        proof {
            r.lemma_view();
        }
        r
    }

    /// Whether `self` is at least `other`.
    pub fn ge(&self, other: &BigNat) -> (r: bool)
        ensures
            r == (self@ >= other@),
    {
        let a = &self.limbs;
        let b = &other.limbs;
        let n: usize = if a.len() >= b.len() { a.len() } else { b.len() };
        proof {
            self.lemma_view();
            other.lemma_view();
            lemma_prefix_past_end(a@, n as nat);
            lemma_prefix_past_end(b@, n as nat);
        }
        let mut i: usize = n;
        while i > 0
            invariant
                n == (if a@.len() >= b@.len() { a@.len() } else { b@.len() }),
                0 <= i <= n,
                self@ - other@ == prefix_value(a@, i as nat) - prefix_value(b@, i as nat),
                self@ == limbs_value(a@),
                other@ == limbs_value(b@),
            decreases i,
        {
            let x: u32 = if i - 1 < a.len() { a[i - 1] } else { 0 };
            let y: u32 = if i - 1 < b.len() { b[i - 1] } else { 0 };
            proof {
                assert(limb_at(a@, i - 1) == x);
                assert(limb_at(b@, i - 1) == y);
            }
            if x > y {
                proof {
                    lemma_top_limb_decides(a@, b@, (i - 1) as nat);
                }
                return true;
            }
            if x < y {
                proof {
                    lemma_top_limb_decides(b@, a@, (i - 1) as nat);
                }
                return false;
            }
            i = i - 1;
        }
        true
    }

    /// Whether the number is zero.
    pub fn is_zero(&self) -> (r: bool)
        ensures
            r == (self@ == 0),
    {
        let z = BigNat::zero();
        z.ge(self)
    }

    /// The sum of `self` and `other`.
    pub fn add(&self, other: &BigNat) -> (r: BigNat)
        ensures
            r@ == self@ + other@,
    {
        let a = &self.limbs;
        let b = &other.limbs;
        let n: usize = if a.len() >= b.len() { a.len() } else { b.len() };
        let mut res: Vec<u32> = Vec::new();
        let mut carry: u64 = 0;
        let mut i: usize = 0;
        proof {
            assert(pow(limb_base(), 0) == 1) by {
                vstd::arithmetic::power::lemma_pow0(limb_base());
            }
        }
        while i < n
            invariant
                n == (if a@.len() >= b@.len() { a@.len() } else { b@.len() }),
                0 <= i <= n,
                res@.len() == i,
                carry <= 1,
                prefix_value(res@, i as nat) + carry * pow(limb_base(), i as nat) == prefix_value(a@, i as nat)
                    + prefix_value(b@, i as nat),
            decreases n - i,
        {
            let x: u64 = if i < a.len() { a[i] as u64 } else { 0 };
            let y: u64 = if i < b.len() { b[i] as u64 } else { 0 };
            let sum: u64 = x + y + carry;
            let d = (sum % 0x1_0000_0000) as u32;
            let next: u64 = sum / 0x1_0000_0000;
            proof {
                let pw = pow(limb_base(), i as nat);
                lemma_pow_succ(i as nat);
                lemma_prefix_push(res@, d, i as nat);
                assert(limb_at(res@.push(d), i as int) == d);
                assert(limb_at(a@, i as int) == x);
                assert(limb_at(b@, i as int) == y);
                assert(d + next * limb_base() == x + y + carry) by (nonlinear_arith)
                    requires
                        sum == x + y + carry,
                        d == sum % 0x1_0000_0000,
                        next == sum / 0x1_0000_0000,
                        limb_base() == 0x1_0000_0000,
                ;
                assert(next <= 1) by (nonlinear_arith)
                    requires
                        sum <= 0xffff_ffff + 0xffff_ffff + 1,
                        next == sum / 0x1_0000_0000,
                ;
                lemma_add_step(
                    prefix_value(res@, i as nat),
                    prefix_value(a@, i as nat),
                    prefix_value(b@, i as nat),
                    carry as int,
                    x as int,
                    y as int,
                    d as int,
                    next as int,
                    pw,
                );
            }
            res.push(d);
            carry = next;
            i = i + 1;
        }
        proof {
            lemma_prefix_past_end(a@, n as nat);
            lemma_prefix_past_end(b@, n as nat);
        }
        if carry == 1 {
            proof {
                lemma_prefix_push(res@, 1u32, n as nat);
                assert(limb_at(res@.push(1u32), n as int) == 1);
            }
            res.push(1);
        }
        let r = BigNat { limbs: res };
        proof {
            r.lemma_view();
            self.lemma_view();
            other.lemma_view();
        }
        r
    }

    /// A copy of the number.
    pub fn copy(&self) -> (r: BigNat)
        ensures
            r@ == self@,
    {
        let mut limbs: Vec<u32> = Vec::new();
        let mut i: usize = 0;
        while i < self.limbs.len()
            invariant
                0 <= i <= self.limbs@.len(),
                limbs@ == self.limbs@.subrange(0, i as int),
            decreases self.limbs@.len() - i,
        {
            limbs.push(self.limbs[i]);
            i = i + 1;
            assert(limbs@ =~= self.limbs@.subrange(0, i as int));
        }
        assert(self.limbs@.subrange(0, self.limbs@.len() as int) =~= self.limbs@);
        BigNat { limbs }
    }

    /// The limbs of the number, lowest first, in base 2^32.
    pub fn limbs(&self) -> (r: &Vec<u32>)
        ensures
            limbs_value(r@) == self@,
    {
        proof {
            self.lemma_view();
        }
        &self.limbs
    }

    /// The number whose limbs, lowest first and in base 2^32, are `limbs`.
    pub fn from_limbs(limbs: Vec<u32>) -> (r: BigNat)
        ensures
            r@ == limbs_value(limbs@),
    {
        let r = BigNat { limbs };
        proof {
            r.lemma_view();
        }
        r
    }
}

} // verus!
