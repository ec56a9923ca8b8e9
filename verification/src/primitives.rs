//! The plain value types the payment logic works on: a 20-byte account
//! address and a 256-bit unsigned integer amount held as four 64-bit limbs.

use vstd::prelude::*;
use vstd::arithmetic::div_mod::lemma_multiply_divide_lt;
use vstd::arithmetic::mul::{lemma_mul_strict_inequality, lemma_mul_upper_bound};

verus! {

/// A 20-byte account identifier. The payment logic treats it as opaque:
/// it is only stored, copied and compared.
#[derive(Clone, Copy, Debug, PartialEq, Eq)]
pub struct Address {
    pub bytes: [u8; 20],
}

impl Address {
    /// The all-zero address, used when no treasury address was supplied.
    pub fn zero() -> (r: Address)
        ensures
            r.bytes@ == Seq::new(20, |i: int| 0u8),
    {
        let r = Address { bytes: [0u8; 20] };
        proof {
            assert(r.bytes@ =~= Seq::new(20, |i: int| 0u8));
        }
        r
    }
}

/// A 256-bit unsigned integer, little-endian in four 64-bit limbs.
/// `as_nat` is its mathematical value.
#[derive(Clone, Copy, Debug, PartialEq, Eq, Structural)]
pub struct U256 {
    pub limb0: u64,
    pub limb1: u64,
    pub limb2: u64,
    pub limb3: u64,
}

impl U256 {
    /// The mathematical value of the four limbs.
    pub open spec fn as_nat(self) -> nat {
        (self.limb0 as nat)
        + (self.limb1 as nat) * 0x1_0000_0000_0000_0000nat
        + (self.limb2 as nat) * 0x1_0000_0000_0000_0000_0000_0000_0000_0000nat
        + (self.limb3 as nat) * 0x1_0000_0000_0000_0000_0000_0000_0000_0000_0000_0000_0000_0000nat
    }

    pub fn zero() -> (r: U256)
        ensures
            r.as_nat() == 0,
    {
        U256 { limb0: 0, limb1: 0, limb2: 0, limb3: 0 }
    }

    pub fn from_u64(v: u64) -> (r: U256)
        ensures
            r.as_nat() == v,
    {
        U256 { limb0: v, limb1: 0, limb2: 0, limb3: 0 }
    }

    pub fn from_u128(v: u128) -> (r: U256)
        ensures
            r.as_nat() == v,
    {
        let lo: u64 = (v % 0x1_0000_0000_0000_0000u128) as u64;
        let hi: u64 = (v / 0x1_0000_0000_0000_0000u128) as u64;
        U256 { limb0: lo, limb1: hi, limb2: 0, limb3: 0 }
    }

    pub fn is_zero(&self) -> (r: bool)
        ensures
            r == (self.as_nat() == 0),
    {
        self.limb0 == 0 && self.limb1 == 0 && self.limb2 == 0 && self.limb3 == 0
    }

    /// Widening product with a small factor: the four result limbs and the
    /// carry limb together hold exactly `self * m`, a 320-bit value.
    pub fn mul_small(&self, m: u64) -> (r: (U256, u64))
        ensures
            r.0.as_nat() + (r.1 as nat)
                * 0x1_0000_0000_0000_0000_0000_0000_0000_0000_0000_0000_0000_0000_0000_0000_0000_0000nat
                == self.as_nat() * (m as nat),
            m > 0 ==> r.1 < m,
    {
        proof {
            lemma_mul_upper_bound(
                self.limb0 as int,
                0xffff_ffff_ffff_ffffu64 as int,
                m as int,
                0xffff_ffff_ffff_ffffu64 as int,
            );
            lemma_mul_upper_bound(
                self.limb1 as int,
                0xffff_ffff_ffff_ffffu64 as int,
                m as int,
                0xffff_ffff_ffff_ffffu64 as int,
            );
            lemma_mul_upper_bound(
                self.limb2 as int,
                0xffff_ffff_ffff_ffffu64 as int,
                m as int,
                0xffff_ffff_ffff_ffffu64 as int,
            );
            lemma_mul_upper_bound(
                self.limb3 as int,
                0xffff_ffff_ffff_ffffu64 as int,
                m as int,
                0xffff_ffff_ffff_ffffu64 as int,
            );
        }
        let w0: u128 = (self.limb0 as u128) * (m as u128);
        let r0: u64 = (w0 % 0x1_0000_0000_0000_0000u128) as u64;
        let c0: u64 = (w0 / 0x1_0000_0000_0000_0000u128) as u64;
        let w1: u128 = (self.limb1 as u128) * (m as u128) + (c0 as u128);
        let r1: u64 = (w1 % 0x1_0000_0000_0000_0000u128) as u64;
        let c1: u64 = (w1 / 0x1_0000_0000_0000_0000u128) as u64;
        let w2: u128 = (self.limb2 as u128) * (m as u128) + (c1 as u128);
        let r2: u64 = (w2 % 0x1_0000_0000_0000_0000u128) as u64;
        let c2: u64 = (w2 / 0x1_0000_0000_0000_0000u128) as u64;
        let w3: u128 = (self.limb3 as u128) * (m as u128) + (c2 as u128);
        let r3: u64 = (w3 % 0x1_0000_0000_0000_0000u128) as u64;
        let c3: u64 = (w3 / 0x1_0000_0000_0000_0000u128) as u64;
        let low = U256 { limb0: r0, limb1: r1, limb2: r2, limb3: r3 };
        proof {
            assert((self.limb0 as nat
                + (self.limb1 as nat) * 0x1_0000_0000_0000_0000nat
                + (self.limb2 as nat) * 0x1_0000_0000_0000_0000_0000_0000_0000_0000nat
                + (self.limb3 as nat)
                    * 0x1_0000_0000_0000_0000_0000_0000_0000_0000_0000_0000_0000_0000nat) * (m as nat)
                == (self.limb0 as nat) * (m as nat)
                + ((self.limb1 as nat) * (m as nat)) * 0x1_0000_0000_0000_0000nat
                + ((self.limb2 as nat) * (m as nat)) * 0x1_0000_0000_0000_0000_0000_0000_0000_0000nat
                + ((self.limb3 as nat) * (m as nat))
                    * 0x1_0000_0000_0000_0000_0000_0000_0000_0000_0000_0000_0000_0000nat)
                by (nonlinear_arith);
            assert(low.as_nat() + (c3 as nat)
                * 0x1_0000_0000_0000_0000_0000_0000_0000_0000_0000_0000_0000_0000_0000_0000_0000_0000nat
                == self.as_nat() * (m as nat));
            if m > 0 {
                lemma_as_nat_bound(*self);
                lemma_mul_strict_inequality(
                    self.as_nat() as int,
                    0x1_0000_0000_0000_0000_0000_0000_0000_0000_0000_0000_0000_0000_0000_0000_0000_0000int,
                    m as int,
                );
            }
        }
        (low, c3)
    }

    /// Long division of the 320-bit value `hi * 2^256 + lo` by a small
    /// divisor `d`; returns the quotient (which fits in 256 bits because
    /// `hi < d`) and the remainder.
    pub fn div_rem_small(hi: u64, lo: &U256, d: u64) -> (r: (U256, u64))
        requires
            0 < d,
            hi < d,
        ensures
            r.0.as_nat() * (d as nat) + r.1
                == (hi as nat)
                    * 0x1_0000_0000_0000_0000_0000_0000_0000_0000_0000_0000_0000_0000_0000_0000_0000_0000nat
                    + lo.as_nat(),
            r.1 < d,
    {
        let cur3: u128 = (hi as u128) * 0x1_0000_0000_0000_0000u128 + (lo.limb3 as u128);
        proof {
            assert(cur3 < (d as u128) * 0x1_0000_0000_0000_0000u128);
            lemma_multiply_divide_lt(cur3 as int, d as int, 0x1_0000_0000_0000_0000int);
        }
        let q3: u64 = (cur3 / (d as u128)) as u64;
        let r3: u64 = (cur3 % (d as u128)) as u64;
        let cur2: u128 = (r3 as u128) * 0x1_0000_0000_0000_0000u128 + (lo.limb2 as u128);
        proof {
            assert(cur2 < (d as u128) * 0x1_0000_0000_0000_0000u128);
            lemma_multiply_divide_lt(cur2 as int, d as int, 0x1_0000_0000_0000_0000int);
        }
        let q2: u64 = (cur2 / (d as u128)) as u64;
        let r2: u64 = (cur2 % (d as u128)) as u64;
        let cur1: u128 = (r2 as u128) * 0x1_0000_0000_0000_0000u128 + (lo.limb1 as u128);
        proof {
            assert(cur1 < (d as u128) * 0x1_0000_0000_0000_0000u128);
            lemma_multiply_divide_lt(cur1 as int, d as int, 0x1_0000_0000_0000_0000int);
        }
        let q1: u64 = (cur1 / (d as u128)) as u64;
        let r1: u64 = (cur1 % (d as u128)) as u64;
        let cur0: u128 = (r1 as u128) * 0x1_0000_0000_0000_0000u128 + (lo.limb0 as u128);
        proof {
            assert(cur0 < (d as u128) * 0x1_0000_0000_0000_0000u128);
            lemma_multiply_divide_lt(cur0 as int, d as int, 0x1_0000_0000_0000_0000int);
        }
        let q0: u64 = (cur0 / (d as u128)) as u64;
        let r0: u64 = (cur0 % (d as u128)) as u64;
        let quotient = U256 { limb0: q0, limb1: q1, limb2: q2, limb3: q3 };
        proof {
            assert(((q0 as nat)
                + (q1 as nat) * 0x1_0000_0000_0000_0000nat
                + (q2 as nat) * 0x1_0000_0000_0000_0000_0000_0000_0000_0000nat
                + (q3 as nat)
                    * 0x1_0000_0000_0000_0000_0000_0000_0000_0000_0000_0000_0000_0000nat) * (d as nat)
                == (q0 as nat) * (d as nat)
                + ((q1 as nat) * (d as nat)) * 0x1_0000_0000_0000_0000nat
                + ((q2 as nat) * (d as nat)) * 0x1_0000_0000_0000_0000_0000_0000_0000_0000nat
                + ((q3 as nat) * (d as nat))
                    * 0x1_0000_0000_0000_0000_0000_0000_0000_0000_0000_0000_0000_0000nat)
                by (nonlinear_arith);
            assert((q3 as nat) * (d as nat) + r3 == cur3) by (nonlinear_arith)
                requires
                    q3 == cur3 as nat / (d as nat),
                    r3 == cur3 as nat % (d as nat),
                    0 < d,
            ;
            assert((q2 as nat) * (d as nat) + r2 == cur2) by (nonlinear_arith)
                requires
                    q2 == cur2 as nat / (d as nat),
                    r2 == cur2 as nat % (d as nat),
                    0 < d,
            ;
            assert((q1 as nat) * (d as nat) + r1 == cur1) by (nonlinear_arith)
                requires
                    q1 == cur1 as nat / (d as nat),
                    r1 == cur1 as nat % (d as nat),
                    0 < d,
            ;
            assert((q0 as nat) * (d as nat) + r0 == cur0) by (nonlinear_arith)
                requires
                    q0 == cur0 as nat / (d as nat),
                    r0 == cur0 as nat % (d as nat),
                    0 < d,
            ;
            assert(quotient.as_nat() * (d as nat) + r0
                == (hi as nat)
                    * 0x1_0000_0000_0000_0000_0000_0000_0000_0000_0000_0000_0000_0000_0000_0000_0000_0000nat
                    + lo.as_nat());
        }
        (quotient, r0)
    }

    /// Subtraction, defined when the result cannot go below zero.
    pub fn sub(&self, other: &U256) -> (r: U256)
        requires
            other.as_nat() <= self.as_nat(),
        ensures
            r.as_nat() == self.as_nat() - other.as_nat(),
    {
        let t0: u128 = (self.limb0 as u128) + 0x1_0000_0000_0000_0000u128 - (other.limb0 as u128);
        let d0: u64 = (t0 % 0x1_0000_0000_0000_0000u128) as u64;
        let b0: u64 = if t0 >= 0x1_0000_0000_0000_0000u128 { 0 } else { 1 };
        let t1: u128 = (self.limb1 as u128) + 0x1_0000_0000_0000_0000u128 - (other.limb1 as u128)
            - (b0 as u128);
        let d1: u64 = (t1 % 0x1_0000_0000_0000_0000u128) as u64;
        let b1: u64 = if t1 >= 0x1_0000_0000_0000_0000u128 { 0 } else { 1 };
        let t2: u128 = (self.limb2 as u128) + 0x1_0000_0000_0000_0000u128 - (other.limb2 as u128)
            - (b1 as u128);
        let d2: u64 = (t2 % 0x1_0000_0000_0000_0000u128) as u64;
        let b2: u64 = if t2 >= 0x1_0000_0000_0000_0000u128 { 0 } else { 1 };
        let t3: u128 = (self.limb3 as u128) + 0x1_0000_0000_0000_0000u128 - (other.limb3 as u128)
            - (b2 as u128);
        let d3: u64 = (t3 % 0x1_0000_0000_0000_0000u128) as u64;
        let b3: u64 = if t3 >= 0x1_0000_0000_0000_0000u128 { 0 } else { 1 };
        let r = U256 { limb0: d0, limb1: d1, limb2: d2, limb3: d3 };
        proof {
            assert(d0 == self.limb0 - other.limb0 + (b0 as int) * 0x1_0000_0000_0000_0000int);
            assert(d1 == self.limb1 - other.limb1 - b0 + (b1 as int) * 0x1_0000_0000_0000_0000int);
            assert(d2 == self.limb2 - other.limb2 - b1 + (b2 as int) * 0x1_0000_0000_0000_0000int);
            assert(d3 == self.limb3 - other.limb3 - b2 + (b3 as int) * 0x1_0000_0000_0000_0000int);
            lemma_as_nat_bound(r);
            assert(r.as_nat() == self.as_nat() - other.as_nat() + (b3 as nat)
                * 0x1_0000_0000_0000_0000_0000_0000_0000_0000_0000_0000_0000_0000_0000_0000_0000_0000nat);
        }
        r
    }
}

/// Every four-limb value lies below 2^256.
pub proof fn lemma_as_nat_bound(a: U256)
    ensures
        a.as_nat() < 0x1_0000_0000_0000_0000_0000_0000_0000_0000_0000_0000_0000_0000_0000_0000_0000_0000nat,
{
}

/// The base-2^64 limb representation is canonical: equal values mean
/// equal limbs.
pub proof fn lemma_as_nat_injective(a: U256, b: U256)
    requires
        a.as_nat() == b.as_nat(),
    ensures
        a == b,
{
}

} // verus!
