//! The curves that the suites name, and the prime fields under them.

use vstd::arithmetic::power2::{lemma2_to64, lemma2_to64_rest, lemma_pow2_adds, pow2};
use vstd::prelude::*;

use crate::bigint::be_nat;

verus! {

/// A curve of the catalogue.
#[derive(Clone, Copy, Debug, PartialEq, Eq, Structural)]
pub enum CurveID {
    P256,
    P384,
    P521,
    SECP256K1,
    BLS12381G1,
    CURVE25519,
    CURVE448,
    EDWARDS25519,
    EDWARDS448,
}

/// The model in which a curve is given.
#[derive(Clone, Copy, Debug, PartialEq, Eq, Structural)]
pub enum CurveFamily {
    Weierstrass,
    Montgomery,
    Edwards,
}

/// How the sign of a field element is read when a map picks a root.
#[derive(Clone, Copy, Debug, PartialEq, Eq, Structural)]
pub enum Sgn0 {
    LittleEndian,
    BigEndian,
}

impl CurveID {
    /// The family of the curve.
    pub open spec fn spec_family(self) -> CurveFamily {
        match self {
            CurveID::P256
            | CurveID::P384
            | CurveID::P521
            | CurveID::SECP256K1
            | CurveID::BLS12381G1 => CurveFamily::Weierstrass,
            CurveID::CURVE25519 | CurveID::CURVE448 => CurveFamily::Montgomery,
            CurveID::EDWARDS25519 | CurveID::EDWARDS448 => CurveFamily::Edwards,
        }
    }

    /// The characteristic of the field over which the curve is defined.
    pub open spec fn characteristic(self) -> nat {
        match self {
            CurveID::P256 => 0xffffffff00000001000000000000000000000000ffffffffffffffffffffffffnat,
            CurveID::P384 => 0xfffffffffffffffffffffffffffffffffffffffffffffffffffffffffffffffeffffffff0000000000000000ffffffffnat,
            CurveID::P521 => 0x01ffffffffffffffffffffffffffffffffffffffffffffffffffffffffffffffffffffffffffffffffffffffffffffffffffffffffffffffffffffffffffffffffffnat,
            CurveID::SECP256K1 => 0xfffffffffffffffffffffffffffffffffffffffffffffffffffffffefffffc2fnat,
            CurveID::BLS12381G1 => 0x1a0111ea397fe69a4b1ba7b6434bacd764774b84f38512bf6730d2a0f6b0f6241eabfffeb153ffffb9feffffffffaaabnat,
            CurveID::CURVE25519
            | CurveID::EDWARDS25519 => 0x7fffffffffffffffffffffffffffffffffffffffffffffffffffffffffffffednat,
            CurveID::CURVE448
            | CurveID::EDWARDS448 => 0xfffffffffffffffffffffffffffffffffffffffffffffffffffffffeffffffffffffffffffffffffffffffffffffffffffffffffffffffffnat,
        }
    }

    /// Number of bits of the characteristic.
    pub open spec fn field_bits(self) -> nat {
        match self {
            CurveID::P256 => 256,
            CurveID::P384 => 384,
            CurveID::P521 => 521,
            CurveID::SECP256K1 => 256,
            CurveID::BLS12381G1 => 381,
            CurveID::CURVE25519 | CurveID::EDWARDS25519 => 255,
            CurveID::CURVE448 | CurveID::EDWARDS448 => 448,
        }
    }

    /// Number of bytes of the characteristic.
    pub open spec fn field_len(self) -> nat {
        (self.field_bits() + 7) / 8
    }

    /// The sign convention that the maps of the curve follow.
    pub open spec fn spec_sgn0(self) -> Sgn0 {
        match self {
            CurveID::BLS12381G1 => Sgn0::BigEndian,
            _ => Sgn0::LittleEndian,
        }
    }

    /// The family of the curve.
    pub fn family(self) -> (f: CurveFamily)
        ensures
            f == self.spec_family(),
    {
        match self {
            CurveID::P256
            | CurveID::P384
            | CurveID::P521
            | CurveID::SECP256K1
            | CurveID::BLS12381G1 => CurveFamily::Weierstrass,
            CurveID::CURVE25519 | CurveID::CURVE448 => CurveFamily::Montgomery,
            CurveID::EDWARDS25519 | CurveID::EDWARDS448 => CurveFamily::Edwards,
        }
    }

    /// The sign convention that the maps of the curve follow.
    pub fn sgn0(self) -> (s: Sgn0)
        ensures
            s == self.spec_sgn0(),
    {
        match self {
            CurveID::BLS12381G1 => Sgn0::BigEndian,
            _ => Sgn0::LittleEndian,
        }
    }

    /// The characteristic as bytes, most significant first, without
    /// leading zero bytes.
    pub fn modulus(self) -> (p: Vec<u8>)
        ensures
            be_nat(p@) == self.characteristic(),
            p@.len() == self.field_len(),
    {
        let mut p: Vec<u8> = Vec::new();
        match self {
            CurveID::P256 => {
                push_word(&mut p, 0xffffffff00000001);
                push_word(&mut p, 0x0000000000000000);
                push_word(&mut p, 0x00000000ffffffff);
                push_word(&mut p, 0xffffffffffffffff);
            },
            CurveID::P384 => {
                push_word(&mut p, 0xffffffffffffffff);
                push_word(&mut p, 0xffffffffffffffff);
                push_word(&mut p, 0xffffffffffffffff);
                push_word(&mut p, 0xfffffffffffffffe);
                push_word(&mut p, 0xffffffff00000000);
                push_word(&mut p, 0x00000000ffffffff);
            },
            CurveID::P521 => {
                push_byte(&mut p, 0x01);
                push_byte(&mut p, 0xff);
                push_word(&mut p, 0xffffffffffffffff);
                push_word(&mut p, 0xffffffffffffffff);
                push_word(&mut p, 0xffffffffffffffff);
                push_word(&mut p, 0xffffffffffffffff);
                push_word(&mut p, 0xffffffffffffffff);
                push_word(&mut p, 0xffffffffffffffff);
                push_word(&mut p, 0xffffffffffffffff);
                push_word(&mut p, 0xffffffffffffffff);
            },
            CurveID::SECP256K1 => {
                push_word(&mut p, 0xffffffffffffffff);
                push_word(&mut p, 0xffffffffffffffff);
                push_word(&mut p, 0xffffffffffffffff);
                push_word(&mut p, 0xfffffffefffffc2f);
            },
            CurveID::BLS12381G1 => {
                push_word(&mut p, 0x1a0111ea397fe69a);
                push_word(&mut p, 0x4b1ba7b6434bacd7);
                push_word(&mut p, 0x64774b84f38512bf);
                push_word(&mut p, 0x6730d2a0f6b0f624);
                push_word(&mut p, 0x1eabfffeb153ffff);
                push_word(&mut p, 0xb9feffffffffaaab);
            },
            CurveID::CURVE25519 | CurveID::EDWARDS25519 => {
                push_word(&mut p, 0x7fffffffffffffff);
                push_word(&mut p, 0xffffffffffffffff);
                push_word(&mut p, 0xffffffffffffffff);
                push_word(&mut p, 0xffffffffffffffed);
            },
            CurveID::CURVE448 | CurveID::EDWARDS448 => {
                push_word(&mut p, 0xffffffffffffffff);
                push_word(&mut p, 0xffffffffffffffff);
                push_word(&mut p, 0xffffffffffffffff);
                push_word(&mut p, 0xfffffffeffffffff);
                push_word(&mut p, 0xffffffffffffffff);
                push_word(&mut p, 0xffffffffffffffff);
                push_word(&mut p, 0xffffffffffffffff);
            },
        }
        p
    }
}

/// Appends one byte to a number's bytes.
fn push_byte(v: &mut Vec<u8>, b: u8)
    ensures
        final(v)@ == old(v)@.push(b),
        be_nat(final(v)@) == be_nat(old(v)@) * 256 + b,
{
    v.push(b);
    assert(v@.drop_last() == old(v)@);
}

/// Appends the two bytes of `x`, most significant first.
fn push_u16(v: &mut Vec<u8>, x: u16)
    ensures
        final(v)@.len() == old(v)@.len() + 2,
        be_nat(final(v)@) == be_nat(old(v)@) * 0x1_0000 + x,
{
    push_byte(v, (x / 256) as u8);
    push_byte(v, (x % 256) as u8);
}

/// Appends the four bytes of `x`, most significant first.
fn push_u32(v: &mut Vec<u8>, x: u32)
    ensures
        final(v)@.len() == old(v)@.len() + 4,
        be_nat(final(v)@) == be_nat(old(v)@) * 0x1_0000_0000 + x,
{
    push_u16(v, (x / 0x1_0000) as u16);
    push_u16(v, (x % 0x1_0000) as u16);
}

/// Appends the eight bytes of `w`, most significant first.
fn push_word(v: &mut Vec<u8>, w: u64)
    ensures
        final(v)@.len() == old(v)@.len() + 8,
        be_nat(final(v)@) == be_nat(old(v)@) * 0x1_0000_0000_0000_0000 + w,
{
    push_u32(v, (w / 0x1_0000_0000) as u32);
    push_u32(v, (w % 0x1_0000_0000) as u32);
}

/// Every characteristic is positive.
pub proof fn lemma_characteristic_positive(c: CurveID)
    ensures
        c.characteristic() > 0,
{
}

/// The characteristic of a curve has exactly `field_bits` bits.
pub proof fn lemma_field_bits(c: CurveID)
    ensures
        pow2((c.field_bits() - 1) as nat) <= c.characteristic() < pow2(c.field_bits()),
{
    lemma2_to64();
    lemma2_to64_rest();
    lemma_pow2_adds(64, 64);
    assert(pow2(128) == 0x100000000000000000000000000000000) by (nonlinear_arith)
        requires
            pow2(128) == pow2(64) * pow2(64),
            pow2(64) == 0x10000000000000000,
            pow2(64) == 0x10000000000000000,
    ;
    lemma_pow2_adds(128, 64);
    assert(pow2(192) == 0x1000000000000000000000000000000000000000000000000) by (nonlinear_arith)
        requires
            pow2(192) == pow2(128) * pow2(64),
            pow2(128) == 0x100000000000000000000000000000000,
            pow2(64) == 0x10000000000000000,
    ;
    lemma_pow2_adds(192, 62);
    assert(pow2(254) == 0x4000000000000000000000000000000000000000000000000000000000000000) by (nonlinear_arith)
        requires
            pow2(254) == pow2(192) * pow2(62),
            pow2(192) == 0x1000000000000000000000000000000000000000000000000,
            pow2(62) == 0x4000000000000000,
    ;
    lemma_pow2_adds(192, 63);
    assert(pow2(255) == 0x8000000000000000000000000000000000000000000000000000000000000000) by (nonlinear_arith)
        requires
            pow2(255) == pow2(192) * pow2(63),
            pow2(192) == 0x1000000000000000000000000000000000000000000000000,
            pow2(63) == 0x8000000000000000,
    ;
    lemma_pow2_adds(192, 64);
    assert(pow2(256) == 0x10000000000000000000000000000000000000000000000000000000000000000) by (nonlinear_arith)
        requires
            pow2(256) == pow2(192) * pow2(64),
            pow2(192) == 0x1000000000000000000000000000000000000000000000000,
            pow2(64) == 0x10000000000000000,
    ;
    lemma_pow2_adds(256, 64);
    assert(pow2(320) == 0x100000000000000000000000000000000000000000000000000000000000000000000000000000000) by (nonlinear_arith)
        requires
            pow2(320) == pow2(256) * pow2(64),
            pow2(256) == 0x10000000000000000000000000000000000000000000000000000000000000000,
            pow2(64) == 0x10000000000000000,
    ;
    lemma_pow2_adds(320, 60);
    assert(pow2(380) == 0x100000000000000000000000000000000000000000000000000000000000000000000000000000000000000000000000) by (nonlinear_arith)
        requires
            pow2(380) == pow2(320) * pow2(60),
            pow2(320) == 0x100000000000000000000000000000000000000000000000000000000000000000000000000000000,
            pow2(60) == 0x1000000000000000,
    ;
    lemma_pow2_adds(320, 61);
    assert(pow2(381) == 0x200000000000000000000000000000000000000000000000000000000000000000000000000000000000000000000000) by (nonlinear_arith)
        requires
            pow2(381) == pow2(320) * pow2(61),
            pow2(320) == 0x100000000000000000000000000000000000000000000000000000000000000000000000000000000,
            pow2(61) == 0x2000000000000000,
    ;
    lemma_pow2_adds(320, 63);
    assert(pow2(383) == 0x800000000000000000000000000000000000000000000000000000000000000000000000000000000000000000000000) by (nonlinear_arith)
        requires
            pow2(383) == pow2(320) * pow2(63),
            pow2(320) == 0x100000000000000000000000000000000000000000000000000000000000000000000000000000000,
            pow2(63) == 0x8000000000000000,
    ;
    lemma_pow2_adds(320, 64);
    assert(pow2(384) == 0x1000000000000000000000000000000000000000000000000000000000000000000000000000000000000000000000000) by (nonlinear_arith)
        requires
            pow2(384) == pow2(320) * pow2(64),
            pow2(320) == 0x100000000000000000000000000000000000000000000000000000000000000000000000000000000,
            pow2(64) == 0x10000000000000000,
    ;
    lemma_pow2_adds(384, 63);
    assert(pow2(447) == 0x8000000000000000000000000000000000000000000000000000000000000000000000000000000000000000000000000000000000000000) by (nonlinear_arith)
        requires
            pow2(447) == pow2(384) * pow2(63),
            pow2(384) == 0x1000000000000000000000000000000000000000000000000000000000000000000000000000000000000000000000000,
            pow2(63) == 0x8000000000000000,
    ;
    lemma_pow2_adds(384, 64);
    assert(pow2(448) == 0x10000000000000000000000000000000000000000000000000000000000000000000000000000000000000000000000000000000000000000) by (nonlinear_arith)
        requires
            pow2(448) == pow2(384) * pow2(64),
            pow2(384) == 0x1000000000000000000000000000000000000000000000000000000000000000000000000000000000000000000000000,
            pow2(64) == 0x10000000000000000,
    ;
    lemma_pow2_adds(448, 64);
    assert(pow2(512) == 0x100000000000000000000000000000000000000000000000000000000000000000000000000000000000000000000000000000000000000000000000000000000) by (nonlinear_arith)
        requires
            pow2(512) == pow2(448) * pow2(64),
            pow2(448) == 0x10000000000000000000000000000000000000000000000000000000000000000000000000000000000000000000000000000000000000000,
            pow2(64) == 0x10000000000000000,
    ;
    lemma_pow2_adds(512, 8);
    assert(pow2(520) == 0x10000000000000000000000000000000000000000000000000000000000000000000000000000000000000000000000000000000000000000000000000000000000) by (nonlinear_arith)
        requires
            pow2(520) == pow2(512) * pow2(8),
            pow2(512) == 0x100000000000000000000000000000000000000000000000000000000000000000000000000000000000000000000000000000000000000000000000000000000,
            pow2(8) == 0x100,
    ;
    lemma_pow2_adds(512, 9);
    assert(pow2(521) == 0x20000000000000000000000000000000000000000000000000000000000000000000000000000000000000000000000000000000000000000000000000000000000) by (nonlinear_arith)
        requires
            pow2(521) == pow2(512) * pow2(9),
            pow2(512) == 0x100000000000000000000000000000000000000000000000000000000000000000000000000000000000000000000000000000000000000000000000000000000,
            pow2(9) == 0x200,
    ;
}

} // verus!
