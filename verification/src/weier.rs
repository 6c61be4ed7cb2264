//! The suites over short-Weierstrass curves.
//!
//! Names and parameters are pinned to RFC 9380 (Hashing to Elliptic Curves,
//! August 2023): where it defines a suite, the curve, the expander, the
//! map and its constant `Z`, `k` and `l` are the ones it gives. The suites
//! with the SVDW map and the two P-256 suites over SHAKE128 are not in it;
//! they take `k` and `l` from the suites of their curve that are.

use vstd::prelude::*;
use vstd::string::StringSliceAdditionalSpecFns;

use crate::api::{ExpID, HashID, MapID, XofID};
use crate::catalogue::tight;
use crate::curve::CurveID;
use crate::registry::{find_suite, lookup_in, Suite};

verus! {

/// The short-Weierstrass suites: each in its non-uniform mode, then in
/// its random-oracle mode.
pub open spec fn catalogue() -> Seq<Suite> {
    seq![
        (Suite {
            name: "P256_XMD:SHA-256_SSWU_NU_",
            curve: CurveID::P256,
            map: MapID::SSWU(-10i32),
            exp: ExpID::XMD(HashID::SHA256),
            k: 128,
            l: 48,
            ro: false,
        }),
        (Suite {
            name: "P256_XMD:SHA-256_SSWU_RO_",
            curve: CurveID::P256,
            map: MapID::SSWU(-10i32),
            exp: ExpID::XMD(HashID::SHA256),
            k: 128,
            l: 48,
            ro: true,
        }),
        (Suite {
            name: "P256_XMD:SHAKE128_SSWU_NU_",
            curve: CurveID::P256,
            map: MapID::SSWU(-10i32),
            exp: ExpID::XOF(XofID::SHAKE128),
            k: 128,
            l: 48,
            ro: false,
        }),
        (Suite {
            name: "P256_XMD:SHAKE128_SSWU_RO_",
            curve: CurveID::P256,
            map: MapID::SSWU(-10i32),
            exp: ExpID::XOF(XofID::SHAKE128),
            k: 128,
            l: 48,
            ro: true,
        }),
        (Suite {
            name: "P256_XMD:SHA-256_SVDW_NU_",
            curve: CurveID::P256,
            map: MapID::SVDW(-3i32),
            exp: ExpID::XMD(HashID::SHA256),
            k: 128,
            l: 48,
            ro: false,
        }),
        (Suite {
            name: "P256_XMD:SHA-256_SVDW_RO_",
            curve: CurveID::P256,
            map: MapID::SVDW(-3i32),
            exp: ExpID::XMD(HashID::SHA256),
            k: 128,
            l: 48,
            ro: true,
        }),
        (Suite {
            name: "P384_XMD:SHA-384_SSWU_NU_",
            curve: CurveID::P384,
            map: MapID::SSWU(-12i32),
            exp: ExpID::XMD(HashID::SHA384),
            k: 192,
            l: 72,
            ro: false,
        }),
        (Suite {
            name: "P384_XMD:SHA-384_SSWU_RO_",
            curve: CurveID::P384,
            map: MapID::SSWU(-12i32),
            exp: ExpID::XMD(HashID::SHA384),
            k: 192,
            l: 72,
            ro: true,
        }),
        (Suite {
            name: "P384_XMD:SHA-384_SVDW_NU_",
            curve: CurveID::P384,
            map: MapID::SVDW(-1i32),
            exp: ExpID::XMD(HashID::SHA384),
            k: 192,
            l: 72,
            ro: false,
        }),
        (Suite {
            name: "P384_XMD:SHA-384_SVDW_RO_",
            curve: CurveID::P384,
            map: MapID::SVDW(-1i32),
            exp: ExpID::XMD(HashID::SHA384),
            k: 192,
            l: 72,
            ro: true,
        }),
        (Suite {
            name: "P521_XMD:SHA-512_SSWU_NU_",
            curve: CurveID::P521,
            map: MapID::SSWU(-4i32),
            exp: ExpID::XMD(HashID::SHA512),
            k: 256,
            l: 98,
            ro: false,
        }),
        (Suite {
            name: "P521_XMD:SHA-512_SSWU_RO_",
            curve: CurveID::P521,
            map: MapID::SSWU(-4i32),
            exp: ExpID::XMD(HashID::SHA512),
            k: 256,
            l: 98,
            ro: true,
        }),
        (Suite {
            name: "P521_XMD:SHA-512_SVDW_NU_",
            curve: CurveID::P521,
            map: MapID::SVDW(1i32),
            exp: ExpID::XMD(HashID::SHA512),
            k: 256,
            l: 98,
            ro: false,
        }),
        (Suite {
            name: "P521_XMD:SHA-512_SVDW_RO_",
            curve: CurveID::P521,
            map: MapID::SVDW(1i32),
            exp: ExpID::XMD(HashID::SHA512),
            k: 256,
            l: 98,
            ro: true,
        }),
        (Suite {
            name: "secp256k1_XMD:SHA-256_SSWU_NU_",
            curve: CurveID::SECP256K1,
            map: MapID::SSWUAB0(-11i32),
            exp: ExpID::XMD(HashID::SHA256),
            k: 128,
            l: 48,
            ro: false,
        }),
        (Suite {
            name: "secp256k1_XMD:SHA-256_SSWU_RO_",
            curve: CurveID::SECP256K1,
            map: MapID::SSWUAB0(-11i32),
            exp: ExpID::XMD(HashID::SHA256),
            k: 128,
            l: 48,
            ro: true,
        }),
        (Suite {
            name: "secp256k1_XMD:SHA-256_SVDW_NU_",
            curve: CurveID::SECP256K1,
            map: MapID::SVDW(1i32),
            exp: ExpID::XMD(HashID::SHA256),
            k: 128,
            l: 48,
            ro: false,
        }),
        (Suite {
            name: "secp256k1_XMD:SHA-256_SVDW_RO_",
            curve: CurveID::SECP256K1,
            map: MapID::SVDW(1i32),
            exp: ExpID::XMD(HashID::SHA256),
            k: 128,
            l: 48,
            ro: true,
        }),
        (Suite {
            name: "BLS12381G1_XMD:SHA-256_SSWU_NU_",
            curve: CurveID::BLS12381G1,
            map: MapID::SSWUAB0(11i32),
            exp: ExpID::XMD(HashID::SHA256),
            k: 128,
            l: 64,
            ro: false,
        }),
        (Suite {
            name: "BLS12381G1_XMD:SHA-256_SSWU_RO_",
            curve: CurveID::BLS12381G1,
            map: MapID::SSWUAB0(11i32),
            exp: ExpID::XMD(HashID::SHA256),
            k: 128,
            l: 64,
            ro: true,
        }),
        (Suite {
            name: "BLS12381G1_XMD:SHA-256_SVDW_NU_",
            curve: CurveID::BLS12381G1,
            map: MapID::SVDW(-3i32),
            exp: ExpID::XMD(HashID::SHA256),
            k: 128,
            l: 64,
            ro: false,
        }),
        (Suite {
            name: "BLS12381G1_XMD:SHA-256_SVDW_RO_",
            curve: CurveID::BLS12381G1,
            map: MapID::SVDW(-3i32),
            exp: ExpID::XMD(HashID::SHA256),
            k: 128,
            l: 64,
            ro: true,
        }),
    ]
}

/// The short-Weierstrass suites.
pub fn suites() -> (all: Vec<Suite>)
    ensures
        all@ == catalogue(),
{
    let all: Vec<Suite> = vec![
        (Suite {
            name: "P256_XMD:SHA-256_SSWU_NU_",
            curve: CurveID::P256,
            map: MapID::SSWU(-10i32),
            exp: ExpID::XMD(HashID::SHA256),
            k: 128,
            l: 48,
            ro: false,
        }),
        (Suite {
            name: "P256_XMD:SHA-256_SSWU_RO_",
            curve: CurveID::P256,
            map: MapID::SSWU(-10i32),
            exp: ExpID::XMD(HashID::SHA256),
            k: 128,
            l: 48,
            ro: true,
        }),
        (Suite {
            name: "P256_XMD:SHAKE128_SSWU_NU_",
            curve: CurveID::P256,
            map: MapID::SSWU(-10i32),
            exp: ExpID::XOF(XofID::SHAKE128),
            k: 128,
            l: 48,
            ro: false,
        }),
        (Suite {
            name: "P256_XMD:SHAKE128_SSWU_RO_",
            curve: CurveID::P256,
            map: MapID::SSWU(-10i32),
            exp: ExpID::XOF(XofID::SHAKE128),
            k: 128,
            l: 48,
            ro: true,
        }),
        (Suite {
            name: "P256_XMD:SHA-256_SVDW_NU_",
            curve: CurveID::P256,
            map: MapID::SVDW(-3i32),
            exp: ExpID::XMD(HashID::SHA256),
            k: 128,
            l: 48,
            ro: false,
        }),
        (Suite {
            name: "P256_XMD:SHA-256_SVDW_RO_",
            curve: CurveID::P256,
            map: MapID::SVDW(-3i32),
            exp: ExpID::XMD(HashID::SHA256),
            k: 128,
            l: 48,
            ro: true,
        }),
        (Suite {
            name: "P384_XMD:SHA-384_SSWU_NU_",
            curve: CurveID::P384,
            map: MapID::SSWU(-12i32),
            exp: ExpID::XMD(HashID::SHA384),
            k: 192,
            l: 72,
            ro: false,
        }),
        (Suite {
            name: "P384_XMD:SHA-384_SSWU_RO_",
            curve: CurveID::P384,
            map: MapID::SSWU(-12i32),
            exp: ExpID::XMD(HashID::SHA384),
            k: 192,
            l: 72,
            ro: true,
        }),
        (Suite {
            name: "P384_XMD:SHA-384_SVDW_NU_",
            curve: CurveID::P384,
            map: MapID::SVDW(-1i32),
            exp: ExpID::XMD(HashID::SHA384),
            k: 192,
            l: 72,
            ro: false,
        }),
        (Suite {
            name: "P384_XMD:SHA-384_SVDW_RO_",
            curve: CurveID::P384,
            map: MapID::SVDW(-1i32),
            exp: ExpID::XMD(HashID::SHA384),
            k: 192,
            l: 72,
            ro: true,
        }),
        (Suite {
            name: "P521_XMD:SHA-512_SSWU_NU_",
            curve: CurveID::P521,
            map: MapID::SSWU(-4i32),
            exp: ExpID::XMD(HashID::SHA512),
            k: 256,
            l: 98,
            ro: false,
        }),
        (Suite {
            name: "P521_XMD:SHA-512_SSWU_RO_",
            curve: CurveID::P521,
            map: MapID::SSWU(-4i32),
            exp: ExpID::XMD(HashID::SHA512),
            k: 256,
            l: 98,
            ro: true,
        }),
        (Suite {
            name: "P521_XMD:SHA-512_SVDW_NU_",
            curve: CurveID::P521,
            map: MapID::SVDW(1i32),
            exp: ExpID::XMD(HashID::SHA512),
            k: 256,
            l: 98,
            ro: false,
        }),
        (Suite {
            name: "P521_XMD:SHA-512_SVDW_RO_",
            curve: CurveID::P521,
            map: MapID::SVDW(1i32),
            exp: ExpID::XMD(HashID::SHA512),
            k: 256,
            l: 98,
            ro: true,
        }),
        (Suite {
            name: "secp256k1_XMD:SHA-256_SSWU_NU_",
            curve: CurveID::SECP256K1,
            map: MapID::SSWUAB0(-11i32),
            exp: ExpID::XMD(HashID::SHA256),
            k: 128,
            l: 48,
            ro: false,
        }),
        (Suite {
            name: "secp256k1_XMD:SHA-256_SSWU_RO_",
            curve: CurveID::SECP256K1,
            map: MapID::SSWUAB0(-11i32),
            exp: ExpID::XMD(HashID::SHA256),
            k: 128,
            l: 48,
            ro: true,
        }),
        (Suite {
            name: "secp256k1_XMD:SHA-256_SVDW_NU_",
            curve: CurveID::SECP256K1,
            map: MapID::SVDW(1i32),
            exp: ExpID::XMD(HashID::SHA256),
            k: 128,
            l: 48,
            ro: false,
        }),
        (Suite {
            name: "secp256k1_XMD:SHA-256_SVDW_RO_",
            curve: CurveID::SECP256K1,
            map: MapID::SVDW(1i32),
            exp: ExpID::XMD(HashID::SHA256),
            k: 128,
            l: 48,
            ro: true,
        }),
        (Suite {
            name: "BLS12381G1_XMD:SHA-256_SSWU_NU_",
            curve: CurveID::BLS12381G1,
            map: MapID::SSWUAB0(11i32),
            exp: ExpID::XMD(HashID::SHA256),
            k: 128,
            l: 64,
            ro: false,
        }),
        (Suite {
            name: "BLS12381G1_XMD:SHA-256_SSWU_RO_",
            curve: CurveID::BLS12381G1,
            map: MapID::SSWUAB0(11i32),
            exp: ExpID::XMD(HashID::SHA256),
            k: 128,
            l: 64,
            ro: true,
        }),
        (Suite {
            name: "BLS12381G1_XMD:SHA-256_SVDW_NU_",
            curve: CurveID::BLS12381G1,
            map: MapID::SVDW(-3i32),
            exp: ExpID::XMD(HashID::SHA256),
            k: 128,
            l: 64,
            ro: false,
        }),
        (Suite {
            name: "BLS12381G1_XMD:SHA-256_SVDW_RO_",
            curve: CurveID::BLS12381G1,
            map: MapID::SVDW(-3i32),
            exp: ExpID::XMD(HashID::SHA256),
            k: 128,
            l: 64,
            ro: true,
        }),
    ];
    assert(all@ =~= catalogue());
    all
}

/// The short-Weierstrass suite called `name`, if there is one.
pub fn lookup(name: &str) -> (found: Option<Suite>)
    ensures
        found == find_suite(catalogue(), name.spec_bytes()),
{
    let all: Vec<Suite> = suites();
    lookup_in(&all, name)
}

/// Every short-Weierstrass suite is consistent, and takes no more
/// bytes per element than it needs.
pub proof fn lemma_consistent()
    ensures
        forall|i: int| 0 <= i < catalogue().len() ==> tight(#[trigger] catalogue()[i]),
{
    assert(catalogue().len() == 22);
    assert(tight(catalogue()[0]));
    assert(tight(catalogue()[1]));
    assert(tight(catalogue()[2]));
    assert(tight(catalogue()[3]));
    assert(tight(catalogue()[4]));
    assert(tight(catalogue()[5]));
    assert(tight(catalogue()[6]));
    assert(tight(catalogue()[7]));
    assert(tight(catalogue()[8]));
    assert(tight(catalogue()[9]));
    assert(tight(catalogue()[10]));
    assert(tight(catalogue()[11]));
    assert(tight(catalogue()[12]));
    assert(tight(catalogue()[13]));
    assert(tight(catalogue()[14]));
    assert(tight(catalogue()[15]));
    assert(tight(catalogue()[16]));
    assert(tight(catalogue()[17]));
    assert(tight(catalogue()[18]));
    assert(tight(catalogue()[19]));
    assert(tight(catalogue()[20]));
    assert(tight(catalogue()[21]));
}

} // verus!
