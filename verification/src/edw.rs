//! The suites over twisted-Edwards curves.
//!
//! Names and parameters are pinned to RFC 9380 (Hashing to Elliptic Curves,
//! August 2023): where it defines a suite, the curve, the expander, the
//! map and its constant `Z`, `k` and `l` are the ones it gives. The two
//! edwards25519 suites over SHA-256 are not in it; they take `k` and `l` from
//! the suites of their curve that are.

use vstd::prelude::*;
use vstd::string::StringSliceAdditionalSpecFns;

use crate::api::{ExpID, HashID, MapID, XofID};
use crate::catalogue::tight;
use crate::curve::CurveID;
use crate::registry::{find_suite, lookup_in, Suite};

verus! {

/// The twisted-Edwards suites: each in its non-uniform mode, then in
/// its random-oracle mode.
pub open spec fn catalogue() -> Seq<Suite> {
    seq![
        (Suite {
            name: "edwards25519_XMD:SHA-256_ELL2_NU_",
            curve: CurveID::EDWARDS25519,
            map: MapID::ELL2(2i32),
            exp: ExpID::XMD(HashID::SHA256),
            k: 128,
            l: 48,
            ro: false,
        }),
        (Suite {
            name: "edwards25519_XMD:SHA-256_ELL2_RO_",
            curve: CurveID::EDWARDS25519,
            map: MapID::ELL2(2i32),
            exp: ExpID::XMD(HashID::SHA256),
            k: 128,
            l: 48,
            ro: true,
        }),
        (Suite {
            name: "edwards25519_XMD:SHA-512_ELL2_NU_",
            curve: CurveID::EDWARDS25519,
            map: MapID::ELL2(2i32),
            exp: ExpID::XMD(HashID::SHA512),
            k: 128,
            l: 48,
            ro: false,
        }),
        (Suite {
            name: "edwards25519_XMD:SHA-512_ELL2_RO_",
            curve: CurveID::EDWARDS25519,
            map: MapID::ELL2(2i32),
            exp: ExpID::XMD(HashID::SHA512),
            k: 128,
            l: 48,
            ro: true,
        }),
        (Suite {
            name: "edwards448_XOF:SHAKE256_ELL2_NU_",
            curve: CurveID::EDWARDS448,
            map: MapID::ELL2(-1i32),
            exp: ExpID::XOF(XofID::SHAKE256),
            k: 224,
            l: 84,
            ro: false,
        }),
        (Suite {
            name: "edwards448_XOF:SHAKE256_ELL2_RO_",
            curve: CurveID::EDWARDS448,
            map: MapID::ELL2(-1i32),
            exp: ExpID::XOF(XofID::SHAKE256),
            k: 224,
            l: 84,
            ro: true,
        }),
    ]
}

/// The twisted-Edwards suites.
pub fn suites() -> (all: Vec<Suite>)
    ensures
        all@ == catalogue(),
{
    let all: Vec<Suite> = vec![
        (Suite {
            name: "edwards25519_XMD:SHA-256_ELL2_NU_",
            curve: CurveID::EDWARDS25519,
            map: MapID::ELL2(2i32),
            exp: ExpID::XMD(HashID::SHA256),
            k: 128,
            l: 48,
            ro: false,
        }),
        (Suite {
            name: "edwards25519_XMD:SHA-256_ELL2_RO_",
            curve: CurveID::EDWARDS25519,
            map: MapID::ELL2(2i32),
            exp: ExpID::XMD(HashID::SHA256),
            k: 128,
            l: 48,
            ro: true,
        }),
        (Suite {
            name: "edwards25519_XMD:SHA-512_ELL2_NU_",
            curve: CurveID::EDWARDS25519,
            map: MapID::ELL2(2i32),
            exp: ExpID::XMD(HashID::SHA512),
            k: 128,
            l: 48,
            ro: false,
        }),
        (Suite {
            name: "edwards25519_XMD:SHA-512_ELL2_RO_",
            curve: CurveID::EDWARDS25519,
            map: MapID::ELL2(2i32),
            exp: ExpID::XMD(HashID::SHA512),
            k: 128,
            l: 48,
            ro: true,
        }),
        (Suite {
            name: "edwards448_XOF:SHAKE256_ELL2_NU_",
            curve: CurveID::EDWARDS448,
            map: MapID::ELL2(-1i32),
            exp: ExpID::XOF(XofID::SHAKE256),
            k: 224,
            l: 84,
            ro: false,
        }),
        (Suite {
            name: "edwards448_XOF:SHAKE256_ELL2_RO_",
            curve: CurveID::EDWARDS448,
            map: MapID::ELL2(-1i32),
            exp: ExpID::XOF(XofID::SHAKE256),
            k: 224,
            l: 84,
            ro: true,
        }),
    ];
    assert(all@ =~= catalogue());
    all
}

/// The twisted-Edwards suite called `name`, if there is one.
pub fn lookup(name: &str) -> (found: Option<Suite>)
    ensures
        found == find_suite(catalogue(), name.spec_bytes()),
{
    let all: Vec<Suite> = suites();
    lookup_in(&all, name)
}

/// Every twisted-Edwards suite is consistent, and takes no more
/// bytes per element than it needs.
pub proof fn lemma_consistent()
    ensures
        forall|i: int| 0 <= i < catalogue().len() ==> tight(#[trigger] catalogue()[i]),
{
    assert(catalogue().len() == 6);
    assert(tight(catalogue()[0]));
    assert(tight(catalogue()[1]));
    assert(tight(catalogue()[2]));
    assert(tight(catalogue()[3]));
    assert(tight(catalogue()[4]));
    assert(tight(catalogue()[5]));
}

} // verus!
