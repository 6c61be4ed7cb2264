//! The catalogue of all suites, and what holds of every suite in it.
//!
//! The catalogue is pinned to RFC 9380 (Hashing to Elliptic Curves, August
//! 2023): a suite that it defines has its name and parameters here. The
//! tables of the three families say which suites it does not define.

use vstd::arithmetic::power2::{lemma_pow2_adds, lemma_pow2_strictly_increases, pow2};
use vstd::prelude::*;
use vstd::string::{is_ascii_spec_bytes, StringSliceAdditionalSpecFns};

use crate::bigint::pow256;
use crate::curve::{lemma_field_bits, CurveID};
use crate::encoding::map_to_curve_spec;
use crate::expander::{
    dst_prime_len, is_expander, length_in_range_spec, AnyExpander, Expander, MAX_DST_LENGTH,
};
use crate::registry::{find_suite, lookup_in, Suite};

verus! {

/// All suites: the short-Weierstrass ones, then the Montgomery ones, then
/// the twisted-Edwards ones.
pub open spec fn catalogue() -> Seq<Suite> {
    crate::weier::catalogue() + crate::mont::catalogue() + crate::edw::catalogue()
}

/// All suites.
pub fn suites() -> (all: Vec<Suite>)
    ensures
        all@ == catalogue(),
{
    let mut all: Vec<Suite> = crate::weier::suites();
    let mut montgomery: Vec<Suite> = crate::mont::suites();
    let mut edwards: Vec<Suite> = crate::edw::suites();
    all.append(&mut montgomery);
    all.append(&mut edwards);
    all
}

/// The suite called `name`, if there is one.
pub fn lookup(name: &str) -> (found: Option<Suite>)
    ensures
        found == find_suite(catalogue(), name.spec_bytes()),
{
    let all: Vec<Suite> = suites();
    lookup_in(&all, name)
}

/// The least number of bytes that hold the bits of the characteristic of
/// `curve` and `k` bits more.
pub open spec fn elt_len(curve: CurveID, k: nat) -> nat {
    (curve.field_bits() + k + 7) / 8
}

/// Whether the parameters of a suite fit together: `l` bytes hold the bits
/// of the characteristic and `k` more, the curve has the map, the expander
/// can yield two elements' worth of bytes, and a long tag shrinks to a
/// canonical tag of at most 255 bytes.
pub open spec fn consistent(s: Suite) -> bool {
    &&& s.l >= elt_len(s.curve, s.k as nat)
    &&& map_to_curve_spec(s.curve, s.map) is Some
    &&& length_in_range_spec(s.exp, s.l as nat)
    &&& length_in_range_spec(s.exp, 2 * s.l as nat)
    &&& dst_prime_len(s.exp, s.k as nat, (MAX_DST_LENGTH + 1) as nat) <= 255
}

/// Whether a suite is consistent and takes no more bytes per element than
/// it needs.
pub open spec fn tight(s: Suite) -> bool {
    consistent(s) && s.l == elt_len(s.curve, s.k as nat)
}

/// Every suite of the catalogue is consistent, and takes no more bytes per
/// element than it needs.
pub proof fn lemma_catalogue_consistent()
    ensures
        forall|i: int| 0 <= i < catalogue().len() ==> tight(#[trigger] catalogue()[i]),
{
    crate::weier::lemma_consistent();
    crate::mont::lemma_consistent();
    crate::edw::lemma_consistent();
    let w = crate::weier::catalogue();
    let m = crate::mont::catalogue();
    let e = crate::edw::catalogue();
    assert forall|i: int| 0 <= i < catalogue().len() implies tight(#[trigger] catalogue()[i]) by {
        if i < w.len() {
            assert(catalogue()[i] == w[i]);
        } else if i < w.len() + m.len() {
            assert(catalogue()[i] == m[i - w.len()]);
        } else {
            assert(catalogue()[i] == e[i - w.len() - m.len()]);
        }
    }
}

/// A consistent suite, bound to a tag that is not exactly 255 bytes long,
/// hashes every message: neither the length of the request nor the
/// canonical tag is out of range, in either mode.
pub proof fn lemma_consistent_suite_hashes(s: Suite, dst: Seq<u8>, exp: AnyExpander)
    requires
        consistent(s),
        dst.len() != MAX_DST_LENGTH,
        is_expander(exp, s.exp, s.k as nat, dst),
        exp.dst_prime().len() == dst_prime_len(s.exp, s.k as nat, dst.len()),
    ensures
        exp.length_in_range(s.l as nat),
        exp.length_in_range(2 * s.l as nat),
        exp.dst_prime().len() <= 255,
{
}

/// 256 to the `n` is 2 to the `8 n`.
pub proof fn lemma_pow256_is_pow2(n: nat)
    ensures
        pow256(n) == pow2(8 * n),
    decreases n,
{
    vstd::arithmetic::power2::lemma2_to64();
    if n > 0 {
        lemma_pow256_is_pow2((n - 1) as nat);
        lemma_pow2_adds(8, (8 * (n - 1)) as nat);
    }
}

/// In a consistent suite the strings of `l` bytes are at least `2^k` times
/// as many as the field elements, so that reducing one of them modulo the
/// characteristic favours no element by more than one part in `2^k`.
pub proof fn lemma_reduction_bias(s: Suite)
    requires
        consistent(s),
    ensures
        s.curve.characteristic() * pow2(s.k as nat) <= pow256(s.l as nat),
{
    let bits = s.curve.field_bits();
    let p = s.curve.characteristic();
    let k = s.k as nat;
    lemma_field_bits(s.curve);
    lemma_pow2_adds(bits, k);
    lemma_pow256_is_pow2(s.l as nat);
    if bits + k < 8 * s.l {
        lemma_pow2_strictly_increases(bits + k, (8 * s.l) as nat);
    }
    vstd::arithmetic::power2::lemma_pow2_pos(k);
    assert(p * pow2(k) <= pow2(bits) * pow2(k)) by (nonlinear_arith)
        requires
            p < pow2(bits),
            pow2(k) > 0,
    ;
}

/// Three bytes near the end of a name and its length: enough to tell the
/// names of the catalogue apart.
pub open spec fn name_marks(name: Seq<u8>) -> (nat, u8, u8, u8) {
    (name.len(), name[name.len() - 3], name[name.len() - 6], name[name.len() - 11])
}

/// No two suites of the catalogue have the same name.
pub proof fn lemma_names_distinct()
    ensures
        forall|i: int, j: int|
            0 <= i < j < catalogue().len() ==> catalogue()[i].name.spec_bytes()
                != catalogue()[j].name.spec_bytes(),
{
    let c = catalogue();
    assert(c.len() == 34);
    reveal_strlit("P256_XMD:SHA-256_SSWU_NU_");
    is_ascii_spec_bytes(c[0].name);
    assert(name_marks(c[0].name.spec_bytes()) == (25nat, 78u8, 87u8, 53u8));
    reveal_strlit("P256_XMD:SHA-256_SSWU_RO_");
    is_ascii_spec_bytes(c[1].name);
    assert(name_marks(c[1].name.spec_bytes()) == (25nat, 82u8, 87u8, 53u8));
    reveal_strlit("P256_XMD:SHAKE128_SSWU_NU_");
    is_ascii_spec_bytes(c[2].name);
    assert(name_marks(c[2].name.spec_bytes()) == (26nat, 78u8, 87u8, 50u8));
    reveal_strlit("P256_XMD:SHAKE128_SSWU_RO_");
    is_ascii_spec_bytes(c[3].name);
    assert(name_marks(c[3].name.spec_bytes()) == (26nat, 82u8, 87u8, 50u8));
    reveal_strlit("P256_XMD:SHA-256_SVDW_NU_");
    is_ascii_spec_bytes(c[4].name);
    assert(name_marks(c[4].name.spec_bytes()) == (25nat, 78u8, 68u8, 53u8));
    reveal_strlit("P256_XMD:SHA-256_SVDW_RO_");
    is_ascii_spec_bytes(c[5].name);
    assert(name_marks(c[5].name.spec_bytes()) == (25nat, 82u8, 68u8, 53u8));
    reveal_strlit("P384_XMD:SHA-384_SSWU_NU_");
    is_ascii_spec_bytes(c[6].name);
    assert(name_marks(c[6].name.spec_bytes()) == (25nat, 78u8, 87u8, 56u8));
    reveal_strlit("P384_XMD:SHA-384_SSWU_RO_");
    is_ascii_spec_bytes(c[7].name);
    assert(name_marks(c[7].name.spec_bytes()) == (25nat, 82u8, 87u8, 56u8));
    reveal_strlit("P384_XMD:SHA-384_SVDW_NU_");
    is_ascii_spec_bytes(c[8].name);
    assert(name_marks(c[8].name.spec_bytes()) == (25nat, 78u8, 68u8, 56u8));
    reveal_strlit("P384_XMD:SHA-384_SVDW_RO_");
    is_ascii_spec_bytes(c[9].name);
    assert(name_marks(c[9].name.spec_bytes()) == (25nat, 82u8, 68u8, 56u8));
    reveal_strlit("P521_XMD:SHA-512_SSWU_NU_");
    is_ascii_spec_bytes(c[10].name);
    assert(name_marks(c[10].name.spec_bytes()) == (25nat, 78u8, 87u8, 49u8));
    reveal_strlit("P521_XMD:SHA-512_SSWU_RO_");
    is_ascii_spec_bytes(c[11].name);
    assert(name_marks(c[11].name.spec_bytes()) == (25nat, 82u8, 87u8, 49u8));
    reveal_strlit("P521_XMD:SHA-512_SVDW_NU_");
    is_ascii_spec_bytes(c[12].name);
    assert(name_marks(c[12].name.spec_bytes()) == (25nat, 78u8, 68u8, 49u8));
    reveal_strlit("P521_XMD:SHA-512_SVDW_RO_");
    is_ascii_spec_bytes(c[13].name);
    assert(name_marks(c[13].name.spec_bytes()) == (25nat, 82u8, 68u8, 49u8));
    reveal_strlit("secp256k1_XMD:SHA-256_SSWU_NU_");
    is_ascii_spec_bytes(c[14].name);
    assert(name_marks(c[14].name.spec_bytes()) == (30nat, 78u8, 87u8, 53u8));
    reveal_strlit("secp256k1_XMD:SHA-256_SSWU_RO_");
    is_ascii_spec_bytes(c[15].name);
    assert(name_marks(c[15].name.spec_bytes()) == (30nat, 82u8, 87u8, 53u8));
    reveal_strlit("secp256k1_XMD:SHA-256_SVDW_NU_");
    is_ascii_spec_bytes(c[16].name);
    assert(name_marks(c[16].name.spec_bytes()) == (30nat, 78u8, 68u8, 53u8));
    reveal_strlit("secp256k1_XMD:SHA-256_SVDW_RO_");
    is_ascii_spec_bytes(c[17].name);
    assert(name_marks(c[17].name.spec_bytes()) == (30nat, 82u8, 68u8, 53u8));
    reveal_strlit("BLS12381G1_XMD:SHA-256_SSWU_NU_");
    is_ascii_spec_bytes(c[18].name);
    assert(name_marks(c[18].name.spec_bytes()) == (31nat, 78u8, 87u8, 53u8));
    reveal_strlit("BLS12381G1_XMD:SHA-256_SSWU_RO_");
    is_ascii_spec_bytes(c[19].name);
    assert(name_marks(c[19].name.spec_bytes()) == (31nat, 82u8, 87u8, 53u8));
    reveal_strlit("BLS12381G1_XMD:SHA-256_SVDW_NU_");
    is_ascii_spec_bytes(c[20].name);
    assert(name_marks(c[20].name.spec_bytes()) == (31nat, 78u8, 68u8, 53u8));
    reveal_strlit("BLS12381G1_XMD:SHA-256_SVDW_RO_");
    is_ascii_spec_bytes(c[21].name);
    assert(name_marks(c[21].name.spec_bytes()) == (31nat, 82u8, 68u8, 53u8));
    reveal_strlit("curve25519_XMD:SHA-256_ELL2_NU_");
    is_ascii_spec_bytes(c[22].name);
    assert(name_marks(c[22].name.spec_bytes()) == (31nat, 78u8, 76u8, 53u8));
    reveal_strlit("curve25519_XMD:SHA-256_ELL2_RO_");
    is_ascii_spec_bytes(c[23].name);
    assert(name_marks(c[23].name.spec_bytes()) == (31nat, 82u8, 76u8, 53u8));
    reveal_strlit("curve25519_XMD:SHA-512_ELL2_NU_");
    is_ascii_spec_bytes(c[24].name);
    assert(name_marks(c[24].name.spec_bytes()) == (31nat, 78u8, 76u8, 49u8));
    reveal_strlit("curve25519_XMD:SHA-512_ELL2_RO_");
    is_ascii_spec_bytes(c[25].name);
    assert(name_marks(c[25].name.spec_bytes()) == (31nat, 82u8, 76u8, 49u8));
    reveal_strlit("curve448_XOF:SHAKE256_ELL2_NU_");
    is_ascii_spec_bytes(c[26].name);
    assert(name_marks(c[26].name.spec_bytes()) == (30nat, 78u8, 76u8, 53u8));
    reveal_strlit("curve448_XOF:SHAKE256_ELL2_RO_");
    is_ascii_spec_bytes(c[27].name);
    assert(name_marks(c[27].name.spec_bytes()) == (30nat, 82u8, 76u8, 53u8));
    reveal_strlit("edwards25519_XMD:SHA-256_ELL2_NU_");
    is_ascii_spec_bytes(c[28].name);
    assert(name_marks(c[28].name.spec_bytes()) == (33nat, 78u8, 76u8, 53u8));
    reveal_strlit("edwards25519_XMD:SHA-256_ELL2_RO_");
    is_ascii_spec_bytes(c[29].name);
    assert(name_marks(c[29].name.spec_bytes()) == (33nat, 82u8, 76u8, 53u8));
    reveal_strlit("edwards25519_XMD:SHA-512_ELL2_NU_");
    is_ascii_spec_bytes(c[30].name);
    assert(name_marks(c[30].name.spec_bytes()) == (33nat, 78u8, 76u8, 49u8));
    reveal_strlit("edwards25519_XMD:SHA-512_ELL2_RO_");
    is_ascii_spec_bytes(c[31].name);
    assert(name_marks(c[31].name.spec_bytes()) == (33nat, 82u8, 76u8, 49u8));
    reveal_strlit("edwards448_XOF:SHAKE256_ELL2_NU_");
    is_ascii_spec_bytes(c[32].name);
    assert(name_marks(c[32].name.spec_bytes()) == (32nat, 78u8, 76u8, 53u8));
    reveal_strlit("edwards448_XOF:SHAKE256_ELL2_RO_");
    is_ascii_spec_bytes(c[33].name);
    assert(name_marks(c[33].name.spec_bytes()) == (32nat, 82u8, 76u8, 53u8));
    assert forall|i: int, j: int| 0 <= i < j < c.len() implies c[i].name.spec_bytes()
        != c[j].name.spec_bytes() by {
        assert(name_marks(c[i].name.spec_bytes()) != name_marks(c[j].name.spec_bytes()));
    }
}

/// Whether `ro` is `nu` in random-oracle mode: the two differ in the name
/// and the mode only.
pub open spec fn same_but_mode(nu: Suite, ro: Suite) -> bool {
    &&& !nu.ro
    &&& ro.ro
    &&& nu.curve == ro.curve
    &&& nu.map == ro.map
    &&& nu.exp == ro.exp
    &&& nu.k == ro.k
    &&& nu.l == ro.l
}

/// The catalogue holds each suite twice, in non-uniform mode and right
/// behind it in random-oracle mode.
pub proof fn lemma_modes_paired()
    ensures
        catalogue().len() == 34,
        forall|i: int|
            0 <= i < 17 ==> same_but_mode(#[trigger] catalogue()[2 * i], catalogue()[2 * i + 1]),
{
    let c = catalogue();
    assert(c.len() == 34);
    assert forall|i: int| 0 <= i < 17 implies same_but_mode(#[trigger] c[2 * i], c[2 * i + 1]) by {
        assert(same_but_mode(c[0], c[1]));
        assert(same_but_mode(c[2], c[3]));
        assert(same_but_mode(c[4], c[5]));
        assert(same_but_mode(c[6], c[7]));
        assert(same_but_mode(c[8], c[9]));
        assert(same_but_mode(c[10], c[11]));
        assert(same_but_mode(c[12], c[13]));
        assert(same_but_mode(c[14], c[15]));
        assert(same_but_mode(c[16], c[17]));
        assert(same_but_mode(c[18], c[19]));
        assert(same_but_mode(c[20], c[21]));
        assert(same_but_mode(c[22], c[23]));
        assert(same_but_mode(c[24], c[25]));
        assert(same_but_mode(c[26], c[27]));
        assert(same_but_mode(c[28], c[29]));
        assert(same_but_mode(c[30], c[31]));
        assert(same_but_mode(c[32], c[33]));
    }
}

/// In a list without two equal names, every suite is found under its own
/// name.
pub proof fn lemma_found_by_name(suites: Seq<Suite>, i: int)
    requires
        0 <= i < suites.len(),
        forall|a: int, b: int|
            0 <= a < b < suites.len() ==> suites[a].name.spec_bytes() != suites[b].name.spec_bytes(),
    ensures
        find_suite(suites, suites[i].name.spec_bytes()) == Some(suites[i]),
    decreases i,
{
    if i > 0 {
        let rest = suites.skip(1);
        assert forall|a: int, b: int| 0 <= a < b < rest.len() implies rest[a].name.spec_bytes()
            != rest[b].name.spec_bytes() by {
            assert(rest[a] == suites[a + 1]);
            assert(rest[b] == suites[b + 1]);
        }
        assert(rest[i - 1] == suites[i]);
        lemma_found_by_name(rest, i - 1);
    }
}

/// A suite that is found stands in the list, under the name asked for.
pub proof fn lemma_found_is_member(suites: Seq<Suite>, name: Seq<u8>)
    requires
        find_suite(suites, name) is Some,
    ensures
        exists|i: int|
            0 <= i < suites.len() && #[trigger] suites[i] == find_suite(suites, name)->Some_0
                && suites[i].name.spec_bytes() == name,
    decreases suites.len(),
{
    if suites[0].name.spec_bytes() == name {
        assert(suites[0] == find_suite(suites, name)->Some_0);
    } else {
        let rest = suites.skip(1);
        lemma_found_is_member(rest, name);
        let j = choose|j: int|
            0 <= j < rest.len() && #[trigger] rest[j] == find_suite(rest, name)->Some_0
                && rest[j].name.spec_bytes() == name;
        assert(suites[j + 1] == rest[j]);
    }
}

/// A suite that is found in the catalogue is consistent, takes no more
/// bytes per element than it needs, and has the name asked for.
pub proof fn lemma_found_suite_consistent(name: Seq<u8>)
    requires
        find_suite(catalogue(), name) is Some,
    ensures
        tight(find_suite(catalogue(), name)->Some_0),
        find_suite(catalogue(), name)->Some_0.name.spec_bytes() == name,
{
    lemma_found_is_member(catalogue(), name);
    lemma_catalogue_consistent();
}

/// Every suite of the catalogue is found under its own name.
pub proof fn lemma_catalogue_found_by_name(i: int)
    requires
        0 <= i < catalogue().len(),
    ensures
        find_suite(catalogue(), catalogue()[i].name.spec_bytes()) == Some(catalogue()[i]),
{
    lemma_names_distinct();
    lemma_found_by_name(catalogue(), i);
}

} // verus!
