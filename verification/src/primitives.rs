//! The hash primitives, taken from the `sha2` and `sha3` crates.
//!
//! Nothing here is proved: each function's contract gives the primitive's
//! output a name and records its length.

use sha2::{Digest, Sha256, Sha384, Sha512};
use sha3::digest::ExtendableOutput;
use sha3::{Shake128, Shake256};
use vstd::prelude::*;

use crate::api::{HashID, XofID};

verus! {

/// The SHA-256 digest of `data`.
pub uninterp spec fn sha256_digest(data: Seq<u8>) -> Seq<u8>;

/// The SHA-384 digest of `data`.
pub uninterp spec fn sha384_digest(data: Seq<u8>) -> Seq<u8>;

/// The SHA-512 digest of `data`.
pub uninterp spec fn sha512_digest(data: Seq<u8>) -> Seq<u8>;

/// The first `n` bytes that SHAKE128 yields after absorbing `data`.
pub uninterp spec fn shake128_output(data: Seq<u8>, n: nat) -> Seq<u8>;

/// The first `n` bytes that SHAKE256 yields after absorbing `data`.
pub uninterp spec fn shake256_output(data: Seq<u8>, n: nat) -> Seq<u8>;

/// Calls `sha2::Sha256::digest`. Trusted: the result is the SHA-256 digest
/// of `data`, 32 bytes long.
#[verifier::external_body]
pub(crate) fn sha256(data: &[u8]) -> (out: Vec<u8>)
    ensures
        out@ == sha256_digest(data@),
        out@.len() == 32,
{
    Sha256::digest(data).to_vec()
}

/// Calls `sha2::Sha384::digest`. Trusted: the result is the SHA-384 digest
/// of `data`, 48 bytes long.
#[verifier::external_body]
pub(crate) fn sha384(data: &[u8]) -> (out: Vec<u8>)
    ensures
        out@ == sha384_digest(data@),
        out@.len() == 48,
{
    Sha384::digest(data).to_vec()
}

/// Calls `sha2::Sha512::digest`. Trusted: the result is the SHA-512 digest
/// of `data`, 64 bytes long.
#[verifier::external_body]
pub(crate) fn sha512(data: &[u8]) -> (out: Vec<u8>)
    ensures
        out@ == sha512_digest(data@),
        out@.len() == 64,
{
    Sha512::digest(data).to_vec()
}

/// Calls `sha3::Shake128::digest_xof` on a buffer of `n` bytes. Trusted:
/// the result is the first `n` bytes that SHAKE128 yields for `data`. The
/// buffer cannot be made for more than `isize::MAX` bytes.
#[verifier::external_body]
pub(crate) fn shake128(data: &[u8], n: usize) -> (out: Vec<u8>)
    requires
        n <= isize::MAX,
    ensures
        out@ == shake128_output(data@, n as nat),
        out@.len() == n,
{
    let mut out: Vec<u8> = vec![0u8; n];
    Shake128::digest_xof(data, &mut out);
    out
}

/// Calls `sha3::Shake256::digest_xof` on a buffer of `n` bytes. Trusted:
/// the result is the first `n` bytes that SHAKE256 yields for `data`. The
/// buffer cannot be made for more than `isize::MAX` bytes.
#[verifier::external_body]
pub(crate) fn shake256(data: &[u8], n: usize) -> (out: Vec<u8>)
    requires
        n <= isize::MAX,
    ensures
        out@ == shake256_output(data@, n as nat),
        out@.len() == n,
{
    let mut out: Vec<u8> = vec![0u8; n];
    Shake256::digest_xof(data, &mut out);
    out
}

/// The digest of `data` under the hash function `h`.
pub open spec fn hash_spec(h: HashID, data: Seq<u8>) -> Seq<u8> {
    match h {
        HashID::SHA256 => sha256_digest(data),
        HashID::SHA384 => sha384_digest(data),
        HashID::SHA512 => sha512_digest(data),
    }
}

/// The first `n` output bytes of the extendable-output function `x` on `data`.
pub open spec fn xof_spec(x: XofID, data: Seq<u8>, n: nat) -> Seq<u8> {
    match x {
        XofID::SHAKE128 => shake128_output(data, n),
        XofID::SHAKE256 => shake256_output(data, n),
    }
}

/// Hashes `data` with `h`.
pub fn hash(h: HashID, data: &[u8]) -> (out: Vec<u8>)
    ensures
        out@ == hash_spec(h, data@),
        out@.len() == h.spec_output_size(),
{
    match h {
        HashID::SHA256 => sha256(data),
        HashID::SHA384 => sha384(data),
        HashID::SHA512 => sha512(data),
    }
}

/// Absorbs `data` into `x` and squeezes `n` bytes.
pub fn xof(x: XofID, data: &[u8], n: usize) -> (out: Vec<u8>)
    requires
        n <= isize::MAX,
    ensures
        out@ == xof_spec(x, data@, n as nat),
        out@.len() == n,
{
    match x {
        XofID::SHAKE128 => shake128(data, n),
        XofID::SHAKE256 => shake256(data, n),
    }
}

} // verus!
