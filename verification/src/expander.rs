//! Message expansion: a short input becomes a pseudorandom byte string of
//! a requested length, bound to a domain-separation tag.
//!
//! For tags of up to 254 bytes the output is that of `expand_message_xmd`
//! and `expand_message_xof` of RFC 9380. Longer tags are shortened in this
//! crate's own way: a hash takes the 16-byte prefix, an extendable-output
//! function the 17-byte prefix and yields the bytes that hold `2 k + 7`
//! bits. A tag of exactly 255 bytes is turned down.

use vstd::prelude::*;

use crate::api::{Error, ExpID, HashID, XofID};
use crate::primitives::{hash, hash_spec, xof, xof_spec};

verus! {

/// The longest tag that is used as it is; a longer one is hashed first.
pub const MAX_DST_LENGTH: usize = 255;

/// The longest output that can be asked for.
pub const MAX_EXPAND_LENGTH: usize = 65535;

/// What is put before a long tag when a fixed-output hash shortens it:
/// the 16 ASCII bytes `H2C-OVERSIZE-DST`.
pub open spec fn xmd_long_dst_prefix() -> Seq<u8> {
    seq![
        0x48u8, 0x32u8, 0x43u8, 0x2du8, 0x4fu8, 0x56u8, 0x45u8, 0x52u8,
        0x53u8, 0x49u8, 0x5au8, 0x45u8, 0x2du8, 0x44u8, 0x53u8, 0x54u8,
    ]
}

/// What is put before a long tag when an extendable-output function
/// shortens it: the 17 ASCII bytes `H2C-OVERSIZE-DST-`.
pub open spec fn xof_long_dst_prefix() -> Seq<u8> {
    xmd_long_dst_prefix().push(0x2du8)
}

/// The low eight bits of a length.
pub open spec fn len_byte(n: nat) -> u8 {
    (n % 256) as u8
}

/// A length below 65536 as two bytes, most significant first.
pub open spec fn u16_be(n: nat) -> Seq<u8> {
    seq![((n / 256) % 256) as u8, (n % 256) as u8]
}

/// `n` zero bytes.
pub open spec fn zeros(n: nat) -> Seq<u8> {
    Seq::new(n, |i: int| 0u8)
}

/// Bytewise exclusive-or of `x` with the front of `y`.
pub open spec fn xor_spec(x: Seq<u8>, y: Seq<u8>) -> Seq<u8> {
    Seq::new(x.len(), |i: int| x[i] ^ y[i])
}

/// Number of bytes that an extendable-output function yields for a long tag
/// at security level `k`: the least number of bytes that hold `2 k + 7`
/// bits.
pub open spec fn xof_dst_len(k: nat) -> nat {
    (2 * k + 7 + 7) / 8
}

/// The tag as the XMD expander uses it: the tag itself, or the digest of
/// prefix and tag where the tag is long, followed by its length in one byte.
pub open spec fn xmd_dst_prime(h: HashID, dst: Seq<u8>) -> Seq<u8> {
    let t = if dst.len() > MAX_DST_LENGTH {
        hash_spec(h, xmd_long_dst_prefix() + dst)
    } else {
        dst
    };
    t.push(len_byte(t.len()))
}

/// The tag as the XOF expander uses it: the tag itself, or the output of
/// the function on prefix and tag where the tag is long, followed by its
/// length in one byte.
pub open spec fn xof_dst_prime(x: XofID, k: nat, dst: Seq<u8>) -> Seq<u8> {
    let t = if dst.len() > MAX_DST_LENGTH {
        xof_spec(x, xof_long_dst_prefix() + dst, xof_dst_len(k))
    } else {
        dst
    };
    t.push(len_byte(t.len()))
}

/// Length of the canonical XMD tag for a tag of `dst_len` bytes.
pub open spec fn xmd_dst_prime_len(h: HashID, dst_len: nat) -> nat {
    if dst_len > MAX_DST_LENGTH {
        h.spec_output_size() + 1
    } else {
        dst_len + 1
    }
}

/// Length of the canonical XOF tag for a tag of `dst_len` bytes.
pub open spec fn xof_dst_prime_len(k: nat, dst_len: nat) -> nat {
    if dst_len > MAX_DST_LENGTH {
        xof_dst_len(k) + 1
    } else {
        dst_len + 1
    }
}

/// Number of digests needed for `n` bytes, the digest being `b_len` long.
pub open spec fn xmd_ell(n: nat, b_len: nat) -> nat {
    ((n + b_len - 1) / (b_len as int)) as nat
}

/// The block `b_0`, which binds the message, the length and the tag.
pub open spec fn xmd_b0(h: HashID, msg: Seq<u8>, n: nat, dst_prime: Seq<u8>) -> Seq<u8> {
    hash_spec(h, zeros(h.spec_block_size()) + msg + u16_be(n) + seq![0u8] + dst_prime)
}

/// The block `b_i`, for `i` from 1 on.
pub open spec fn xmd_block(h: HashID, b0: Seq<u8>, dst_prime: Seq<u8>, i: nat) -> Seq<u8>
    decreases i,
{
    if i <= 1 {
        hash_spec(h, b0 + seq![1u8] + dst_prime)
    } else {
        hash_spec(
            h,
            xor_spec(xmd_block(h, b0, dst_prime, (i - 1) as nat), b0) + seq![i as u8] + dst_prime,
        )
    }
}

/// The blocks `b_1` to `b_ell`, one after the other.
pub open spec fn xmd_stream(h: HashID, b0: Seq<u8>, dst_prime: Seq<u8>, ell: nat) -> Seq<u8>
    decreases ell,
{
    if ell == 0 {
        Seq::empty()
    } else {
        xmd_stream(h, b0, dst_prime, (ell - 1) as nat) + xmd_block(h, b0, dst_prime, ell)
    }
}

/// The XMD expansion of `msg` to `n` bytes under the tag `dst_prime`.
pub open spec fn expand_message_xmd(h: HashID, msg: Seq<u8>, dst_prime: Seq<u8>, n: nat) -> Seq<
    u8,
> {
    xmd_stream(
        h,
        xmd_b0(h, msg, n, dst_prime),
        dst_prime,
        xmd_ell(n, h.spec_output_size()),
    ).take(n as int)
}

/// The XOF expansion of `msg` to `n` bytes under the tag `dst_prime`.
pub open spec fn expand_message_xof(x: XofID, msg: Seq<u8>, dst_prime: Seq<u8>, n: nat) -> Seq<
    u8,
> {
    xof_spec(x, msg + u16_be(n) + dst_prime, n)
}

/// Whether the XMD expander with hash `h` can yield `n` bytes.
pub open spec fn xmd_length_in_range(h: HashID, n: nat) -> bool {
    n <= MAX_EXPAND_LENGTH && xmd_ell(n, h.spec_output_size()) <= 255
}

/// An expander bound to one domain-separation tag.
pub trait Expander {
    /// The tag in the form in which it enters every expansion.
    spec fn dst_prime(&self) -> Seq<u8>;

    /// Whether `n` bytes can be asked for.
    spec fn length_in_range(&self, n: nat) -> bool;

    /// The `n` bytes that `msg` expands to.
    spec fn expansion(&self, msg: Seq<u8>, n: nat) -> Seq<u8>;

    /// Derives the tag's canonical form from the tag.
    fn construct_dst_prime(&self) -> (dst_prime: Vec<u8>)
        ensures
            dst_prime@ == self.dst_prime(),
    ;

    /// Expands `msg` to `n` bytes. Fails where `n` is out of range or the
    /// canonical tag is longer than 255 bytes.
    fn expand(&self, msg: &[u8], n: usize) -> (out: Result<Vec<u8>, Error>)
        ensures
            match out {
                Ok(bytes) => {
                    &&& self.length_in_range(n as nat)
                    &&& self.dst_prime().len() <= 255
                    &&& bytes@ == self.expansion(msg@, n as nat)
                    &&& bytes@.len() == n
                },
                Err(Error::RequestedTooManyBytes) => !self.length_in_range(n as nat),
                Err(Error::DstPrimeTooLong) => {
                    &&& self.length_in_range(n as nat)
                    &&& self.dst_prime().len() > 255
                },
                Err(_) => false,
            },
    ;
}

/// Appends the bytes of `tail` to `buf`.
fn append(buf: &mut Vec<u8>, tail: &[u8])
    ensures
        final(buf)@ == old(buf)@ + tail@,
{
    let mut i: usize = 0;
    while i < tail.len()
        invariant
            i <= tail@.len(),
            buf@ == old(buf)@ + tail@.take(i as int),
        decreases tail@.len() - i,
    {
        buf.push(tail[i]);
        assert(tail@.take(i + 1) == tail@.take(i as int).push(tail@[i as int]));
        i += 1;
    }
    assert(tail@.take(i as int) == tail@);
}

/// Appends `n` zero bytes to `buf`.
fn append_zeros(buf: &mut Vec<u8>, n: usize)
    ensures
        final(buf)@ == old(buf)@ + zeros(n as nat),
{
    let mut i: usize = 0;
    while i < n
        invariant
            i <= n,
            buf@ == old(buf)@ + zeros(i as nat),
        decreases n - i,
    {
        buf.push(0u8);
        assert(zeros((i + 1) as nat) == zeros(i as nat).push(0u8));
        i += 1;
    }
}

/// Appends `n` as two bytes, most significant first.
fn append_u16_be(buf: &mut Vec<u8>, n: usize)
    requires
        n <= MAX_EXPAND_LENGTH,
    ensures
        final(buf)@ == old(buf)@ + u16_be(n as nat),
{
    buf.push((n / 256) as u8);
    buf.push((n % 256) as u8);
    assert(buf@ == old(buf)@ + u16_be(n as nat));
}

/// Bytewise exclusive-or of `x` with the front of `y`.
pub fn xor(x: &[u8], y: &[u8]) -> (z: Vec<u8>)
    requires
        x@.len() <= y@.len(),
    ensures
        z@ == xor_spec(x@, y@),
{
    let mut z: Vec<u8> = Vec::new();
    let mut i: usize = 0;
    while i < x.len()
        invariant
            i <= x@.len() <= y@.len(),
            z@.len() == i,
            forall|j: int| 0 <= j < i ==> z@[j] == x@[j] ^ y@[j],
        decreases x@.len() - i,
    {
        z.push(x[i] ^ y[i]);
        i += 1;
    }
    assert(z@ == xor_spec(x@, y@));
    z
}

/// The XMD prefix for long tags, as bytes.
fn xmd_prefix() -> (prefix: Vec<u8>)
    ensures
        prefix@ == xmd_long_dst_prefix(),
{
    let prefix: Vec<u8> = vec![
        0x48u8, 0x32u8, 0x43u8, 0x2du8, 0x4fu8, 0x56u8, 0x45u8, 0x52u8,
        0x53u8, 0x49u8, 0x5au8, 0x45u8, 0x2du8, 0x44u8, 0x53u8, 0x54u8,
    ];
    assert(prefix@ == xmd_long_dst_prefix());
    prefix
}

/// Puts the length byte behind a tag, or behind what stands for a long one.
fn close_dst_prime(body: Vec<u8>) -> (dst_prime: Vec<u8>)
    ensures
        dst_prime@ == body@.push(len_byte(body@.len())),
{
    let mut dst_prime: Vec<u8> = body;
    let n: usize = dst_prime.len();
    dst_prime.push((n % 256) as u8);
    dst_prime
}

/// The XMD expander: built on a fixed-output hash.
pub struct ExpanderXmd {
    hasher: HashID,
    dst: Vec<u8>,
    dst_prime: Vec<u8>,
}

/// The XOF expander: built on an extendable-output function.
pub struct ExpanderXof {
    xofer: XofID,
    k: usize,
    dst: Vec<u8>,
    dst_prime: Vec<u8>,
}

/// Derives the XMD form of the tag `dst`.
fn xmd_construct(h: HashID, dst: &[u8]) -> (dst_prime: Vec<u8>)
    ensures
        dst_prime@ == xmd_dst_prime(h, dst@),
        dst@.len() <= MAX_DST_LENGTH ==> dst_prime@ == dst@.push(dst@.len() as u8),
        dst@.len() > MAX_DST_LENGTH ==> dst_prime@ == hash_spec(
            h,
            xmd_long_dst_prefix() + dst@,
        ).push(h.spec_output_size() as u8),
        dst_prime@.len() == xmd_dst_prime_len(h, dst@.len()),
{
    let mut body: Vec<u8> = Vec::new();
    if dst.len() > MAX_DST_LENGTH {
        let mut input: Vec<u8> = xmd_prefix();
        append(&mut input, dst);
        body = hash(h, input.as_slice());
    } else {
        append(&mut body, dst);
    }
    close_dst_prime(body)
}

/// Number of bytes that stand for a long tag at security level `k`.
fn xof_dst_size(k: usize) -> (n: usize)
    ensures
        n == xof_dst_len(k as nat),
        n <= isize::MAX,
{
    let quarter: usize = k / 4;
    if k % 4 == 0 {
        quarter + 1
    } else {
        quarter + 2
    }
}

/// Derives the XOF form of the tag `dst` at security level `k`.
fn xof_construct(x: XofID, k: usize, dst: &[u8]) -> (dst_prime: Vec<u8>)
    ensures
        dst_prime@ == xof_dst_prime(x, k as nat, dst@),
        dst@.len() <= MAX_DST_LENGTH ==> dst_prime@ == dst@.push(dst@.len() as u8),
        dst_prime@.len() == xof_dst_prime_len(k as nat, dst@.len()),
{
    let mut body: Vec<u8> = Vec::new();
    if dst.len() > MAX_DST_LENGTH {
        let mut input: Vec<u8> = xmd_prefix();
        input.push(0x2du8);
        append(&mut input, dst);
        body = xof(x, input.as_slice(), xof_dst_size(k));
    } else {
        append(&mut body, dst);
    }
    close_dst_prime(body)
}

impl ExpanderXmd {
    #[verifier::type_invariant]
    spec fn inv(self) -> bool {
        &&& self.dst_prime@ == xmd_dst_prime(self.hasher, self.dst@)
        &&& self.dst_prime@.len() == xmd_dst_prime_len(self.hasher, self.dst@.len())
    }

    /// The hash function in use.
    pub closed spec fn hash_id(&self) -> HashID {
        self.hasher
    }

    /// The tag that the expander was made for.
    pub closed spec fn dst(&self) -> Seq<u8> {
        self.dst@
    }

    /// An XMD expander over `hasher`, bound to the tag `dst`.
    pub fn new(hasher: HashID, dst: &[u8]) -> (exp: ExpanderXmd)
        ensures
            exp.hash_id() == hasher,
            exp.dst() == dst@,
            exp.dst_prime().len() == xmd_dst_prime_len(hasher, dst@.len()),
    {
        let mut own: Vec<u8> = Vec::new();
        append(&mut own, dst);
        let dst_prime: Vec<u8> = xmd_construct(hasher, dst);
        ExpanderXmd { hasher, dst: own, dst_prime }
    }
}

impl Expander for ExpanderXmd {
    open spec fn dst_prime(&self) -> Seq<u8> {
        xmd_dst_prime(self.hash_id(), self.dst())
    }

    open spec fn length_in_range(&self, n: nat) -> bool {
        xmd_length_in_range(self.hash_id(), n)
    }

    open spec fn expansion(&self, msg: Seq<u8>, n: nat) -> Seq<u8> {
        expand_message_xmd(self.hash_id(), msg, self.dst_prime(), n)
    }

    fn construct_dst_prime(&self) -> (dst_prime: Vec<u8>)
        ensures
            self.dst().len() <= MAX_DST_LENGTH ==> dst_prime@ == self.dst().push(
                self.dst().len() as u8,
            ),
            self.dst().len() > MAX_DST_LENGTH ==> dst_prime@ == hash_spec(
                self.hash_id(),
                xmd_long_dst_prefix() + self.dst(),
            ).push(self.hash_id().spec_output_size() as u8),
            dst_prime@.len() == xmd_dst_prime_len(self.hash_id(), self.dst().len()),
    {
        xmd_construct(self.hasher, self.dst.as_slice())
    }

    fn expand(&self, msg: &[u8], n: usize) -> (out: Result<Vec<u8>, Error>) {
        proof {
            use_type_invariant(self);
        }
        let b_len: usize = self.hasher.output_size();
        if n > MAX_EXPAND_LENGTH {
            return Err(Error::RequestedTooManyBytes);
        }
        let ell: usize = (n + (b_len - 1)) / b_len;
        if ell > 255 {
            return Err(Error::RequestedTooManyBytes);
        }
        if self.dst_prime.len() > 255 {
            return Err(Error::DstPrimeTooLong);
        }
        let mut input: Vec<u8> = Vec::new();
        append_zeros(&mut input, self.hasher.block_size());
        append(&mut input, msg);
        append_u16_be(&mut input, n);
        input.push(0u8);
        append(&mut input, self.dst_prime.as_slice());
        assert(input@ =~= zeros(self.hasher.spec_block_size()) + msg@ + u16_be(n as nat)
            + seq![0u8] + self.dst_prime@);
        let b0: Vec<u8> = hash(self.hasher, input.as_slice());

        let mut pseudo: Vec<u8> = Vec::new();
        let mut bi: Vec<u8> = Vec::new();
        let mut i: usize = 1;
        while i <= ell
            invariant
                1 <= i <= ell + 1,
                ell <= 255,
                b_len == self.hasher.spec_output_size(),
                b0@.len() == b_len,
                pseudo@ == xmd_stream(self.hasher, b0@, self.dst_prime@, (i - 1) as nat),
                pseudo@.len() == (i - 1) * b_len,
                i > 1 ==> bi@ == xmd_block(self.hasher, b0@, self.dst_prime@, (i - 1) as nat),
                i > 1 ==> bi@.len() == b_len,
            decreases ell + 1 - i,
        {
            let mut block_input: Vec<u8> = if i == 1 {
                let mut first: Vec<u8> = Vec::new();
                append(&mut first, b0.as_slice());
                first
            } else {
                xor(bi.as_slice(), b0.as_slice())
            };
            block_input.push(i as u8);
            append(&mut block_input, self.dst_prime.as_slice());
            assert(block_input@ =~= (if i == 1 {
                b0@
            } else {
                xor_spec(bi@, b0@)
            }) + seq![i as u8] + self.dst_prime@);
            bi = hash(self.hasher, block_input.as_slice());
            append(&mut pseudo, bi.as_slice());
            assert(pseudo@.len() == i * b_len) by (nonlinear_arith)
                requires
                    pseudo@.len() == (i - 1) * b_len + b_len,
            ;
            i += 1;
        }
        assert(n <= ell * b_len) by (nonlinear_arith)
            requires
                ell == (n + (b_len - 1)) / (b_len as int),
                b_len > 0,
        ;
        pseudo.truncate(n);
        Ok(pseudo)
    }
}

impl ExpanderXof {
    #[verifier::type_invariant]
    spec fn inv(self) -> bool {
        &&& self.dst_prime@ == xof_dst_prime(self.xofer, self.k as nat, self.dst@)
        &&& self.dst_prime@.len() == xof_dst_prime_len(self.k as nat, self.dst@.len())
    }

    /// The extendable-output function in use.
    pub closed spec fn xof_id(&self) -> XofID {
        self.xofer
    }

    /// The security level in bits.
    pub closed spec fn security_level(&self) -> nat {
        self.k as nat
    }

    /// The tag that the expander was made for.
    pub closed spec fn dst(&self) -> Seq<u8> {
        self.dst@
    }

    /// An XOF expander over `xofer` at security level `k`, bound to the tag
    /// `dst`.
    pub fn new(xofer: XofID, k: usize, dst: &[u8]) -> (exp: ExpanderXof)
        ensures
            exp.xof_id() == xofer,
            exp.security_level() == k,
            exp.dst() == dst@,
            exp.dst_prime().len() == xof_dst_prime_len(k as nat, dst@.len()),
    {
        let mut own: Vec<u8> = Vec::new();
        append(&mut own, dst);
        let dst_prime: Vec<u8> = xof_construct(xofer, k, dst);
        ExpanderXof { xofer, k, dst: own, dst_prime }
    }
}

impl Expander for ExpanderXof {
    open spec fn dst_prime(&self) -> Seq<u8> {
        xof_dst_prime(self.xof_id(), self.security_level(), self.dst())
    }

    open spec fn length_in_range(&self, n: nat) -> bool {
        n <= MAX_EXPAND_LENGTH
    }

    open spec fn expansion(&self, msg: Seq<u8>, n: nat) -> Seq<u8> {
        expand_message_xof(self.xof_id(), msg, self.dst_prime(), n)
    }

    fn construct_dst_prime(&self) -> (dst_prime: Vec<u8>)
        ensures
            self.dst().len() <= MAX_DST_LENGTH ==> dst_prime@ == self.dst().push(
                self.dst().len() as u8,
            ),
            self.dst().len() > MAX_DST_LENGTH ==> dst_prime@ == xof_spec(
                self.xof_id(),
                xof_long_dst_prefix() + self.dst(),
                xof_dst_len(self.security_level()),
            ).push(len_byte(xof_dst_len(self.security_level()))),
            dst_prime@.len() == xof_dst_prime_len(self.security_level(), self.dst().len()),
    {
        xof_construct(self.xofer, self.k, self.dst.as_slice())
    }

    fn expand(&self, msg: &[u8], n: usize) -> (out: Result<Vec<u8>, Error>) {
        proof {
            use_type_invariant(self);
        }
        if n > MAX_EXPAND_LENGTH {
            return Err(Error::RequestedTooManyBytes);
        }
        if self.dst_prime.len() > 255 {
            return Err(Error::DstPrimeTooLong);
        }
        let mut input: Vec<u8> = Vec::new();
        append(&mut input, msg);
        append_u16_be(&mut input, n);
        append(&mut input, self.dst_prime.as_slice());
        Ok(xof(self.xofer, input.as_slice(), n))
    }
}

/// Either expander, as a suite holds it.
pub enum AnyExpander {
    Xmd(ExpanderXmd),
    Xof(ExpanderXof),
}

impl AnyExpander {
    /// The expander family and its primitive.
    pub open spec fn exp_id(&self) -> ExpID {
        match self {
            AnyExpander::Xmd(e) => ExpID::XMD(e.hash_id()),
            AnyExpander::Xof(e) => ExpID::XOF(e.xof_id()),
        }
    }

    /// The tag that the expander was made for.
    pub open spec fn dst(&self) -> Seq<u8> {
        match self {
            AnyExpander::Xmd(e) => e.dst(),
            AnyExpander::Xof(e) => e.dst(),
        }
    }

    /// The security level in bits; zero where the expander has no use for
    /// it.
    pub open spec fn security_level(&self) -> nat {
        match self {
            AnyExpander::Xmd(_) => 0,
            AnyExpander::Xof(e) => e.security_level(),
        }
    }
}

impl Expander for AnyExpander {
    open spec fn dst_prime(&self) -> Seq<u8> {
        match self {
            AnyExpander::Xmd(e) => e.dst_prime(),
            AnyExpander::Xof(e) => e.dst_prime(),
        }
    }

    open spec fn length_in_range(&self, n: nat) -> bool {
        match self {
            AnyExpander::Xmd(e) => e.length_in_range(n),
            AnyExpander::Xof(e) => e.length_in_range(n),
        }
    }

    open spec fn expansion(&self, msg: Seq<u8>, n: nat) -> Seq<u8> {
        match self {
            AnyExpander::Xmd(e) => e.expansion(msg, n),
            AnyExpander::Xof(e) => e.expansion(msg, n),
        }
    }

    fn construct_dst_prime(&self) -> (dst_prime: Vec<u8>)
        ensures
            self.dst().len() <= MAX_DST_LENGTH ==> dst_prime@ == self.dst().push(
                self.dst().len() as u8,
            ),
            dst_prime@ == dst_prime_spec(self.exp_id(), self.security_level(), self.dst()),
            dst_prime@.len() == dst_prime_len(
                self.exp_id(),
                self.security_level(),
                self.dst().len(),
            ),
    {
        match self {
            AnyExpander::Xmd(e) => e.construct_dst_prime(),
            AnyExpander::Xof(e) => e.construct_dst_prime(),
        }
    }

    fn expand(&self, msg: &[u8], n: usize) -> (out: Result<Vec<u8>, Error>) {
        match self {
            AnyExpander::Xmd(e) => e.expand(msg, n),
            AnyExpander::Xof(e) => e.expand(msg, n),
        }
    }
}

/// The canonical tag that the expander `id` derives from `dst` at security
/// level `k`.
pub open spec fn dst_prime_spec(id: ExpID, k: nat, dst: Seq<u8>) -> Seq<u8> {
    match id {
        ExpID::XMD(h) => xmd_dst_prime(h, dst),
        ExpID::XOF(x) => xof_dst_prime(x, k, dst),
    }
}

/// Length of the canonical tag for a tag of `dst_len` bytes.
pub open spec fn dst_prime_len(id: ExpID, k: nat, dst_len: nat) -> nat {
    match id {
        ExpID::XMD(h) => xmd_dst_prime_len(h, dst_len),
        ExpID::XOF(_) => xof_dst_prime_len(k, dst_len),
    }
}

/// Whether the expander `id` can yield `n` bytes.
pub open spec fn length_in_range_spec(id: ExpID, n: nat) -> bool {
    match id {
        ExpID::XMD(h) => xmd_length_in_range(h, n),
        ExpID::XOF(_) => n <= MAX_EXPAND_LENGTH,
    }
}

/// The `n` bytes that the expander `id` yields for `msg` under the
/// canonical tag `dst_prime`.
pub open spec fn expand_spec(id: ExpID, msg: Seq<u8>, dst_prime: Seq<u8>, n: nat) -> Seq<u8> {
    match id {
        ExpID::XMD(h) => expand_message_xmd(h, msg, dst_prime, n),
        ExpID::XOF(x) => expand_message_xof(x, msg, dst_prime, n),
    }
}

/// Whether `exp` is the expander `id` bound to the tag `dst` at security
/// level `k`.
pub open spec fn is_expander(exp: AnyExpander, id: ExpID, k: nat, dst: Seq<u8>) -> bool {
    match (id, exp) {
        (ExpID::XMD(h), AnyExpander::Xmd(e)) => e.hash_id() == h && e.dst() == dst,
        (ExpID::XOF(x), AnyExpander::Xof(e)) => {
            &&& e.xof_id() == x
            &&& e.security_level() == k
            &&& e.dst() == dst
        },
        _ => false,
    }
}

/// What an expander does follows from what it was made of.
pub proof fn lemma_expander(exp: AnyExpander, id: ExpID, k: nat, dst: Seq<u8>)
    requires
        is_expander(exp, id, k, dst),
    ensures
        exp.dst_prime() == dst_prime_spec(id, k, dst),
        forall|n: nat| exp.length_in_range(n) == length_in_range_spec(id, n),
        forall|msg: Seq<u8>, n: nat| #[trigger]
            exp.expansion(msg, n) == expand_spec(id, msg, dst_prime_spec(id, k, dst), n),
{
}

/// The expander `id` bound to the tag `dst`; `k` is the security level in
/// bits, which only an extendable-output function makes use of.
pub fn get_expander(id: ExpID, dst: &[u8], k: usize) -> (exp: AnyExpander)
    ensures
        is_expander(exp, id, k as nat, dst@),
        exp.dst_prime() == dst_prime_spec(id, k as nat, dst@),
        exp.dst_prime().len() == dst_prime_len(id, k as nat, dst@.len()),
{
    match id {
        ExpID::XMD(h) => AnyExpander::Xmd(ExpanderXmd::new(h, dst)),
        ExpID::XOF(x) => AnyExpander::Xof(ExpanderXof::new(x, k, dst)),
    }
}

} // verus!
