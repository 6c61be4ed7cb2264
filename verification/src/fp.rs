//! Hashing to elements of a prime field.

use vstd::prelude::*;
use vstd::slice::slice_subrange;

use crate::api::Error;
use crate::bigint::{be_nat, reduce};
use crate::expander::{AnyExpander, Expander};

verus! {

/// An element of a prime field: its least non-negative representative,
/// written most significant byte first in as many bytes as the
/// characteristic has.
#[derive(Clone, Debug, PartialEq, Eq)]
pub struct FieldElt {
    pub bytes: Vec<u8>,
}

impl View for FieldElt {
    type V = nat;

    open spec fn view(&self) -> nat {
        be_nat(self.bytes@)
    }
}

/// The field element that the `i`-th slice of `l` bytes of `pseudo` gives
/// in the field of characteristic `p`.
pub open spec fn field_element(pseudo: Seq<u8>, l: nat, p: nat, i: nat) -> nat {
    be_nat(pseudo.subrange((i * l) as int, ((i + 1) * l) as int)) % p
}

/// Hashes messages to elements of one prime field, `l` pseudorandom bytes
/// going into each element.
pub struct FpHasher {
    modulus: Vec<u8>,
    l: usize,
    exp: AnyExpander,
}

impl FpHasher {
    #[verifier::type_invariant]
    spec fn inv(self) -> bool {
        be_nat(self.modulus@) > 0
    }

    /// The characteristic of the field.
    pub closed spec fn characteristic(&self) -> nat {
        be_nat(self.modulus@)
    }

    /// Number of bytes in which an element is written.
    pub closed spec fn field_len(&self) -> nat {
        self.modulus@.len()
    }

    /// Number of pseudorandom bytes that go into one element.
    pub closed spec fn elt_len(&self) -> nat {
        self.l as nat
    }

    /// The expander that yields the pseudorandom bytes.
    pub closed spec fn expander(&self) -> AnyExpander {
        self.exp
    }

    /// A hasher to the field whose characteristic `modulus` spells, most
    /// significant byte first.
    pub fn new(modulus: Vec<u8>, l: usize, exp: AnyExpander) -> (h: FpHasher)
        requires
            be_nat(modulus@) > 0,
        ensures
            h.characteristic() == be_nat(modulus@),
            h.field_len() == modulus@.len(),
            h.elt_len() == l,
            h.expander() == exp,
    {
        FpHasher { modulus, l, exp }
    }

    /// Hashes `msg` to `count` field elements. The expander yields
    /// `count * l` bytes; the `i`-th slice of `l` bytes, read as a number,
    /// is reduced to the `i`-th element. Fails where the expander does.
    pub fn hash(&self, msg: &[u8], count: usize) -> (out: Result<Vec<FieldElt>, Error>)
        ensures
            match out {
                Ok(u) => {
                    &&& self.expander().length_in_range(count as nat * self.elt_len())
                    &&& self.expander().dst_prime().len() <= 255
                    &&& u@.len() == count
                    &&& forall|i: int|
                        0 <= i < count ==> {
                            &&& (#[trigger] u@[i])@ == field_element(
                                self.expander().expansion(msg@, count as nat * self.elt_len()),
                                self.elt_len(),
                                self.characteristic(),
                                i as nat,
                            )
                            &&& u@[i]@ < self.characteristic()
                            &&& u@[i].bytes@.len() == self.field_len()
                        }
                },
                Err(Error::RequestedTooManyBytes) => !self.expander().length_in_range(
                    count as nat * self.elt_len(),
                ),
                Err(Error::DstPrimeTooLong) => {
                    &&& self.expander().length_in_range(count as nat * self.elt_len())
                    &&& self.expander().dst_prime().len() > 255
                },
                Err(_) => false,
            },
    {
        proof {
            use_type_invariant(self);
        }
        let length: usize = match count.checked_mul(self.l) {
            Some(n) => n,
            None => {
                proof {
                    lemma_long_request(&self.exp, count as nat * self.l as nat);
                }
                return Err(Error::RequestedTooManyBytes);
            },
        };
        let pseudo: Vec<u8> = match self.exp.expand(msg, length) {
            Ok(bytes) => bytes,
            Err(e) => {
                return Err(e);
            },
        };
        let mut u: Vec<FieldElt> = Vec::new();
        let mut i: usize = 0;
        while i < count
            invariant
                i <= count,
                length == count * self.l,
                pseudo@.len() == length,
                be_nat(self.modulus@) > 0,
                u@.len() == i,
                forall|j: int|
                    0 <= j < i ==> {
                        &&& (#[trigger] u@[j])@ == field_element(
                            pseudo@,
                            self.l as nat,
                            be_nat(self.modulus@),
                            j as nat,
                        )
                        &&& u@[j]@ < be_nat(self.modulus@)
                        &&& u@[j].bytes@.len() == self.modulus@.len()
                    },
            decreases count - i,
        {
            proof {
                assert((i + 1) * self.l <= count * self.l) by (nonlinear_arith)
                    requires
                        i + 1 <= count,
                ;
                assert((i + 1) * self.l == i * self.l + self.l) by (nonlinear_arith);
                assert(0 <= i * self.l) by (nonlinear_arith);
            }
            let offset: usize = i * self.l;
            let t: &[u8] = slice_subrange(pseudo.as_slice(), offset, offset + self.l);
            let bytes: Vec<u8> = reduce(t, self.modulus.as_slice());
            proof {
                vstd::arithmetic::div_mod::lemma_mod_bound(
                    be_nat(t@) as int,
                    be_nat(self.modulus@) as int,
                );
            }
            u.push(FieldElt { bytes });
            i += 1;
        }
        Ok(u)
    }
}

/// No expander yields more bytes than a machine word counts.
proof fn lemma_long_request(exp: &AnyExpander, n: nat)
    requires
        n > usize::MAX,
    ensures
        !exp.length_in_range(n),
{
}

} // verus!
