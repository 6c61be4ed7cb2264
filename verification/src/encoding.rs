//! From a suite and a tag to an encoding, and from a message to the steps
//! that yield its point.
//!
//! The curve arithmetic is not part of this crate. An encoding therefore
//! hashes a message to field elements and then asks, one request at a
//! time, for the points it needs; the caller computes each and hands it
//! back.

use vstd::prelude::*;

use crate::api::{Error, MapID};
use crate::bigint::lemma_be_nat_injective;
use crate::curve::{lemma_characteristic_positive, CurveFamily, CurveID};
use crate::expander::{dst_prime_len, get_expander, is_expander, AnyExpander, Expander};
use crate::fp::{field_element, FieldElt, FpHasher};
use crate::registry::Suite;

verus! {

/// The longest tag that a suite can be bound to.
pub const MAX_SUITE_DST_LENGTH: usize = 65535;

/// An isogeny to a curve whose equation has a zero coefficient.
#[derive(Clone, Copy, Debug, PartialEq, Eq, Structural)]
pub enum IsogenyID {
    SECP256K1,
    BLS12381G1,
}

/// A rational map from a Montgomery curve to its twisted-Edwards form.
#[derive(Clone, Copy, Debug, PartialEq, Eq, Structural)]
pub enum RationalMapID {
    Edwards25519,
    Edwards448,
}

/// A map to a curve, with all that has to be known to set it up.
#[derive(Clone, Copy, Debug, PartialEq, Eq, Structural)]
pub enum MapToCurve {
    /// Simplified SWU with constant `z`.
    SSWU { z: i32 },
    /// Simplified SWU on an isogenous curve, followed by the isogeny.
    SSWUAB0 { z: i32, isogeny: IsogenyID },
    /// Shallue-van de Woestijne with constant `z`.
    SVDW { z: i32 },
    /// Elligator 2 on a Montgomery curve.
    ELL2 { z: i32 },
    /// Elligator 2 on the Montgomery form, followed by the rational map.
    ELL2Edwards { z: i32, ratmap: RationalMapID },
}

/// The map that a suite on `curve` with the map identifier `map` uses, if
/// the curve has that map.
pub open spec fn map_to_curve_spec(curve: CurveID, map: MapID) -> Option<MapToCurve> {
    match curve.spec_family() {
        CurveFamily::Weierstrass => match map {
            MapID::SSWU(z) => Some(MapToCurve::SSWU { z }),
            MapID::SSWUAB0(z) => match curve {
                CurveID::SECP256K1 => Some(
                    MapToCurve::SSWUAB0 { z, isogeny: IsogenyID::SECP256K1 },
                ),
                CurveID::BLS12381G1 => Some(
                    MapToCurve::SSWUAB0 { z, isogeny: IsogenyID::BLS12381G1 },
                ),
                _ => None,
            },
            MapID::SVDW(z) => Some(MapToCurve::SVDW { z }),
            MapID::ELL2(_) => None,
        },
        CurveFamily::Montgomery => match map {
            MapID::ELL2(z) => Some(MapToCurve::ELL2 { z }),
            _ => None,
        },
        CurveFamily::Edwards => match map {
            MapID::ELL2(z) => match curve {
                CurveID::EDWARDS25519 => Some(
                    MapToCurve::ELL2Edwards {
                        z,
                        ratmap: RationalMapID::Edwards25519,
                    },
                ),
                CurveID::EDWARDS448 => Some(
                    MapToCurve::ELL2Edwards { z, ratmap: RationalMapID::Edwards448 },
                ),
                _ => None,
            },
            _ => None,
        },
    }
}

/// Picks the map of a suite on `curve` with the map identifier `map`.
pub fn select_map(curve: CurveID, map: MapID) -> (out: Result<MapToCurve, Error>)
    ensures
        match out {
            Ok(m) => map_to_curve_spec(curve, map) == Some(m),
            Err(Error::UnimplementedMap) => map_to_curve_spec(curve, map) is None,
            Err(_) => false,
        },
{
    match curve.family() {
        CurveFamily::Weierstrass => match map {
            MapID::SSWU(z) => Ok(MapToCurve::SSWU { z }),
            MapID::SSWUAB0(z) => match curve {
                CurveID::SECP256K1 => Ok(MapToCurve::SSWUAB0 { z, isogeny: IsogenyID::SECP256K1 }),
                CurveID::BLS12381G1 => Ok(
                    MapToCurve::SSWUAB0 { z, isogeny: IsogenyID::BLS12381G1 },
                ),
                _ => Err(Error::UnimplementedMap),
            },
            MapID::SVDW(z) => Ok(MapToCurve::SVDW { z }),
            MapID::ELL2(_) => Err(Error::UnimplementedMap),
        },
        CurveFamily::Montgomery => match map {
            MapID::ELL2(z) => Ok(MapToCurve::ELL2 { z }),
            _ => Err(Error::UnimplementedMap),
        },
        CurveFamily::Edwards => match map {
            MapID::ELL2(z) => match curve {
                CurveID::EDWARDS25519 => Ok(
                    MapToCurve::ELL2Edwards {
                        z,
                        ratmap: RationalMapID::Edwards25519,
                    },
                ),
                CurveID::EDWARDS448 => Ok(
                    MapToCurve::ELL2Edwards { z, ratmap: RationalMapID::Edwards448 },
                ),
                _ => Err(Error::UnimplementedMap),
            },
            _ => Err(Error::UnimplementedMap),
        },
    }
}

/// What the caller is asked to compute next on the curve. `P` is the
/// caller's type of points.
pub enum Request<P> {
    /// Map the field element to the curve.
    MapElement(FieldElt),
    /// Add the two points, the first mapped point on the left.
    AddPoints(P, P),
    /// Multiply the point by the cofactor of the curve.
    ClearCofactor(P),
    /// Nothing more: this is the point that the message hashes to.
    Done(P),
}

/// How far the hashing of one message has come.
pub enum Pipeline<P> {
    /// The first element is being mapped; `second` waits in random-oracle
    /// mode.
    First { second: Option<FieldElt> },
    /// The second element is being mapped; `first` is the point of the
    /// first.
    Second { first: P },
    /// The two points are being added.
    Sum,
    /// The cofactor is being cleared.
    Cofactor,
    /// The point has been handed out.
    Finished,
}

impl<P> Pipeline<P> {
    /// The state and the request that follow when the caller answers the
    /// request of this state with `reply`.
    pub open spec fn spec_advance(self, reply: P) -> (Pipeline<P>, Request<P>) {
        match self {
            Pipeline::First { second: Some(u1) } => (
                Pipeline::Second { first: reply },
                Request::MapElement(u1),
            ),
            Pipeline::First { second: None } => (Pipeline::Cofactor, Request::ClearCofactor(reply)),
            Pipeline::Second { first } => (Pipeline::Sum, Request::AddPoints(first, reply)),
            Pipeline::Sum => (Pipeline::Cofactor, Request::ClearCofactor(reply)),
            Pipeline::Cofactor => (Pipeline::Finished, Request::Done(reply)),
            Pipeline::Finished => (Pipeline::Finished, Request::Done(reply)),
        }
    }

    /// Takes the caller's answer to the last request and says what comes
    /// next. Once the point has been handed out, an answer is handed back
    /// as it came.
    pub fn advance(self, reply: P) -> (next: (Pipeline<P>, Request<P>))
        ensures
            next == self.spec_advance(reply),
    {
        match self {
            Pipeline::First { second: Some(u1) } => (
                Pipeline::Second { first: reply },
                Request::MapElement(u1),
            ),
            Pipeline::First { second: None } => (Pipeline::Cofactor, Request::ClearCofactor(reply)),
            Pipeline::Second { first } => (Pipeline::Sum, Request::AddPoints(first, reply)),
            Pipeline::Sum => (Pipeline::Cofactor, Request::ClearCofactor(reply)),
            Pipeline::Cofactor => (Pipeline::Finished, Request::Done(reply)),
            Pipeline::Finished => (Pipeline::Finished, Request::Done(reply)),
        }
    }
}

/// The point that the pipeline hands out when every request is answered
/// with `to_curve`, `sum` and `clear`, if it does so within `fuel` answers.
pub open spec fn outcome<P>(
    state: Pipeline<P>,
    request: Request<P>,
    to_curve: spec_fn(FieldElt) -> P,
    sum: spec_fn(P, P) -> P,
    clear: spec_fn(P) -> P,
    fuel: nat,
) -> Option<P>
    decreases fuel,
{
    match request {
        Request::Done(p) => Some(p),
        _ => if fuel == 0 {
            None
        } else {
            let reply = match request {
                Request::MapElement(u) => to_curve(u),
                Request::AddPoints(p, q) => sum(p, q),
                Request::ClearCofactor(p) => clear(p),
                Request::Done(p) => p,
            };
            let next = state.spec_advance(reply);
            outcome(next.0, next.1, to_curve, sum, clear, (fuel - 1) as nat)
        },
    }
}

/// In random-oracle mode the two elements are mapped, the points added in
/// that order, and the cofactor cleared last.
pub proof fn lemma_random_oracle_outcome<P>(
    u0: FieldElt,
    u1: FieldElt,
    to_curve: spec_fn(FieldElt) -> P,
    sum: spec_fn(P, P) -> P,
    clear: spec_fn(P) -> P,
)
    ensures
        outcome(Pipeline::First { second: Some(u1) }, Request::MapElement(u0), to_curve, sum, clear, 4)
            == Some(clear(sum(to_curve(u0), to_curve(u1)))),
{
    reveal_with_fuel(outcome, 5);
}

/// In non-uniform mode the one element is mapped and the cofactor cleared.
pub proof fn lemma_non_uniform_outcome<P>(
    u0: FieldElt,
    to_curve: spec_fn(FieldElt) -> P,
    sum: spec_fn(P, P) -> P,
    clear: spec_fn(P) -> P,
)
    ensures
        outcome(Pipeline::First { second: None }, Request::MapElement(u0), to_curve, sum, clear, 2) == Some(
            clear(to_curve(u0)),
        ),
{
    reveal_with_fuel(outcome, 3);
}

/// A suite bound to a domain-separation tag.
pub struct Encoding {
    curve: CurveID,
    map_to_curve: MapToCurve,
    hash_to_field: FpHasher,
    ro: bool,
}

impl Encoding {
    #[verifier::type_invariant]
    spec fn inv(self) -> bool {
        &&& self.hash_to_field.characteristic() == self.curve.characteristic()
        &&& self.hash_to_field.field_len() == self.curve.field_len()
    }

    /// The curve that messages are hashed to.
    pub closed spec fn curve(&self) -> CurveID {
        self.curve
    }

    /// The map that the caller has to apply to field elements.
    pub closed spec fn map(&self) -> MapToCurve {
        self.map_to_curve
    }

    /// The hasher to the field of the curve.
    pub closed spec fn hasher(&self) -> FpHasher {
        self.hash_to_field
    }

    /// Whether the encoding works in random-oracle mode.
    pub closed spec fn random_oracle(&self) -> bool {
        self.ro
    }

    /// Number of field elements that one message is hashed to.
    pub open spec fn count(&self) -> nat {
        if self.random_oracle() {
            2
        } else {
            1
        }
    }

    /// The `i`-th field element that `msg` is hashed to.
    pub open spec fn element(&self, msg: Seq<u8>, i: nat) -> nat {
        field_element(
            self.hasher().expander().expansion(msg, self.count() * self.hasher().elt_len()),
            self.hasher().elt_len(),
            self.hasher().characteristic(),
            i,
        )
    }

    /// Whether `u` is the `i`-th field element that `msg` is hashed to.
    pub open spec fn is_element(&self, u: FieldElt, msg: Seq<u8>, i: nat) -> bool {
        &&& u@ == self.element(msg, i)
        &&& u@ < self.hasher().characteristic()
        &&& u.bytes@.len() == self.hasher().field_len()
    }

    /// The curve that messages are hashed to.
    pub fn get_curve(&self) -> (curve: CurveID)
        ensures
            curve == self.curve(),
            self.hasher().characteristic() == curve.characteristic(),
            self.hasher().field_len() == curve.field_len(),
    {
        proof {
            use_type_invariant(self);
        }
        self.curve
    }

    /// The map that the caller has to apply to field elements.
    pub fn get_map(&self) -> (map: MapToCurve)
        ensures
            map == self.map(),
    {
        self.map_to_curve
    }

    /// Whether the encoding works in random-oracle mode.
    pub fn is_random_oracle(&self) -> (ro: bool)
        ensures
            ro == self.random_oracle(),
    {
        self.ro
    }

    /// Starts hashing `msg`: hashes it to two field elements in
    /// random-oracle mode and to one otherwise, and asks for the first to
    /// be mapped. Fails where the expander does.
    pub fn hash<P>(&self, msg: &[u8]) -> (out: Result<(Pipeline<P>, Request<P>), Error>)
        ensures
            match out {
                Ok((state, request)) => {
                    &&& self.hasher().expander().length_in_range(
                        self.count() * self.hasher().elt_len(),
                    )
                    &&& self.hasher().expander().dst_prime().len() <= 255
                    &&& request matches Request::MapElement(u0) && self.is_element(u0, msg@, 0)
                    &&& self.random_oracle() ==> (state matches Pipeline::First {
                        second: Some(u1),
                    } && self.is_element(u1, msg@, 1))
                    &&& !self.random_oracle() ==> state == Pipeline::<P>::First { second: None }
                },
                Err(Error::RequestedTooManyBytes) => !self.hasher().expander().length_in_range(
                    self.count() * self.hasher().elt_len(),
                ),
                Err(Error::DstPrimeTooLong) => {
                    &&& self.hasher().expander().length_in_range(
                        self.count() * self.hasher().elt_len(),
                    )
                    &&& self.hasher().expander().dst_prime().len() > 255
                },
                Err(_) => false,
            },
    {
        let count: usize = if self.ro {
            2
        } else {
            1
        };
        let mut u: Vec<FieldElt> = match self.hash_to_field.hash(msg, count) {
            Ok(u) => u,
            Err(e) => {
                return Err(e);
            },
        };
        let u0: FieldElt = u.remove(0);
        let second: Option<FieldElt> = if self.ro {
            Some(u.remove(0))
        } else {
            None
        };
        Ok((Pipeline::First { second }, Request::MapElement(u0)))
    }
}

/// Hashing is a function of the message: what two runs call the `i`-th
/// element of one message has the same bytes.
pub proof fn lemma_element_unique(e: Encoding, msg: Seq<u8>, i: nat, u: FieldElt, v: FieldElt)
    requires
        e.is_element(u, msg, i),
        e.is_element(v, msg, i),
    ensures
        u.bytes@ == v.bytes@,
{
    lemma_be_nat_injective(u.bytes@, v.bytes@);
}

impl Suite {
    /// Binds the suite to the tag `dst`. Fails where the curve does not have
    /// the map that the suite names.
    pub fn get(&self, dst: &[u8]) -> (out: Result<Encoding, Error>)
        requires
            dst@.len() <= MAX_SUITE_DST_LENGTH,
        ensures
            match out {
                Ok(e) => {
                    &&& map_to_curve_spec(self.curve, self.map) == Some(e.map())
                    &&& e.curve() == self.curve
                    &&& e.random_oracle() == self.ro
                    &&& e.hasher().characteristic() == self.curve.characteristic()
                    &&& e.hasher().field_len() == self.curve.field_len()
                    &&& e.hasher().elt_len() == self.l
                    &&& is_expander(e.hasher().expander(), self.exp, self.k as nat, dst@)
                    &&& e.hasher().expander().dst_prime().len() == dst_prime_len(
                        self.exp,
                        self.k as nat,
                        dst@.len(),
                    )
                },
                Err(Error::UnimplementedMap) => map_to_curve_spec(self.curve, self.map) is None,
                Err(_) => false,
            },
    {
        let map_to_curve: MapToCurve = match select_map(self.curve, self.map) {
            Ok(m) => m,
            Err(e) => {
                return Err(e);
            },
        };
        let exp: AnyExpander = get_expander(self.exp, dst, self.k);
        proof {
            lemma_characteristic_positive(self.curve);
        }
        let hash_to_field: FpHasher = FpHasher::new(self.curve.modulus(), self.l, exp);
        Ok(Encoding { curve: self.curve, map_to_curve, hash_to_field, ro: self.ro })
    }
}

} // verus!
