//! Hashing byte strings to elliptic-curve points: the byte-exact front half.
//!
//! The crate covers message expansion (XMD and XOF), hashing to prime-field
//! elements, the catalogue of named suites, and the order of the steps that
//! turn field elements into a point. Curve arithmetic is left to the caller.

pub mod api;
pub mod bigint;
pub mod catalogue;
pub mod curve;
pub mod edw;
pub mod encoding;
pub mod expander;
pub mod fp;
pub mod mont;
pub mod primitives;
pub mod registry;
pub mod weier;

pub use crate::api::{Error, ExpID, HashID, MapID, XofID};
pub use crate::curve::{CurveFamily, CurveID, Sgn0};
pub use crate::encoding::{Encoding, IsogenyID, MapToCurve, Pipeline, RationalMapID, Request};
pub use crate::expander::{get_expander, xor, AnyExpander, Expander, ExpanderXmd, ExpanderXof};
pub use crate::fp::{FieldElt, FpHasher};
pub use crate::registry::Suite;
