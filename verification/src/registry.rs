//! Named suites and how one is found by its name.

use vstd::prelude::*;
use vstd::string::StringSliceAdditionalSpecFns;

use crate::api::{ExpID, MapID};
use crate::curve::CurveID;

verus! {

/// A suite: every parameter that decides the bytes of the output.
#[derive(Clone, Copy, Debug, PartialEq, Eq)]
pub struct Suite {
    /// The canonical name.
    pub name: &'static str,
    /// The curve that messages are hashed to.
    pub curve: CurveID,
    /// The map from field elements to points.
    pub map: MapID,
    /// The expander.
    pub exp: ExpID,
    /// The security level in bits.
    pub k: usize,
    /// Number of pseudorandom bytes per field element.
    pub l: usize,
    /// Random-oracle mode; otherwise non-uniform mode.
    pub ro: bool,
}

impl Suite {
    /// The canonical name, as an owned string.
    pub fn to_string(&self) -> (name: String)
        ensures
            name@ == self.name@,
    {
        self.name.to_owned()
    }
}

/// The first suite of `suites` whose name has the bytes `name`.
pub open spec fn find_suite(suites: Seq<Suite>, name: Seq<u8>) -> Option<Suite>
    decreases suites.len(),
{
    if suites.len() == 0 {
        None
    } else if suites[0].name.spec_bytes() == name {
        Some(suites[0])
    } else {
        find_suite(suites.skip(1), name)
    }
}

/// Whether two strings have the same bytes.
pub fn same_bytes(a: &str, b: &str) -> (same: bool)
    ensures
        same == (a.spec_bytes() == b.spec_bytes()),
{
    let x: &[u8] = a.as_bytes();
    let y: &[u8] = b.as_bytes();
    if x.len() != y.len() {
        return false;
    }
    let mut i: usize = 0;
    while i < x.len()
        invariant
            i <= x@.len(),
            x@ == a.spec_bytes(),
            y@ == b.spec_bytes(),
            x@.len() == y@.len(),
            forall|j: int| 0 <= j < i ==> x@[j] == y@[j],
        decreases x@.len() - i,
    {
        if x[i] != y[i] {
            assert(x@[i as int] != y@[i as int]);
            return false;
        }
        i += 1;
    }
    assert(x@ =~= y@);
    true
}

/// The first suite of `suites` that is called `name`.
pub fn lookup_in(suites: &Vec<Suite>, name: &str) -> (found: Option<Suite>)
    ensures
        found == find_suite(suites@, name.spec_bytes()),
{
    let mut i: usize = 0;
    assert(suites@.skip(0) == suites@);
    while i < suites.len()
        invariant
            i <= suites@.len(),
            find_suite(suites@, name.spec_bytes()) == find_suite(
                suites@.skip(i as int),
                name.spec_bytes(),
            ),
        decreases suites@.len() - i,
    {
        if same_bytes(suites[i].name, name) {
            assert(suites@.skip(i as int)[0] == suites@[i as int]);
            return Some(suites[i]);
        }
        assert(suites@.skip(i as int)[0] == suites@[i as int]);
        assert(suites@.skip(i as int).skip(1) == suites@.skip(i + 1));
        i += 1;
    }
    assert(suites@.skip(i as int).len() == 0);
    None
}

} // verus!
