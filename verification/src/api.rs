//! Identifiers that select the building blocks of a suite.

use vstd::prelude::*;

verus! {

/// A fixed-output hash function usable by the XMD expander.
#[derive(Clone, Copy, Debug, PartialEq, Eq, Structural)]
pub enum HashID {
    SHA256,
    SHA384,
    SHA512,
}

/// An extendable-output function usable by the XOF expander.
#[derive(Clone, Copy, Debug, PartialEq, Eq, Structural)]
pub enum XofID {
    SHAKE128,
    SHAKE256,
}

/// The expander family of a suite.
#[derive(Clone, Copy, Debug, PartialEq, Eq, Structural)]
pub enum ExpID {
    XMD(HashID),
    XOF(XofID),
}

/// The map from field elements to curve points, with its constant `Z`.
#[derive(Clone, Copy, Debug, PartialEq, Eq, Structural)]
pub enum MapID {
    SSWU(i32),
    SSWUAB0(i32),
    SVDW(i32),
    ELL2(i32),
}

/// Why a request was turned down.
#[derive(Clone, Copy, Debug, PartialEq, Eq, Structural)]
pub enum Error {
    /// More output was asked of an expander than it can give.
    RequestedTooManyBytes,
    /// The canonical domain-separation tag is longer than 255 bytes.
    DstPrimeTooLong,
    /// The suite names a map that its curve does not have.
    UnimplementedMap,
}

impl Error {
    /// What went wrong, in words.
    pub open spec fn spec_message(self) -> &'static str {
        match self {
            Error::RequestedTooManyBytes => "requested too many bytes",
            Error::DstPrimeTooLong => "domain separation tag too long",
            Error::UnimplementedMap => "map not implemented for this curve",
        }
    }

    /// What went wrong, in words.
    pub fn message(self) -> (text: &'static str)
        ensures
            text == self.spec_message(),
    {
        match self {
            Error::RequestedTooManyBytes => "requested too many bytes",
            Error::DstPrimeTooLong => "domain separation tag too long",
            Error::UnimplementedMap => "map not implemented for this curve",
        }
    }
}

impl HashID {
    /// Length in bytes of a digest.
    pub open spec fn spec_output_size(self) -> nat {
        match self {
            HashID::SHA256 => 32,
            HashID::SHA384 => 48,
            HashID::SHA512 => 64,
        }
    }

    /// Length in bytes of an input block.
    pub open spec fn spec_block_size(self) -> nat {
        match self {
            HashID::SHA256 => 64,
            HashID::SHA384 => 128,
            HashID::SHA512 => 128,
        }
    }

    /// Length in bytes of a digest.
    pub fn output_size(self) -> (n: usize)
        ensures
            n == self.spec_output_size(),
    {
        match self {
            HashID::SHA256 => 32,
            HashID::SHA384 => 48,
            HashID::SHA512 => 64,
        }
    }

    /// Length in bytes of an input block.
    pub fn block_size(self) -> (n: usize)
        ensures
            n == self.spec_block_size(),
    {
        match self {
            HashID::SHA256 => 64,
            HashID::SHA384 => 128,
            HashID::SHA512 => 128,
        }
    }
}

} // verus!
