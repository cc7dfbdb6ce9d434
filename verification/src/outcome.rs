//! The tagged results that every operation returns.
//!
//! A result is a pair of a marker and a payload. Operations whose success is
//! text return a [`StringResultTuple`] either way. Operations whose success is
//! binary return an [`Either`]: bytes under the success marker, or text under
//! the failure marker.

use vstd::prelude::*;

verus! {

/// The marker in front of a payload.
#[derive(Clone, Copy, Debug, PartialEq, Eq, Structural)]
pub enum Atom {
    Success,
    Failure,
}

/// A marker and a text payload.
#[derive(Debug, PartialEq, Eq)]
pub struct StringResultTuple {
    pub lhs: Atom,
    pub rhs: String,
}

/// A marker and a binary payload.
#[derive(Debug, PartialEq, Eq)]
pub struct BinaryResultTuple {
    pub lhs: Atom,
    pub rhs: Vec<u8>,
}

/// What a binary operation returns: one of the two tuple shapes.
#[derive(Debug, PartialEq, Eq)]
pub enum Either {
    BinaryTuple(BinaryResultTuple),
    StringTuple(StringResultTuple),
}

/// The mathematical content of a result.
pub enum Tagged {
    /// A marker with text behind it.
    Text(Atom, Seq<char>),
    /// A marker with bytes behind it.
    Binary(Atom, Seq<u8>),
}

impl Tagged {
    /// A successful text result.
    pub open spec fn ok_text(data: Seq<char>) -> Tagged {
        Tagged::Text(Atom::Success, data)
    }

    /// A successful binary result.
    pub open spec fn ok_binary(data: Seq<u8>) -> Tagged {
        Tagged::Binary(Atom::Success, data)
    }

    /// A failure, which always carries text.
    pub open spec fn failure(message: Seq<char>) -> Tagged {
        Tagged::Text(Atom::Failure, message)
    }

    /// The marker of the result.
    pub open spec fn marker(self) -> Atom {
        match self {
            Tagged::Text(a, _) => a,
            Tagged::Binary(a, _) => a,
        }
    }

    /// Whether this is one of the two shapes a binary operation may return:
    /// bytes marked as success, or text marked as failure.
    pub open spec fn binary_shaped(self) -> bool {
        match self {
            Tagged::Text(a, _) => a == Atom::Failure,
            Tagged::Binary(a, _) => a == Atom::Success,
        }
    }
}

impl View for StringResultTuple {
    type V = Tagged;

    open spec fn view(&self) -> Tagged {
        Tagged::Text(self.lhs, self.rhs@)
    }
}

impl View for BinaryResultTuple {
    type V = Tagged;

    open spec fn view(&self) -> Tagged {
        Tagged::Binary(self.lhs, self.rhs@)
    }
}

impl View for Either {
    type V = Tagged;

    open spec fn view(&self) -> Tagged {
        match self {
            Either::BinaryTuple(t) => t@,
            Either::StringTuple(t) => t@,
        }
    }
}

impl StringResultTuple {
    /// Whether the marker says success.
    pub fn is_ok(&self) -> (b: bool)
        ensures
            b == (self@.marker() == Atom::Success),
    {
        self.lhs == Atom::Success
    }
}

impl Either {
    /// Whether the marker says success.
    pub fn is_ok(&self) -> (b: bool)
        ensures
            b == (self@.marker() == Atom::Success),
    {
        match self {
            Either::BinaryTuple(t) => t.lhs == Atom::Success,
            Either::StringTuple(t) => t.lhs == Atom::Success,
        }
    }
}

/// Marks `data` as a successful text result.
pub fn ok_string_tuple(data: String) -> (t: StringResultTuple)
    ensures
        t@ == Tagged::ok_text(data@),
{
    StringResultTuple { lhs: Atom::Success, rhs: data }
}

/// Marks `data` as a successful binary result.
pub fn ok_binary_tuple(data: Vec<u8>) -> (t: BinaryResultTuple)
    ensures
        t@ == Tagged::ok_binary(data@),
{
    BinaryResultTuple { lhs: Atom::Success, rhs: data }
}

/// Marks `error` as a failure.
pub fn error_tuple(error: String) -> (t: StringResultTuple)
    ensures
        t@ == Tagged::failure(error@),
{
    StringResultTuple { lhs: Atom::Failure, rhs: error }
}

} // verus!
