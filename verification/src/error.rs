//! The ways a citation string can fail to validate.

use vstd::prelude::*;

verus! {

/// Why a citation string failed to validate. Validation is sequential and
/// fails fast: a caller receives exactly the first violated rule.
#[derive(Debug, Clone, Copy, PartialEq, Eq)]
pub enum Error {
    /// A digit segment failed to parse as an unsigned integer: it is empty,
    /// holds a non-digit, or exceeds what 64 bits hold.
    InvalidInteger,
    /// The congress number lies outside `1..=current` for the current
    /// congress at evaluation time.
    CongressOutOfRange,
    /// The chamber letter is missing, or the pair of chamber and object-type
    /// tag is not in the recognized table.
    UnknownObjectType,
    /// The trailing version letters are not in the bill-version vocabulary.
    InvalidBillVersion,
    /// The document number is zero; it must be strictly positive.
    ZeroNumber,
}

impl Error {
    /// The description that [`Error::message`] returns.
    pub open spec fn spec_message(&self) -> Seq<char> {
        match self {
            Error::InvalidInteger => "cannot parse an unsigned integer from the citation"@,
            Error::CongressOutOfRange => "congress number in citation has not occurred yet"@,
            Error::UnknownObjectType => "unknown or unsupported congressional object type"@,
            Error::InvalidBillVersion => "not a valid bill version"@,
            Error::ZeroNumber => "document number in citation must be positive"@,
        }
    }

    /// A short description of the failure.
    pub fn message(&self) -> (r: &'static str)
        ensures
            r@ == self.spec_message(),
    {
        match self {
            Error::InvalidInteger => "cannot parse an unsigned integer from the citation",
            Error::CongressOutOfRange => "congress number in citation has not occurred yet",
            Error::UnknownObjectType => "unknown or unsupported congressional object type",
            Error::InvalidBillVersion => "not a valid bill version",
            Error::ZeroNumber => "document number in citation must be positive",
        }
    }
}

} // verus!
