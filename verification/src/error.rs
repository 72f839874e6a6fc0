//! The errors reported when an index cannot be made.

use crate::decimal;
use vstd::prelude::*;
use vstd::string::StringExecFns;

verus! {

/// Why a text is not the decimal notation of a machine-sized integer.
#[derive(Debug, Clone, Copy, PartialEq, Eq, Structural)]
pub enum ParseFailure {
    /// The text has no characters at all.
    Empty,
    /// Some character of the text is not one of `0` to `9`.
    InvalidDigit,
    /// The text is made of digits, but the number is above `usize::MAX`.
    PosOverflow,
}

/// Why a value or a text was refused as an index.
#[derive(Debug, Clone, Copy, PartialEq, Eq, Structural)]
pub enum Error {
    /// The value is not below the size of the indexed array.
    OutOfBounds {
        /// The value that was offered.
        value: usize,
        /// The size of the array; the largest index is `size - 1`.
        size: usize,
    },
    /// The text is not a decimal number.
    ParseIntError(ParseFailure),
}

impl ParseFailure {
    /// The text that tells this failure to a reader.
    pub open spec fn message_spec(self) -> Seq<char> {
        match self {
            ParseFailure::Empty => "cannot parse integer from empty string"@,
            ParseFailure::InvalidDigit => "invalid digit found in string"@,
            ParseFailure::PosOverflow => "number too large to fit in target type"@,
        }
    }

    /// Tells the failure in words.
    pub fn message(&self) -> (r: &'static str)
        ensures
            r@ == self.message_spec(),
    {
        match self {
            ParseFailure::Empty => "cannot parse integer from empty string",
            ParseFailure::InvalidDigit => "invalid digit found in string",
            ParseFailure::PosOverflow => "number too large to fit in target type",
        }
    }
}

impl Error {
    /// The text that tells this error to a reader; the numbers are written
    /// in decimal notation.
    pub open spec fn message_spec(self) -> Seq<char> {
        match self {
            Error::OutOfBounds { value, size } => "value "@ + decimal::digits_of(value as nat)
                + " is out-of-bounds for index with size "@ + decimal::digits_of(size as nat),
            Error::ParseIntError(failure) => failure.message_spec(),
        }
    }

    /// Tells the error in words.
    pub fn message(&self) -> (r: String)
        ensures
            r@ == self.message_spec(),
    {
        match self {
            Error::OutOfBounds { value, size } => {
                let mut r: String = String::from_str("value ");
                r.append(decimal::to_decimal(*value).as_str());
                r.append(" is out-of-bounds for index with size ");
                r.append(decimal::to_decimal(*size).as_str());
                r
            },
            Error::ParseIntError(failure) => String::from_str(failure.message()),
        }
    }
}

impl From<ParseFailure> for Error {
    /// A text that is no number is no index either.
    fn from(failure: ParseFailure) -> (r: Error)
        ensures
            r == Error::ParseIntError(failure),
    {
        Error::ParseIntError(failure)
    }
}

impl vstd::std_specs::convert::FromSpecImpl<ParseFailure> for Error {
    open spec fn obeys_from_spec() -> bool {
        true
    }

    open spec fn from_spec(failure: ParseFailure) -> Error {
        Error::ParseIntError(failure)
    }
}

} // verus!
