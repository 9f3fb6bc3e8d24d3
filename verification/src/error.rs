//! The error reported by every decoder and router of the library.

use vstd::prelude::*;
use vstd::string::StringExecFns;

verus! {

/// Why an input was rejected.
#[derive(Debug, Clone, PartialEq, Eq)]
pub enum LiDARError {
    /// The input does not have the shape the protocol asks for; the text says how.
    InvalidData(String),
}

impl LiDARError {
    /// The reason carried by the error.
    pub open spec fn text(&self) -> Seq<char> {
        match self {
            LiDARError::InvalidData(msg) => msg@,
        }
    }

    /// Builds the error that carries `reason`.
    pub fn invalid(reason: &str) -> (e: LiDARError)
        ensures
            e.text() == reason@,
    {
        LiDARError::InvalidData(String::from_str(reason))
    }

    /// The text shown to a reader: the fixed prefix followed by the reason.
    pub fn message(&self) -> (s: String)
        ensures
            s@ == "Invalid data: "@ + self.text(),
    {
        match self {
            LiDARError::InvalidData(msg) => String::from_str("Invalid data: ").concat(msg.as_str()),
        }
    }
}

/// What a fallible result looks like in contracts: the view of the value, or
/// the reason of the error.
pub open spec fn outcome<T: View>(r: Result<T, LiDARError>) -> Result<T::V, Seq<char>> {
    match r {
        Ok(v) => Ok(v@),
        Err(e) => Err(e.text()),
    }
}

/// Reason: the payload or frame is shorter than its layout.
pub open spec fn not_enough_data() -> Seq<char> {
    "not enough data"@
}

/// Reason: the first byte is not the frame-sync value.
pub open spec fn invalid_header() -> Seq<char> {
    "invalid header"@
}

/// Reason: the configuration parameter names no record.
pub open spec fn not_supported_param() -> Seq<char> {
    "not supported param"@
}

/// Reason: the point-cloud channel is outside the product line's field of view.
pub open spec fn not_supported_channel() -> Seq<char> {
    "not supported channel"@
}

} // verus!
