//! The error kinds shared by the format adapters.
//!
//! Two kinds are distinguished and never conflated: an input that could
//! not be obtained at all (an I/O failure, [`crate::manifest::ManifestLoadError::IoError`])
//! and an input that was obtained but does not conform to the expected
//! schema (a [`DecodeError`]). Callers pattern-match on the variants;
//! no failure is ever reported by panicking.

use vstd::prelude::*;

verus! {

/// Mathematical image of a [`DecodeError`]: the same variants over
/// sequences of characters.
pub enum DecodeErrorModel {
    /// The document text itself is malformed.
    Syntax { message: Seq<char> },
    /// A required key, field or element is absent.
    MissingKey { key: Seq<char> },
    /// A key or element that may appear at most once appeared again.
    DuplicateKey { key: Seq<char> },
}

/// Why a document that was read successfully could not be decoded.
///
/// Carries the diagnostic needed to report a corrupt or incompatible
/// document to an end user.
#[derive(Debug, PartialEq, Eq)]
pub enum DecodeError {
    /// The document text itself is malformed.
    Syntax { message: String },
    /// A required key, field or element is absent.
    MissingKey { key: String },
    /// A key or element that may appear at most once appeared again.
    DuplicateKey { key: String },
}

impl View for DecodeError {
    type V = DecodeErrorModel;

    open spec fn view(&self) -> DecodeErrorModel {
        match self {
            DecodeError::Syntax { message } => DecodeErrorModel::Syntax { message: message@ },
            DecodeError::MissingKey { key } => DecodeErrorModel::MissingKey { key: key@ },
            DecodeError::DuplicateKey { key } => DecodeErrorModel::DuplicateKey { key: key@ },
        }
    }
}

impl DecodeError {
    /// A syntax error with the given diagnostic.
    pub fn syntax(message: &str) -> (e: DecodeError)
        ensures
            e@ == (DecodeErrorModel::Syntax { message: message@ }),
    {
        DecodeError::Syntax { message: String::from_str(message) }
    }

    /// A missing-key error naming the absent key or element.
    pub fn missing(key: &str) -> (e: DecodeError)
        ensures
            e@ == (DecodeErrorModel::MissingKey { key: key@ }),
    {
        DecodeError::MissingKey { key: String::from_str(key) }
    }

    /// A duplicate-key error naming the repeated key or element.
    pub fn duplicate(key: &str) -> (e: DecodeError)
        ensures
            e@ == (DecodeErrorModel::DuplicateKey { key: key@ }),
    {
        DecodeError::DuplicateKey { key: String::from_str(key) }
    }
}

} // verus!
