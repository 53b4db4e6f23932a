//! What can go wrong while a description is read.

use vstd::prelude::*;
use vstd::string::StringExecFns;

verus! {

/// An error of parsing or conversion.
#[derive(Clone, Debug)]
pub enum ParseError {
    /// A file could not be read.
    IoError { path: String, source: String },
    /// A file does not hold a JSON document.
    JsonError { path: String, source: String },
    /// A required field is missing.
    MissingField { field: String, context: String },
    /// The data have an invalid format.
    InvalidFormat { context: String, message: String },
}

/// The message of an error.
pub open spec fn message_of(error: ParseError) -> Seq<char> {
    match error {
        ParseError::IoError { path, source } => "failed to read file "@ + path@ + ": "@ + source@,
        ParseError::JsonError { path, source } => "failed to parse JSON in "@ + path@ + ": "@
            + source@,
        ParseError::MissingField { field, context } => "missing required field '"@ + field@
            + "' in "@ + context@,
        ParseError::InvalidFormat { context, message } => "invalid data format in "@ + context@
            + ": "@ + message@,
    }
}

impl ParseError {
    /// The error of a file that could not be read; `source` says why.
    pub fn io(path: &str, source: &str) -> (r: Self)
        ensures
            r matches ParseError::IoError { path: p, source: s } && p@ == path@ && s@ == source@,
    {
        ParseError::IoError { path: String::from_str(path), source: String::from_str(source) }
    }

    /// The error of a file that holds no JSON document; `source` says why.
    pub fn json(path: &str, source: &str) -> (r: Self)
        ensures
            r matches ParseError::JsonError { path: p, source: s } && p@ == path@ && s@
                == source@,
    {
        ParseError::JsonError { path: String::from_str(path), source: String::from_str(source) }
    }

    /// The message of the error.
    pub fn message(&self) -> (r: String)
        ensures
            r@ == message_of(*self),
    {
        match self {
            ParseError::IoError { path, source } => {
                let mut out = String::from_str("failed to read file ");
                out.append(path.as_str());
                out.append(": ");
                out.append(source.as_str());
                out
            },
            ParseError::JsonError { path, source } => {
                let mut out = String::from_str("failed to parse JSON in ");
                out.append(path.as_str());
                out.append(": ");
                out.append(source.as_str());
                out
            },
            ParseError::MissingField { field, context } => {
                let mut out = String::from_str("missing required field '");
                out.append(field.as_str());
                out.append("' in ");
                out.append(context.as_str());
                out
            },
            ParseError::InvalidFormat { context, message } => {
                let mut out = String::from_str("invalid data format in ");
                out.append(context.as_str());
                out.append(": ");
                out.append(message.as_str());
                out
            },
        }
    }
}

} // verus!
