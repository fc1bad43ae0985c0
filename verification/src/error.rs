//! The failure surface of the bridge.
//!
//! Every fallible operation of the library returns one of these kinds.
//! Nothing is swallowed: the sum-type decoder's deliberate "try the next
//! candidate" step skips only shape mismatches, never finer validation
//! failures.

use vstd::prelude::*;

verus! {

/// A host-native error returned by the bridge.
#[derive(Debug)]
pub enum Error {
    /// A script threw: wraps the converted message of the engine exception.
    Exception { message: String },
    /// Source text or a diagnostic name held an embedded NUL byte.
    InvalidInput,
    /// Reading a source file failed; the message renders the read failure.
    Io { message: String },
    /// A value's structure did not match the attempted target shape.
    ShapeMismatch,
    /// A value matched the target's structure but failed a finer validation,
    /// such as a numeric-range check.
    OutOfRange,
    /// A value minted under one execution environment was used under another.
    ScopeMismatch,
    /// Protocol violation: the engine signalled an exception but none was
    /// pending, or an unexpected empty result came back.
    Unknown,
}

impl Error {
    /// Whether this error is of the shape-mismatch class, the only class the
    /// sum-type decoder may skip while trying further candidates.
    pub open spec fn spec_is_shape_mismatch(&self) -> bool {
        self is ShapeMismatch
    }

    /// Classifies this error for the sum-type decoder.
    pub fn is_shape_mismatch(&self) -> (r: bool)
        ensures
            r == self.spec_is_shape_mismatch(),
    {
        match self {
            Error::ShapeMismatch => true,
            _ => false,
        }
    }

    /// A short rendering of the error for host-side display.
    pub fn message(&self) -> (r: String)
        ensures
            r@ == self.spec_message(),
    {
        match self {
            Error::Exception { message } => message.clone(),
            Error::InvalidInput => "invalid source".to_owned(),
            Error::Io { message } => message.clone(),
            Error::ShapeMismatch => "no matching shape".to_owned(),
            Error::OutOfRange => "value out of range".to_owned(),
            Error::ScopeMismatch => "value used under a foreign environment".to_owned(),
            Error::Unknown => "unknown failure".to_owned(),
        }
    }

    /// What [`Error::message`] returns, by variant.
    pub open spec fn spec_message(&self) -> Seq<char> {
        match self {
            Error::Exception { message } => message@,
            Error::InvalidInput => "invalid source"@,
            Error::Io { message } => message@,
            Error::ShapeMismatch => "no matching shape"@,
            Error::OutOfRange => "value out of range"@,
            Error::ScopeMismatch => "value used under a foreign environment"@,
            Error::Unknown => "unknown failure"@,
        }
    }
}

/// Whether `r` failed with a converted engine exception whose message is
/// exactly `m`.
pub open spec fn err_is_exception<T>(r: Result<T, Error>, m: Seq<char>) -> bool {
    match r {
        Err(Error::Exception { message }) => message@ == m,
        _ => false,
    }
}

} // verus!
