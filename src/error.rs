use crate::partial::{variable_name, Variable};
use vstd::prelude::*;

verus! {

/// Why a batch, a lookup or a solver step failed.
#[derive(Clone, Copy, Debug, PartialEq, Eq, Structural)]
pub enum Error {
    /// A batch was given no measurements.
    NoMeasurements,
    /// The measurement at this position carries another configuration than the first.
    ConfigMismatch(usize),
    /// The operation does not support this variable.
    UnsupportedVariable(Variable),
    /// The normal equations of a solver step have no inverse.
    NoInverse,
}

/// The sentence that describes an error.
pub open spec fn error_message(e: Error) -> Seq<char> {
    match e {
        Error::NoMeasurements => "cannot create adjust with no measurements"@,
        Error::ConfigMismatch(_) => "not all measurements have the same config"@,
        Error::UnsupportedVariable(v) => "unsupported variable: "@ + variable_name(v),
        Error::NoInverse => "no inverse found"@,
    }
}

impl Error {
    /// A sentence that describes this error.
    pub fn message(&self) -> (r: String)
        ensures
            r@ == error_message(*self),
    {
        match self {
            Error::NoMeasurements => "cannot create adjust with no measurements".to_owned(),
            Error::ConfigMismatch(_) => "not all measurements have the same config".to_owned(),
            Error::UnsupportedVariable(v) => {
                let mut s = "unsupported variable: ".to_owned();
                let name = v.name();
                s.append(name.as_str());
                s
            },
            Error::NoInverse => "no inverse found".to_owned(),
        }
    }
}

} // verus!
