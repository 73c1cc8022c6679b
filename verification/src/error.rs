//! The error type produced when a configuration file cannot be loaded.

use vstd::prelude::*;

verus! {

/// Errors produced when loading configuration.
///
/// `File` reports a failure while opening or reading a file; `Deserialize`
/// reports a failure while turning the file's text into the target type.
/// Each variant carries a human-readable description of the underlying
/// cause.
#[derive(Debug)]
pub enum Error {
    File(String),
    Deserialize(String),
}

impl Error {
    /// A short, fixed description of the error kind.
    pub fn description(&self) -> (r: &'static str)
        ensures
            self matches Error::File(_) ==> r@ == "Error opening or reading file"@,
            self matches Error::Deserialize(_) ==> r@ == "Error deserializing file"@,
    {
        match self {
            Error::File(_) => "Error opening or reading file",
            Error::Deserialize(_) => "Error deserializing file",
        }
    }

    /// The description of the underlying cause.
    pub fn cause(&self) -> (r: &String)
        ensures
            self matches Error::File(m) ==> r == m,
            self matches Error::Deserialize(m) ==> r == m,
    {
        match self {
            Error::File(m) => m,
            Error::Deserialize(m) => m,
        }
    }
}

} // verus!
