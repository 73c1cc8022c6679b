//! The load algorithm: first-match selection, the read-and-parse step, and
//! the fallback to the default value.
//!
//! The library performs no filesystem access and runs no deserializer
//! itself; both are capabilities of the caller, and their results come in
//! as plain values.  A caller drives one load as follows:
//!
//! - with an explicit path, read that file, hand its text to the target
//!   type's [`Load::from_toml_text`], and give the nested result to
//!   [`read_outcome`]; the search is bypassed;
//! - otherwise, build the candidate list with [`crate::paths::path_list`],
//!   probe each candidate for existence, pick the winner with
//!   [`select_candidate`], read and parse only that file, and hand the
//!   result — or `None` when no candidate exists — to [`search_outcome`]
//!   together with the type's default value.
//!
//! Every decision (which candidate wins, when the default is used, how
//! failures are classified) is made and specified here; reading and
//! parsing merely supply the values decided over.

use vstd::prelude::*;

use crate::error::Error;

verus! {

/// The capability a configuration type supplies: a default value, and
/// deserialization from the text of a configuration file.
///
/// An implementation of `from_toml_text` typically delegates to a TOML
/// deserializer, returning the parsed value or the parser's diagnostic.
/// The loading functions never run this capability themselves: they take
/// its results as arguments, so their contracts hold for every value an
/// implementation can return.
pub trait Load: Sized {
    /// The default value, returned when no configuration file is found.
    fn default_value() -> Self;

    /// Deserialize a value from the full text of a configuration file,
    /// or report a description of why the text does not describe one.
    fn from_toml_text(text: &str) -> Result<Self, String>;
}

/// Select the first existing candidate: `exists` holds one existence bit
/// per candidate, in priority order, and the result is the index of the
/// earliest existing one, or `None` when none exists.
pub fn select_candidate(exists: &Vec<bool>) -> (r: Option<usize>)
    ensures
        match r {
            Some(i) => i < exists@.len() && exists@[i as int] && forall|j: int|
                0 <= j < i ==> !exists@[j],
            None => forall|j: int| 0 <= j < exists@.len() ==> !exists@[j],
        },
{
    let mut i: usize = 0;
    while i < exists.len()
        invariant
            i <= exists@.len(),
            forall|j: int| 0 <= j < i ==> !exists@[j],
        decreases exists@.len() - i,
    {
        if exists[i] {
            return Some(i);
        }
        i = i + 1;
    }
    None
}

/// Turn the outcome of reading and parsing one file into the result of
/// the load.  The outer result is the read: a failure becomes an access
/// error, always — a missing file at an explicitly given path is never
/// replaced by a default.  The inner result is the parse of the text that
/// was read: a failure becomes a deserialization error carrying the
/// parser's diagnostic, and a parsed value is the loaded value, unchanged.
pub fn read_outcome<C>(read: Result<Result<C, String>, String>) -> (r: Result<C, Error>)
    ensures
        match read {
            Ok(parsed) => match parsed {
                Ok(v) => r == Result::<C, Error>::Ok(v),
                Err(m) => r == Result::<C, Error>::Err(Error::Deserialize(m)),
            },
            Err(m) => r == Result::<C, Error>::Err(Error::File(m)),
        },
{
    match read {
        Ok(parsed) => match parsed {
            Ok(v) => Ok(v),
            Err(m) => Err(Error::Deserialize(m)),
        },
        Err(m) => Err(Error::File(m)),
    }
}

/// Turn the outcome of the search into the result of the load: when no
/// candidate exists (`found` is `None`) the given default value is
/// returned — a success, not an error; otherwise the read-and-parse
/// result of the selected candidate decides, as in [`read_outcome`].
pub fn search_outcome<C>(found: Option<Result<Result<C, String>, String>>, default: C) -> (r:
    Result<C, Error>)
    ensures
        match found {
            None => r == Result::<C, Error>::Ok(default),
            Some(read) => match read {
                Ok(parsed) => match parsed {
                    Ok(v) => r == Result::<C, Error>::Ok(v),
                    Err(m) => r == Result::<C, Error>::Err(Error::Deserialize(m)),
                },
                Err(m) => r == Result::<C, Error>::Err(Error::File(m)),
            },
        },
{
    match found {
        None => Ok(default),
        Some(read) => read_outcome(read),
    }
}

} // verus!
