//! Locate and load an application's configuration file.
//!
//! Given an application name, the library enumerates a fixed, prioritized
//! list of conventional file locations, selects the first candidate that
//! exists, and turns its text into a typed value through the [`Load`]
//! capability, falling back to the type's default value when no candidate
//! exists.  An explicitly supplied path bypasses the search entirely.
//!
//! The library itself performs no filesystem access: callers probe for
//! existence and read file contents, then hand the plain results to the
//! functions here, which make every decision (candidate order, first-match
//! selection, default fallback, error classification).

pub mod error;
pub mod load;
pub mod model;
pub mod paths;

pub use error::Error;
pub use load::Load;
pub use load::read_outcome;
pub use load::search_outcome;
pub use load::select_candidate;
pub use paths::path_list;
