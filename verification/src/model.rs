//! A specification-level model of one whole load, and the laws that hold
//! of it.
//!
//! The filesystem at the moment of the load is modelled as a map from the
//! paths of the existing, readable files to their text, and the caller's
//! deserializer as a function `parse` from a text to the value it
//! describes, if any.  Over those, [`fallback_load_model`] states the
//! complete algorithm: an explicit path bypasses the search; otherwise the
//! candidates are scanned in priority order and the first existing one
//! decides, with the given default value as the outcome when none exists.
//!
//! The executable functions realize this model piecewise:
//! [`crate::load::select_candidate`] picks exactly the index
//! [`search_model`] reads (see [`lemma_selection_realizes_search`]), and
//! the ensures of [`crate::load::read_outcome`] and
//! [`crate::load::search_outcome`] mirror [`read_model`] case for case.

use vstd::prelude::*;

use crate::paths::candidate_paths;

verus! {

/// The outcome of one load, in the model: a value, a failure to open or
/// read the file, or a failure to deserialize its text.
pub enum Outcome<C> {
    Value(C),
    AccessFault,
    ParseFault,
}

/// Reading one specific path: a missing file is an access fault, and the
/// text of an existing file either parses to a value or is a parse fault.
pub open spec fn read_model<C>(
    parse: spec_fn(Seq<char>) -> Option<C>,
    path: Seq<char>,
    files: Map<Seq<char>, Seq<char>>,
) -> Outcome<C> {
    if files.contains_key(path) {
        match parse(files[path]) {
            Some(v) => Outcome::Value(v),
            None => Outcome::ParseFault,
        }
    } else {
        Outcome::AccessFault
    }
}

/// Scanning a candidate list in order: the first existing candidate is
/// read, and when none exists the default value is the outcome.
pub open spec fn search_model<C>(
    parse: spec_fn(Seq<char>) -> Option<C>,
    default: C,
    paths: Seq<Seq<char>>,
    files: Map<Seq<char>, Seq<char>>,
) -> Outcome<C>
    decreases paths.len(),
{
    if paths.len() == 0 {
        Outcome::Value(default)
    } else if files.contains_key(paths[0]) {
        read_model(parse, paths[0], files)
    } else {
        search_model(parse, default, paths.drop_first(), files)
    }
}

/// One whole load: an explicit path is read directly and the search is
/// bypassed; otherwise the candidate list for `name` and `home` is
/// scanned.
pub open spec fn fallback_load_model<C>(
    parse: spec_fn(Seq<char>) -> Option<C>,
    default: C,
    name: Seq<char>,
    home: Option<Seq<char>>,
    explicit: Option<Seq<char>>,
    files: Map<Seq<char>, Seq<char>>,
) -> Outcome<C> {
    match explicit {
        Some(p) => read_model(parse, p, files),
        None => search_model(parse, default, candidate_paths(name, home), files),
    }
}

proof fn lemma_search_model_none_exists<C>(
    parse: spec_fn(Seq<char>) -> Option<C>,
    default: C,
    paths: Seq<Seq<char>>,
    files: Map<Seq<char>, Seq<char>>,
)
    requires
        forall|i: int| 0 <= i < paths.len() ==> !files.contains_key(#[trigger] paths[i]),
    ensures
        search_model(parse, default, paths, files) == Outcome::<C>::Value(default),
    decreases paths.len(),
{
    if paths.len() > 0 {
        assert(!files.contains_key(paths[0]));
        assert(forall|i: int|
            0 <= i < paths.drop_first().len() ==> paths.drop_first()[i] == paths[i + 1]);
        lemma_search_model_none_exists(parse, default, paths.drop_first(), files);
    }
}

proof fn lemma_search_model_first_exists<C>(
    parse: spec_fn(Seq<char>) -> Option<C>,
    default: C,
    paths: Seq<Seq<char>>,
    files: Map<Seq<char>, Seq<char>>,
    i: int,
)
    requires
        0 <= i < paths.len(),
        files.contains_key(paths[i]),
        forall|j: int| 0 <= j < i ==> !files.contains_key(#[trigger] paths[j]),
    ensures
        search_model(parse, default, paths, files) == read_model(parse, paths[i], files),
    decreases i,
{
    if i > 0 {
        assert(!files.contains_key(paths[0]));
        assert(forall|j: int|
            0 <= j < paths.drop_first().len() ==> paths.drop_first()[j] == paths[j + 1]);
        lemma_search_model_first_exists(parse, default, paths.drop_first(), files, i - 1);
    }
}

/// Default-fallback law: when none of the candidate paths exists, the
/// search-mode load is the default value — a success, with no error.
pub proof fn lemma_default_fallback<C>(
    parse: spec_fn(Seq<char>) -> Option<C>,
    default: C,
    name: Seq<char>,
    home: Option<Seq<char>>,
    files: Map<Seq<char>, Seq<char>>,
)
    requires
        forall|i: int|
            0 <= i < candidate_paths(name, home).len() ==> !files.contains_key(
                #[trigger] candidate_paths(name, home)[i],
            ),
    ensures
        fallback_load_model(parse, default, name, home, None, files) == Outcome::<C>::Value(
            default,
        ),
{
    lemma_search_model_none_exists(parse, default, candidate_paths(name, home), files);
}

/// First-match law: when candidate `i` exists and no earlier candidate
/// does, the search-mode load is produced from the content of candidate
/// `i` alone — later existing candidates play no part.
pub proof fn lemma_first_match<C>(
    parse: spec_fn(Seq<char>) -> Option<C>,
    default: C,
    name: Seq<char>,
    home: Option<Seq<char>>,
    files: Map<Seq<char>, Seq<char>>,
    i: int,
)
    requires
        0 <= i < candidate_paths(name, home).len(),
        files.contains_key(candidate_paths(name, home)[i]),
        forall|j: int|
            0 <= j < i ==> !files.contains_key(#[trigger] candidate_paths(name, home)[j]),
    ensures
        fallback_load_model(parse, default, name, home, None, files) == read_model(
            parse,
            candidate_paths(name, home)[i],
            files,
        ),
{
    lemma_search_model_first_exists(parse, default, candidate_paths(name, home), files, i);
}

/// Explicit-path bypass law: with an explicit path the load reads that
/// path alone — the outcome does not depend on the application name, the
/// home directory or the default value, so enumeration plays no part —
/// and a missing explicit path is always an access fault, never the
/// default value.
pub proof fn lemma_explicit_bypass<C>(
    parse: spec_fn(Seq<char>) -> Option<C>,
    default: C,
    other_default: C,
    name: Seq<char>,
    home: Option<Seq<char>>,
    other_name: Seq<char>,
    other_home: Option<Seq<char>>,
    p: Seq<char>,
    files: Map<Seq<char>, Seq<char>>,
)
    ensures
        fallback_load_model(parse, default, name, home, Some(p), files) == read_model(
            parse,
            p,
            files,
        ),
        fallback_load_model(parse, default, name, home, Some(p), files) == fallback_load_model(
            parse,
            other_default,
            other_name,
            other_home,
            Some(p),
            files,
        ),
        !files.contains_key(p) ==> fallback_load_model(parse, default, name, home, Some(p), files)
            == Outcome::<C>::AccessFault,
{
}

/// Round-trip law: when the first existing candidate holds a text that
/// parses to `v` — for instance the serialization of `v` — the
/// search-mode load yields exactly `v`.
pub proof fn lemma_round_trip<C>(
    parse: spec_fn(Seq<char>) -> Option<C>,
    default: C,
    name: Seq<char>,
    home: Option<Seq<char>>,
    files: Map<Seq<char>, Seq<char>>,
    i: int,
    v: C,
)
    requires
        0 <= i < candidate_paths(name, home).len(),
        files.contains_key(candidate_paths(name, home)[i]),
        forall|j: int|
            0 <= j < i ==> !files.contains_key(#[trigger] candidate_paths(name, home)[j]),
        parse(files[candidate_paths(name, home)[i]]) == Some(v),
    ensures
        fallback_load_model(parse, default, name, home, None, files) == Outcome::<C>::Value(v),
{
    lemma_first_match(parse, default, name, home, files, i);
}

/// The selection the executable search makes realizes the model: when the
/// existence bits are faithful to the filesystem — bit `i` holds exactly
/// when candidate `i` exists — the index [`crate::load::select_candidate`]
/// returns (characterized by its ensures, here the condition on
/// `selected`) decides the search outcome of the model.
pub proof fn lemma_selection_realizes_search<C>(
    parse: spec_fn(Seq<char>) -> Option<C>,
    default: C,
    paths: Seq<Seq<char>>,
    exists: Seq<bool>,
    files: Map<Seq<char>, Seq<char>>,
    selected: Option<int>,
)
    requires
        exists.len() == paths.len(),
        forall|i: int|
            0 <= i < paths.len() ==> exists[i] == files.contains_key(#[trigger] paths[i]),
        match selected {
            Some(i) => 0 <= i < exists.len() && exists[i] && forall|j: int|
                0 <= j < i ==> !exists[j],
            None => forall|j: int| 0 <= j < exists.len() ==> !exists[j],
        },
    ensures
        match selected {
            Some(i) => search_model(parse, default, paths, files) == read_model(
                parse,
                paths[i],
                files,
            ),
            None => search_model(parse, default, paths, files) == Outcome::<C>::Value(default),
        },
{
    match selected {
        Some(i) => lemma_search_model_first_exists(parse, default, paths, files, i),
        None => lemma_search_model_none_exists(parse, default, paths, files),
    }
}

} // verus!
