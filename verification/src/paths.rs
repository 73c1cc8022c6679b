//! Enumeration of the candidate configuration-file paths.
//!
//! For an application name `name` the candidates are, in priority order
//! (earlier entries win):
//!
//! 1. `./{name}`
//! 2. `./{name}.toml`
//! 3. `./.{name}`
//! 4. `./.{name}.toml`
//! 5. `{home}/.{name}`
//! 6. `{home}/.{name}.toml`
//! 7. `{home}/.config/{name}`
//! 8. `{home}/.config/{name}.toml`
//! 9. `{home}/.config/{name}/config`
//! 10. `{home}/.config/{name}/config.toml`
//! 11. `/etc/.config/{name}`
//! 12. `/etc/.config/{name}.toml`
//! 13. `/etc/.config/{name}/config`
//! 14. `/etc/.config/{name}/config.toml`
//!
//! When no home directory is available, entries 5 through 10 are omitted
//! entirely and the rest keep their relative order.  Path construction is
//! plain string concatenation: no normalization, no existence checks.

use vstd::prelude::*;

verus! {

/// The candidates rooted in the current working directory (entries 1-4).
pub open spec fn relative_candidates(name: Seq<char>) -> Seq<Seq<char>> {
    seq![
        name,
        name + ".toml"@,
        "."@ + name,
        "."@ + name + ".toml"@,
    ]
}

/// The candidates under the home directory (entries 5-10), or the empty
/// sequence when no home directory is available.
pub open spec fn home_candidates(name: Seq<char>, home: Option<Seq<char>>) -> Seq<Seq<char>> {
    match home {
        Some(h) => seq![
            h + "/."@ + name,
            h + "/."@ + name + ".toml"@,
            h + "/.config/"@ + name,
            h + "/.config/"@ + name + ".toml"@,
            h + "/.config/"@ + name + "/config"@,
            h + "/.config/"@ + name + "/config.toml"@,
        ],
        None => Seq::<Seq<char>>::empty(),
    }
}

/// The system-wide candidates (entries 11-14).
pub open spec fn system_candidates(name: Seq<char>) -> Seq<Seq<char>> {
    seq![
        "/etc/.config/"@ + name,
        "/etc/.config/"@ + name + ".toml"@,
        "/etc/.config/"@ + name + "/config"@,
        "/etc/.config/"@ + name + "/config.toml"@,
    ]
}

/// The full candidate list, in priority order.
pub open spec fn candidate_paths(name: Seq<char>, home: Option<Seq<char>>) -> Seq<Seq<char>> {
    relative_candidates(name) + home_candidates(name, home) + system_candidates(name)
}

/// The view of an optional home directory string.
pub open spec fn home_view(home: Option<&str>) -> Option<Seq<char>> {
    match home {
        Some(h) => Some(h@),
        None => None,
    }
}

/// With a home directory there are exactly 14 candidates; without one,
/// exactly 8: the six home entries are omitted and the remaining entries
/// keep their relative order.
pub proof fn lemma_enumeration_order(name: Seq<char>, home: Seq<char>)
    ensures
        candidate_paths(name, Some(home)).len() == 14,
        candidate_paths(name, None).len() == 8,
        forall|i: int|
            0 <= i < 4 ==> candidate_paths(name, None)[i] == candidate_paths(name, Some(home))[i],
        forall|i: int|
            4 <= i < 8 ==> candidate_paths(name, None)[i] == candidate_paths(
                name,
                Some(home),
            )[i + 6],
{
}

fn concat2(a: &str, b: &str) -> (r: String)
    ensures
        r@ == a@ + b@,
{
    let mut s = String::from_str(a);
    s.append(b);
    s
}

fn concat3(a: &str, b: &str, c: &str) -> (r: String)
    ensures
        r@ == a@ + b@ + c@,
{
    let mut s = concat2(a, b);
    s.append(c);
    s
}

fn concat4(a: &str, b: &str, c: &str, d: &str) -> (r: String)
    ensures
        r@ == a@ + b@ + c@ + d@,
{
    let mut s = concat3(a, b, c);
    s.append(d);
    s
}

/// Generate the list of paths to search for a configuration file, in
/// priority order.
///
/// This is pure string construction: no filesystem access, no
/// normalization.  `home` is the invoking user's home directory, or `None`
/// when it cannot be resolved, in which case the home entries are omitted.
pub fn path_list(name: &str, home: Option<&str>) -> (r: Vec<String>)
    ensures
        r@.len() == candidate_paths(name@, home_view(home)).len(),
        forall|i: int|
            0 <= i < r@.len() ==> r@[i]@ == candidate_paths(name@, home_view(home))[i],
{
    let ghost model = candidate_paths(name@, home_view(home));
    let mut r: Vec<String> = Vec::new();

    r.push(String::from_str(name));
    r.push(concat2(name, ".toml"));
    r.push(concat2(".", name));
    r.push(concat3(".", name, ".toml"));

    if let Some(h) = home {
        r.push(concat3(h, "/.", name));
        r.push(concat4(h, "/.", name, ".toml"));
        r.push(concat3(h, "/.config/", name));
        r.push(concat4(h, "/.config/", name, ".toml"));
        r.push(concat4(h, "/.config/", name, "/config"));
        r.push(concat4(h, "/.config/", name, "/config.toml"));
    }

    r.push(concat2("/etc/.config/", name));
    r.push(concat3("/etc/.config/", name, ".toml"));
    r.push(concat3("/etc/.config/", name, "/config"));
    r.push(concat3("/etc/.config/", name, "/config.toml"));

    proof {
        assert forall|i: int| 0 <= i < r@.len() implies r@[i]@ == model[i] by {
            assert(r@[i]@ == model[i]);
        }
    }
    r
}

} // verus!
