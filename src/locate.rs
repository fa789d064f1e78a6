//! Discovery of the nearest settings file among a path's ancestors.
use vstd::prelude::*;

use crate::options::texts;

verus! {

/// The ancestors of a path, as `std::path::Path::ancestors` lists them.
pub uninterp spec fn ancestors_of(path: Seq<char>) -> Seq<Seq<char>>;

/// A directory joined with a relative name, as `std::path::Path::join` does it.
pub uninterp spec fn joined(dir: Seq<char>, name: Seq<char>) -> Seq<char>;

/// Relies on `Path::ancestors`: the path itself first, then each parent in
/// turn up to the root.
#[verifier::external_body]
fn path_ancestors(path: &str) -> (r: Vec<String>)
    ensures
        texts(r@) == ancestors_of(path@),
        r@.len() >= 1,
        r@[0]@ == path@,
{
    std::path::Path::new(path).ancestors().map(|a| a.to_string_lossy().into_owned()).collect()
}

/// Relies on `Path::join`: the path of `name` inside `dir`.
#[verifier::external_body]
fn path_join(dir: &str, name: &str) -> (r: String)
    ensures
        r@ == joined(dir@, name@),
{
    std::path::Path::new(dir).join(name).to_string_lossy().into_owned()
}

/// Relies on `Path::is_file`: whether a regular file stands at the path at
/// the time of the call. That depends on the disk, so nothing is promised.
#[verifier::external_body]
fn is_regular_file(path: &str) -> (r: bool) {
    std::path::Path::new(path).is_file()
}

/// The well-known name of the settings file.
pub open spec fn settings_file_name() -> Seq<char> {
    "pyproject.toml"@
}

/// Where a settings file may stand for a starting path, nearest first: one
/// place in each ancestor, the starting path itself included.
pub open spec fn candidates_of(start: Seq<char>) -> Seq<Seq<char>> {
    ancestors_of(start).map_values(|d: Seq<char>| joined(d, settings_file_name()))
}

/// The first candidate found present, probing in order; candidates past the
/// end of either sequence are not considered.
pub open spec fn first_present(candidates: Seq<Seq<char>>, present: Seq<bool>) -> Option<Seq<char>>
    decreases present.len(),
{
    if present.len() == 0 || candidates.len() == 0 {
        None
    } else if present[0] {
        Some(candidates[0])
    } else {
        first_present(candidates.drop_first(), present.drop_first())
    }
}

/// The view of an optional string.
pub open spec fn text_opt(o: Option<String>) -> Option<Seq<char>> {
    match o {
        Some(s) => Some(s@),
        None => None,
    }
}

/// The places where a settings file may stand for `start_path`, nearest first.
pub fn settings_candidates(start_path: &str) -> (r: Vec<String>)
    ensures
        texts(r@) == candidates_of(start_path@),
        r@.len() >= 1,
        r@[0]@ == joined(start_path@, settings_file_name()),
{
    let dirs = path_ancestors(start_path);
    let mut out: Vec<String> = Vec::new();
    let mut i: usize = 0;
    while i < dirs.len()
        invariant
            0 <= i <= dirs@.len(),
            dirs@.len() >= 1,
            dirs@[0]@ == start_path@,
            texts(dirs@) == ancestors_of(start_path@),
            out@.len() == i,
            forall|j: int|
                0 <= j < i ==> #[trigger] out@[j]@ == joined(dirs@[j]@, settings_file_name()),
        decreases dirs@.len() - i,
    {
        out.push(path_join(dirs[i].as_str(), "pyproject.toml"));
        i += 1;
    }
    assert(texts(out@) =~= candidates_of(start_path@));
    out
}

/// Picks the nearest candidate whose probe found a settings file.
pub fn nearest_settings(candidates: &Vec<String>, present: &Vec<bool>) -> (r: Option<String>)
    ensures
        text_opt(r) == first_present(texts(candidates@), present@),
{
    let n: usize = if candidates.len() < present.len() {
        candidates.len()
    } else {
        present.len()
    };
    let ghost c = texts(candidates@);
    let ghost p = present@;
    assert(c.subrange(0, c.len() as int) =~= c);
    assert(p.subrange(0, p.len() as int) =~= p);
    let mut i: usize = 0;
    while i < n
        invariant
            c == texts(candidates@),
            p == present@,
            n <= c.len(),
            n <= p.len(),
            n == c.len() || n == p.len(),
            0 <= i <= n,
            first_present(c, p) == first_present(
                c.subrange(i as int, c.len() as int),
                p.subrange(i as int, p.len() as int),
            ),
        decreases n - i,
    {
        assert(c.subrange(i as int, c.len() as int).drop_first() =~= c.subrange(
            i + 1,
            c.len() as int,
        ));
        assert(p.subrange(i as int, p.len() as int).drop_first() =~= p.subrange(
            i + 1,
            p.len() as int,
        ));
        if present[i] {
            return Some(candidates[i].clone());
        }
        i += 1;
    }
    None
}

/// A settings file present at least once among the probes makes the choice
/// a candidate.
pub proof fn lemma_present_is_found(candidates: Seq<Seq<char>>, present: Seq<bool>, k: int)
    requires
        0 <= k < present.len(),
        k < candidates.len(),
        present[k],
    ensures
        first_present(candidates, present) is Some,
    decreases present.len(),
{
    if !present[0] {
        lemma_present_is_found(candidates.drop_first(), present.drop_first(), k - 1);
    }
}

/// Finds the nearest `pyproject.toml` at or above `start_path`: the
/// candidates are probed nearest first, and the first one that is a regular
/// file is returned. Absence is reported only after every candidate was
/// probed.
pub fn find_pyproject_toml(start_path: &str) -> (r: Option<String>)
    ensures
        exists|probed: Seq<bool>|
            probed.len() <= candidates_of(start_path@).len() && (r is None ==> probed.len()
                == candidates_of(start_path@).len()) && text_opt(r) == first_present(
                candidates_of(start_path@),
                probed,
            ),
{
    let candidates = settings_candidates(start_path);
    let mut present: Vec<bool> = Vec::new();
    let mut found = false;
    while !found && present.len() < candidates.len()
        invariant
            present@.len() <= candidates@.len(),
            found ==> present@.len() > 0 && present@[present@.len() - 1],
        decreases candidates@.len() - present@.len(),
    {
        let hit = is_regular_file(candidates[present.len()].as_str());
        present.push(hit);
        found = hit;
    }
    let r = nearest_settings(&candidates, &present);
    proof {
        if found {
            lemma_present_is_found(texts(candidates@), present@, present@.len() - 1);
        }
    }
    r
}

} // verus!
