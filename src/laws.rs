//! Properties of resolution as a whole.
use vstd::prelude::*;

use crate::document::{lookup, section_fields, settings_of, tool_section, toml_document, TomlValue};
use crate::locate::first_present;
use crate::options::{default_settings, merged, nothing_written};
use crate::profile::profile_of;
use crate::resolve::{document_outcome, resolution, Failure};

verus! {

/// Where no candidate holds a settings file, none is chosen, and resolving
/// without a settings file fails with `FileNotFound`.
pub proof fn lemma_no_settings_file_not_found(candidates: Seq<Seq<char>>, present: Seq<bool>)
    requires
        forall|i: int| 0 <= i < present.len() ==> !present[i],
    ensures
        first_present(candidates, present) is None,
        resolution(None) == Err::<crate::options::Settings, Failure>(Failure::FileNotFound),
    decreases present.len(),
{
    if present.len() > 0 && candidates.len() > 0 {
        assert(!present[0]);
        lemma_no_settings_file_not_found(candidates.drop_first(), present.drop_first());
    }
}

/// The nearest candidate holding a settings file wins over every farther
/// one: where the probes before it found nothing, it is the one chosen.
pub proof fn lemma_nearest_settings_wins(candidates: Seq<Seq<char>>, present: Seq<bool>, i: int)
    requires
        0 <= i < present.len(),
        i < candidates.len(),
        present[i],
        forall|j: int| 0 <= j < i ==> !present[j],
    ensures
        first_present(candidates, present) == Some(candidates[i]),
    decreases i,
{
    if i > 0 {
        assert(!present[0]);
        lemma_nearest_settings_wins(candidates.drop_first(), present.drop_first(), i - 1);
    }
}

/// A settings file in the starting directory is chosen over one in its
/// parent.
pub proof fn lemma_immediate_directory_wins(candidates: Seq<Seq<char>>, present: Seq<bool>)
    requires
        candidates.len() >= 2,
        present.len() >= 2,
        present[0],
        present[1],
    ensures
        first_present(candidates, present) == Some(candidates[0]),
{
}

/// A document whose `tool.djangofmt` table is empty or absent resolves to
/// exactly the built-in defaults.
pub proof fn lemma_empty_section_defaults(path: Seq<char>, doc: TomlValue)
    requires
        tool_section(doc) == Ok::<Seq<(String, TomlValue)>, Seq<char>>(Seq::empty()),
    ensures
        settings_of(doc) == Ok::<crate::options::Settings, Seq<char>>(default_settings()),
        document_outcome(path, Ok(doc)) == Ok::<crate::options::Settings, Failure>(
            default_settings(),
        ),
{
    let empty = Seq::<(String, TomlValue)>::empty();
    assert(section_fields(empty) == Ok::<crate::options::RawView, Seq<char>>(nothing_written()));
    assert(merged(nothing_written()) == default_settings());
}

/// A `profile` that names neither dialect makes resolution fail with a
/// `ParseError` naming the file; it never falls back to the default.
pub proof fn lemma_unknown_profile_rejected(
    path: Seq<char>,
    doc: TomlValue,
    section: Seq<(String, TomlValue)>,
    token: String,
)
    requires
        tool_section(doc) == Ok::<Seq<(String, TomlValue)>, Seq<char>>(section),
        lookup(section, "profile"@) == Some(TomlValue::Text(token)),
        profile_of(token@) is None,
    ensures
        settings_of(doc) is Err,
        document_outcome(path, Ok(doc)) matches Err(Failure::ParseError { path: p, .. })
            && p == path,
{
}

/// Text that is not valid TOML makes resolution fail with a `ParseError`
/// that names the file and carries the parser's message.
pub proof fn lemma_malformed_text_parse_error(path: Seq<char>, text: Seq<char>)
    requires
        toml_document(text) is Err,
    ensures
        resolution(Some((path, Ok(text)))) == Err::<crate::options::Settings, Failure>(
            Failure::ParseError { path, cause: toml_document(text)->Err_0 },
        ),
{
}

/// Resolution depends on nothing but the file found and what reading it
/// gave: resolving twice against the same files gives the same result.
pub proof fn lemma_resolution_repeatable(
    first: Option<(Seq<char>, Result<Seq<char>, Seq<char>>)>,
    second: Option<(Seq<char>, Result<Seq<char>, Seq<char>>)>,
)
    requires
        first == second,
    ensures
        resolution(first) == resolution(second),
{
}

} // verus!
