//! A settings document as plain values, and the decoding of its
//! `tool.djangofmt` table.
use vstd::prelude::*;

use crate::options::{merged, texts, DjangoFmtOptions, RawSettings, RawView, Settings};
use crate::profile::{profile_of, Profile};

verus! {

/// A TOML value, holding as plain values what decoding reads: strings,
/// integers, arrays and tables (entries in document order). Floats,
/// booleans and date-times are kept only as `Other`.
#[derive(PartialEq, Eq, Debug)]
pub enum TomlValue {
    Text(String),
    Integer(i64),
    List(Vec<TomlValue>),
    Table(Vec<(String, TomlValue)>),
    Other,
}

/// The `toml` crate's value type, opaque here; it is only handed to the
/// converter below.
#[verifier::external_type_specification]
#[verifier::external_body]
pub struct ExTomlValue(toml::Value);

/// What the `toml` crate makes of a text: the document as a table, or the
/// message of its parse error.
pub uninterp spec fn toml_document(text: Seq<char>) -> Result<TomlValue, Seq<char>>;

/// Relies on `toml::from_str` into a `toml::Table`: the text parsed as a
/// TOML document, whose top level is a table, or the parse error's message.
#[verifier::external_body]
fn parse_toml(text: &str) -> (r: Result<TomlValue, String>)
    ensures
        match r {
            Ok(doc) => toml_document(text@) == Ok::<TomlValue, Seq<char>>(doc)
                && doc is Table,
            Err(cause) => toml_document(text@) == Err::<TomlValue, Seq<char>>(cause@),
        },
{
    match toml::from_str::<toml::Table>(text) {
        Ok(table) => Ok(toml_item(toml::Value::Table(table))),
        Err(e) => Err(e.to_string()),
    }
}

/// Relies on the variants of `toml::Value`: each is carried over one for
/// one, strings, integers, arrays and tables with their contents.
#[verifier::external_body]
fn toml_item(v: toml::Value) -> TomlValue {
    match v {
        toml::Value::String(s) => TomlValue::Text(s),
        toml::Value::Integer(n) => TomlValue::Integer(n),
        toml::Value::Float(_) => TomlValue::Other,
        toml::Value::Boolean(_) => TomlValue::Other,
        toml::Value::Datetime(_) => TomlValue::Other,
        toml::Value::Array(items) => TomlValue::List(items.into_iter().map(toml_item).collect()),
        toml::Value::Table(t) => TomlValue::Table(t.into_iter().map(|(k, x)| (k, toml_item(x))).collect()),
    }
}

/// Parses a settings text into a document.
pub fn parse_document(text: &str) -> (r: Result<TomlValue, String>)
    ensures
        match r {
            Ok(doc) => toml_document(text@) == Ok::<TomlValue, Seq<char>>(doc),
            Err(cause) => toml_document(text@) == Err::<TomlValue, Seq<char>>(cause@),
        },
{
    parse_toml(text)
}

/// The value of the first entry with the given key.
pub open spec fn lookup(entries: Seq<(String, TomlValue)>, key: Seq<char>) -> Option<TomlValue>
    decreases entries.len(),
{
    if entries.len() == 0 {
        None
    } else if entries[0].0@ == key {
        Some(entries[0].1)
    } else {
        lookup(entries.drop_first(), key)
    }
}

/// Finds the value of the first entry with the given key.
pub fn entry<'a>(entries: &'a Vec<(String, TomlValue)>, key: &str) -> (r: Option<&'a TomlValue>)
    ensures
        match r {
            Some(v) => lookup(entries@, key@) == Some(*v),
            None => lookup(entries@, key@) is None,
        },
{
    let k = String::from_str(key);
    let len = entries.len();
    let mut i: usize = 0;
    assert(entries@.subrange(0, len as int) =~= entries@);
    while i < len
        invariant
            len == entries@.len(),
            0 <= i <= len,
            k@ == key@,
            lookup(entries@, key@) == lookup(entries@.subrange(i as int, len as int), key@),
        decreases len - i,
    {
        assert(entries@.subrange(i as int, len as int).drop_first() =~= entries@.subrange(
            i + 1,
            len as int,
        ));
        if entries[i].0 == k {
            return Some(&entries[i].1);
        }
        i += 1;
    }
    None
}

/// A width: an integer from 1 up to the largest `usize`.
pub open spec fn width_value(v: TomlValue) -> Option<usize> {
    match v {
        TomlValue::Integer(n) => if 1 <= n && n <= usize::MAX {
            Some(n as usize)
        } else {
            None
        },
        _ => None,
    }
}

/// The characters of a string value.
pub open spec fn text_value(v: TomlValue) -> Seq<char> {
    match v {
        TomlValue::Text(s) => s@,
        _ => Seq::empty(),
    }
}

/// A list of block names: an array whose items are all strings, in order.
pub open spec fn blocks_value(v: TomlValue) -> Option<Seq<Seq<char>>> {
    match v {
        TomlValue::List(items) => if forall|i: int| 0 <= i < items@.len() ==> items@[i] is Text {
            Some(items@.map_values(|x: TomlValue| text_value(x)))
        } else {
            None
        },
        _ => None,
    }
}

/// A profile: a string naming one of the two dialects.
pub open spec fn profile_value(v: TomlValue) -> Option<Profile> {
    match v {
        TomlValue::Text(s) => profile_of(s@),
        _ => None,
    }
}

/// Reads an optional field: absent gives `Ok(None)`, a value in the
/// field's domain `Ok(Some(..))`, any other value `Err(())`.
pub open spec fn field<T>(v: Option<TomlValue>, decode: spec_fn(TomlValue) -> Option<T>) -> Result<
    Option<T>,
    (),
> {
    match v {
        None => Ok(None),
        Some(x) => match decode(x) {
            Some(d) => Ok(Some(d)),
            None => Err(()),
        },
    }
}

/// The cause reported for a field whose value is outside its domain.
pub open spec fn invalid_field(key: Seq<char>) -> Seq<char> {
    "invalid value for tool.djangofmt."@ + key
}

/// The cause reported for a value that should have been a table.
pub open spec fn not_a_table(key: Seq<char>) -> Seq<char> {
    "not a table: "@ + key
}

/// The recognised fields of a `tool.djangofmt` table; other keys are
/// ignored. The first field (in the order below) holding a value outside
/// its domain is reported.
pub open spec fn section_fields(section: Seq<(String, TomlValue)>) -> Result<RawView, Seq<char>> {
    let ll = field(lookup(section, "line_length"@), |v: TomlValue| width_value(v));
    let iw = field(lookup(section, "indent_width"@), |v: TomlValue| width_value(v));
    let cb = field(lookup(section, "custom_blocks"@), |v: TomlValue| blocks_value(v));
    let pr = field(lookup(section, "profile"@), |v: TomlValue| profile_value(v));
    if ll is Err {
        Err(invalid_field("line_length"@))
    } else if iw is Err {
        Err(invalid_field("indent_width"@))
    } else if cb is Err {
        Err(invalid_field("custom_blocks"@))
    } else if pr is Err {
        Err(invalid_field("profile"@))
    } else {
        Ok(
            RawView {
                line_length: ll->Ok_0,
                indent_width: iw->Ok_0,
                custom_blocks: cb->Ok_0,
                profile: pr->Ok_0,
            },
        )
    }
}

/// The table that holds the formatter's settings, `tool.djangofmt`: empty
/// where it or `tool` is absent, an error where either is not a table.
pub open spec fn tool_section(doc: TomlValue) -> Result<Seq<(String, TomlValue)>, Seq<char>> {
    match doc {
        TomlValue::Table(top) => match lookup(top@, "tool"@) {
            None => Ok(Seq::empty()),
            Some(TomlValue::Table(tool)) => match lookup(tool@, "djangofmt"@) {
                None => Ok(Seq::empty()),
                Some(TomlValue::Table(section)) => Ok(section@),
                Some(_) => Err(not_a_table("tool.djangofmt"@)),
            },
            Some(_) => Err(not_a_table("tool"@)),
        },
        _ => Err(not_a_table("the document"@)),
    }
}

/// The configuration that a document resolves to, or the cause of its
/// rejection.
pub open spec fn settings_of(doc: TomlValue) -> Result<Settings, Seq<char>> {
    match tool_section(doc) {
        Err(cause) => Err(cause),
        Ok(section) => match section_fields(section) {
            Err(cause) => Err(cause),
            Ok(raw) => Ok(merged(raw)),
        },
    }
}

fn invalid_field_message(key: &str) -> (r: String)
    ensures
        r@ == invalid_field(key@),
{
    String::from_str("invalid value for tool.djangofmt.").concat(key)
}

/// Reads a width field of the section.
pub fn width_field(section: &Vec<(String, TomlValue)>, key: &str) -> (r: Result<Option<usize>, String>)
    ensures
        match r {
            Ok(w) => field(lookup(section@, key@), |v: TomlValue| width_value(v)) == Ok::<
                Option<usize>,
                (),
            >(w),
            Err(cause) => field(lookup(section@, key@), |v: TomlValue| width_value(v)) is Err
                && cause@ == invalid_field(key@),
        },
{
    match entry(section, key) {
        None => Ok(None),
        Some(TomlValue::Integer(n)) => {
            let n: i64 = *n;
            if 1 <= n && (n as u128) <= (usize::MAX as u128) {
                Ok(Some(n as usize))
            } else {
                Err(invalid_field_message(key))
            }
        },
        Some(_) => Err(invalid_field_message(key)),
    }
}

/// Reads the `custom_blocks` field of the section, keeping the order.
pub fn blocks_field(section: &Vec<(String, TomlValue)>) -> (r: Result<Option<Vec<String>>, String>)
    ensures
        match r {
            Ok(Some(b)) => field(lookup(section@, "custom_blocks"@), |v: TomlValue| blocks_value(v))
                == Ok::<Option<Seq<Seq<char>>>, ()>(Some(texts(b@))),
            Ok(None) => field(lookup(section@, "custom_blocks"@), |v: TomlValue| blocks_value(v))
                == Ok::<Option<Seq<Seq<char>>>, ()>(None),
            Err(cause) => field(lookup(section@, "custom_blocks"@), |v: TomlValue| blocks_value(v))
                is Err && cause@ == invalid_field("custom_blocks"@),
        },
{
    match entry(section, "custom_blocks") {
        None => Ok(None),
        Some(TomlValue::List(items)) => {
            let mut out: Vec<String> = Vec::new();
            let mut i: usize = 0;
            while i < items.len()
                invariant
                    lookup(section@, "custom_blocks"@) == Some(TomlValue::List(*items)),
                    0 <= i <= items@.len(),
                    forall|j: int| 0 <= j < i ==> items@[j] is Text,
                    texts(out@) =~= items@.subrange(0, i as int).map_values(
                        |x: TomlValue| text_value(x),
                    ),
                decreases items@.len() - i,
            {
                match &items[i] {
                    TomlValue::Text(s) => {
                        let ghost before = out@;
                        out.push(s.clone());
                        assert(texts(out@) =~= texts(before).push(s@));
                    },
                    _ => {
                        assert(!(items@[i as int] is Text));
                        assert(blocks_value(TomlValue::List(*items)) is None);
                        return Err(invalid_field_message("custom_blocks"));
                    },
                }
                assert(items@.subrange(0, i + 1) =~= items@.subrange(0, i as int).push(items@[i as int]));
                i += 1;
            }
            assert(items@.subrange(0, i as int) =~= items@);
            Ok(Some(out))
        },
        Some(_) => Err(invalid_field_message("custom_blocks")),
    }
}

/// Reads the `profile` field of the section; only the exact tokens
/// `django` and `jinja` are accepted.
pub fn profile_field(section: &Vec<(String, TomlValue)>) -> (r: Result<Option<Profile>, String>)
    ensures
        match r {
            Ok(p) => field(lookup(section@, "profile"@), |v: TomlValue| profile_value(v)) == Ok::<
                Option<Profile>,
                (),
            >(p),
            Err(cause) => field(lookup(section@, "profile"@), |v: TomlValue| profile_value(v))
                is Err && cause@ == invalid_field("profile"@),
        },
{
    match entry(section, "profile") {
        None => Ok(None),
        Some(TomlValue::Text(s)) => match Profile::from_token(s.as_str()) {
            Some(p) => Ok(Some(p)),
            None => Err(invalid_field_message("profile")),
        },
        Some(_) => Err(invalid_field_message("profile")),
    }
}

/// Reads the recognised fields of a `tool.djangofmt` table.
pub fn read_section_fields(section: &Vec<(String, TomlValue)>) -> (r: Result<RawSettings, String>)
    ensures
        match r {
            Ok(raw) => section_fields(section@) == Ok::<RawView, Seq<char>>(raw@),
            Err(cause) => section_fields(section@) == Err::<RawView, Seq<char>>(cause@),
        },
{
    let line_length = match width_field(section, "line_length") {
        Ok(w) => w,
        Err(cause) => return Err(cause),
    };
    let indent_width = match width_field(section, "indent_width") {
        Ok(w) => w,
        Err(cause) => return Err(cause),
    };
    let custom_blocks = match blocks_field(section) {
        Ok(b) => b,
        Err(cause) => return Err(cause),
    };
    let profile = match profile_field(section) {
        Ok(p) => p,
        Err(cause) => return Err(cause),
    };
    Ok(RawSettings { line_length, indent_width, custom_blocks, profile })
}

fn not_a_table_message(key: &str) -> (r: String)
    ensures
        r@ == not_a_table(key@),
{
    String::from_str("not a table: ").concat(key)
}

/// Resolves a parsed document: finds `tool.djangofmt`, reads its fields and
/// merges them over the defaults.
pub fn settings_from_document(doc: &TomlValue) -> (r: Result<DjangoFmtOptions, String>)
    ensures
        match r {
            Ok(o) => settings_of(*doc) == Ok::<Settings, Seq<char>>(o@),
            Err(cause) => settings_of(*doc) == Err::<Settings, Seq<char>>(cause@),
        },
{
    let empty: Vec<(String, TomlValue)> = Vec::new();
    let section: &Vec<(String, TomlValue)> = match doc {
        TomlValue::Table(top) => match entry(top, "tool") {
            None => &empty,
            Some(TomlValue::Table(tool)) => match entry(tool, "djangofmt") {
                None => &empty,
                Some(TomlValue::Table(section)) => section,
                Some(_) => return Err(not_a_table_message("tool.djangofmt")),
            },
            Some(_) => return Err(not_a_table_message("tool")),
        },
        _ => return Err(not_a_table_message("the document")),
    };
    assert(tool_section(*doc) == Ok::<Seq<(String, TomlValue)>, Seq<char>>(section@));
    match read_section_fields(section) {
        Ok(raw) => Ok(DjangoFmtOptions::from_raw(raw)),
        Err(cause) => Err(cause),
    }
}

} // verus!
