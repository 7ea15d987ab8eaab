//! The configuration document: the JSON object that is read from disk and
//! written back to it.
use vstd::prelude::*;
use vstd::string::StringExecFns;
use crate::env::{lowercase_of, to_lowercase};
use crate::value::{
    borrowed_view, copy_text, text_view, ConfigKey, ConfigValueView, RepoConfigValue,
};

verus! {

/// `serde_json::Error`, carried through as an opaque value.
#[verifier::external_type_specification]
#[verifier::external_body]
pub struct ExJsonError(serde_json::Error);

/// Why a configuration could not be loaded.
#[derive(Clone, Copy, Debug, PartialEq, Eq, Structural)]
pub enum LoadError {
    /// The document is not a JSON object, or one of the four keys holds a
    /// value that cannot be read as a string.
    MalformedInput,
}

/// Why a configuration could not be persisted.
#[derive(Clone, Copy, Debug, PartialEq, Eq, Structural)]
pub enum PersistError {
    /// The encoder gave an error. Encoding a string in memory does not
    /// fail, so no function of this library returns it; it is what a caller
    /// maps a failure of its own encoder to.
    Serialization,
}

/// The entries of the root object of the JSON document `text`, in the order
/// of the document, or `None` if `text` is not a JSON object. Each entry is a
/// key as it is spelled and how its value reads as an optional string: `None`
/// if it cannot be read as one (an array, an object), `Some(None)` if it is
/// null, `Some(Some(s))` if it is the string `s` or a scalar that prints as
/// `s`.
pub uninterp spec fn document_entries(text: Seq<char>) -> Option<
    Seq<(Seq<char>, Option<Option<Seq<char>>>)>,
>;

/// The JSON string literal for `s`: `s` escaped and within double quotes.
pub uninterp spec fn json_literal(s: Seq<char>) -> Seq<char>;

/// The view of how a value reads.
pub open spec fn reading_view(reading: Option<Option<String>>) -> Option<Option<Seq<char>>> {
    match reading {
        Some(value) => Some(text_view(value)),
        None => None,
    }
}

/// The view of a list of entries.
pub open spec fn entries_view(entries: Seq<(String, Option<Option<String>>)>) -> Seq<
    (Seq<char>, Option<Option<Seq<char>>>),
> {
    Seq::new(entries.len(), |i: int| (entries[i].0@, reading_view(entries[i].1)))
}

/// Parses `text` with `config::Format::parse` of `config::FileFormat::Json`
/// and reads each value of the root object with
/// `config::Value::try_deserialize`, as an optional string. The contract
/// names the outcome `document_entries(text)`: the call gives entries exactly
/// when that is `Some`, and then the entries that it holds, in their order.
#[verifier::external_body]
fn read_entries(text: &str) -> (r: Option<Vec<(String, Option<Option<String>>)>>)
    ensures
        r is Some <==> document_entries(text@) is Some,
        r matches Some(entries) ==> document_entries(text@) == Some(entries_view(entries@)),
{
    let table = config::Format::parse(&config::FileFormat::Json, None, text).ok()?;
    Some(
        table
            .into_iter()
            .map(|(key, value)| (key, value.try_deserialize::<Option<String>>().ok()))
            .collect(),
    )
}

/// Calls `serde_json::to_string` on a string. The call writes into a vector
/// in memory and a string always has an encoding, so it succeeds; the result
/// is the JSON string literal for `s`.
#[verifier::external_body]
fn encode_text(s: &str) -> (r: Result<String, serde_json::Error>)
    ensures
        r is Ok,
        r matches Ok(literal) ==> literal@ == json_literal(s@),
{
    serde_json::to_string(s)
}

/// The name under which `key` stands in the document.
pub open spec fn key_name(key: ConfigKey) -> Seq<char> {
    match key {
        ConfigKey::ApiUrl => "apiurl"@,
        ConfigKey::LoginUrl => "loginurl"@,
        ConfigKey::TeamSlug => "teamslug"@,
        ConfigKey::TeamId => "teamid"@,
    }
}

/// How `key` reads in a list of entries: as the last entry whose key, in
/// lowercase, is the key's name; as absent where there is no such entry.
pub open spec fn entry_field(
    entries: Seq<(Seq<char>, Option<Option<Seq<char>>>)>,
    key: ConfigKey,
) -> Option<Option<Seq<char>>>
    decreases entries.len(),
{
    if entries.len() == 0 {
        Some(None)
    } else if lowercase_of(entries.last().0) == key_name(key) {
        entries.last().1
    } else {
        entry_field(entries.drop_last(), key)
    }
}

/// The payload of a list of entries, if each of the four keys can be read.
pub open spec fn entries_value(entries: Seq<(Seq<char>, Option<Option<Seq<char>>>)>) -> Option<
    ConfigValueView,
> {
    let apiurl = entry_field(entries, ConfigKey::ApiUrl);
    let loginurl = entry_field(entries, ConfigKey::LoginUrl);
    let teamslug = entry_field(entries, ConfigKey::TeamSlug);
    let teamid = entry_field(entries, ConfigKey::TeamId);
    if apiurl is Some && loginurl is Some && teamslug is Some && teamid is Some {
        Some(
            ConfigValueView {
                apiurl: apiurl.unwrap(),
                loginurl: loginurl.unwrap(),
                teamslug: teamslug.unwrap(),
                teamid: teamid.unwrap(),
            },
        )
    } else {
        None
    }
}

/// How `key` reads in the document `text`: `None` if the document is no JSON
/// object or the value cannot be read as a string.
pub open spec fn document_field(text: Seq<char>, key: ConfigKey) -> Option<Option<Seq<char>>> {
    match document_entries(text) {
        Some(entries) => entry_field(entries, key),
        None => None,
    }
}

/// The payload that a document holds, if it can be read: a missing document
/// holds the empty payload; a present one must be a JSON object in which each
/// of the four keys can be read.
pub open spec fn document_value(document: Option<Seq<char>>) -> Option<ConfigValueView> {
    match document {
        None => Some(ConfigValueView::empty()),
        Some(text) => match document_entries(text) {
            Some(entries) => entries_value(entries),
            None => None,
        },
    }
}

/// A key that no entry spells, in any letter case, reads as absent.
pub proof fn missing_key_is_absent(
    entries: Seq<(Seq<char>, Option<Option<Seq<char>>>)>,
    key: ConfigKey,
)
    requires
        forall|i: int|
            0 <= i < entries.len() ==> lowercase_of((#[trigger] entries[i]).0) != key_name(key),
    ensures
        entry_field(entries, key) == Some(None::<Seq<char>>),
    decreases entries.len(),
{
    if entries.len() > 0 {
        missing_key_is_absent(entries.drop_last(), key);
    }
}

/// A key reads as the last entry that spells it; entries with other keys do
/// not matter.
pub proof fn last_spelling_wins(
    entries: Seq<(Seq<char>, Option<Option<Seq<char>>>)>,
    key: ConfigKey,
    i: int,
)
    requires
        0 <= i < entries.len(),
        lowercase_of(entries[i].0) == key_name(key),
        forall|j: int|
            i < j < entries.len() ==> lowercase_of((#[trigger] entries[j]).0) != key_name(key),
    ensures
        entry_field(entries, key) == entries[i].1,
    decreases entries.len(),
{
    if i < entries.len() - 1 {
        last_spelling_wins(entries.drop_last(), key, i);
    }
}

/// The name under which `key` stands in the document.
pub fn key_text(key: ConfigKey) -> (r: &'static str)
    ensures
        r@ == key_name(key),
{
    match key {
        ConfigKey::ApiUrl => "apiurl",
        ConfigKey::LoginUrl => "loginurl",
        ConfigKey::TeamSlug => "teamslug",
        ConfigKey::TeamId => "teamid",
    }
}

/// A copy of how a value reads.
fn copy_reading(reading: &Option<Option<String>>) -> (r: Option<Option<String>>)
    ensures
        reading_view(r) == reading_view(*reading),
{
    match reading {
        Some(value) => Some(copy_text(value)),
        None => None,
    }
}

/// Reads one key from the entries of a document: the last entry that spells
/// the key, in any letter case, decides. An absent key is no error; a value
/// that cannot be read as a string is.
pub fn field_of_entries(entries: &Vec<(String, Option<Option<String>>)>, key: ConfigKey) -> (r:
    Result<Option<String>, LoadError>)
    ensures
        match entry_field(entries_view(entries@), key) {
            Some(found) => r matches Ok(value) && text_view(value) == found,
            None => r == Err::<Option<String>, LoadError>(LoadError::MalformedInput),
        },
{
    let ghost all = entries_view(entries@);
    let wanted = key_text(key).to_owned();
    let mut reading: Option<Option<String>> = Some(None);
    let mut i: usize = 0;
    proof {
        assert(all.take(0) =~= Seq::empty());
    }
    while i < entries.len()
        invariant
            i <= entries.len(),
            all == entries_view(entries@),
            wanted@ == key_name(key),
            reading_view(reading) == entry_field(all.take(i as int), key),
        decreases entries.len() - i,
    {
        let entry = &entries[i];
        let lower = to_lowercase(entry.0.as_str());
        proof {
            assert(all.take(i + 1).drop_last() =~= all.take(i as int));
            assert(all.take(i + 1).last() == (entry.0@, reading_view(entry.1)));
        }
        if lower == wanted {
            reading = copy_reading(&entry.1);
        }
        i += 1;
    }
    proof {
        assert(all.take(entries.len() as int) =~= all);
    }
    match reading {
        Some(value) => Ok(value),
        None => Err(LoadError::MalformedInput),
    }
}

/// Reads the payload from the entries of a document: each of the four keys
/// by `field_of_entries`. Entries with other keys are ignored.
pub fn payload_of_entries(entries: &Vec<(String, Option<Option<String>>)>) -> (r: Result<
    RepoConfigValue,
    LoadError,
>)
    ensures
        match entries_value(entries_view(entries@)) {
            Some(value) => r matches Ok(parsed) && parsed@ == value,
            None => r == Err::<RepoConfigValue, LoadError>(LoadError::MalformedInput),
        },
{
    let apiurl = match field_of_entries(entries, ConfigKey::ApiUrl) {
        Ok(value) => value,
        Err(e) => { return Err(e); },
    };
    let loginurl = match field_of_entries(entries, ConfigKey::LoginUrl) {
        Ok(value) => value,
        Err(e) => { return Err(e); },
    };
    let teamslug = match field_of_entries(entries, ConfigKey::TeamSlug) {
        Ok(value) => value,
        Err(e) => { return Err(e); },
    };
    let teamid = match field_of_entries(entries, ConfigKey::TeamId) {
        Ok(value) => value,
        Err(e) => { return Err(e); },
    };
    Ok(RepoConfigValue { apiurl, loginurl, teamslug, teamid })
}

/// Reads one key of a document, telling a malformed document or value apart
/// from an absent key.
pub fn field_of_document(text: &str, key: ConfigKey) -> (r: Result<Option<String>, LoadError>)
    ensures
        match document_field(text@, key) {
            Some(found) => r matches Ok(value) && text_view(value) == found,
            None => r == Err::<Option<String>, LoadError>(LoadError::MalformedInput),
        },
{
    match read_entries(text) {
        Some(entries) => field_of_entries(&entries, key),
        None => Err(LoadError::MalformedInput),
    }
}

/// Reads the payload of a document. A missing document (`None`) is the empty
/// payload and no error; a document that is not a JSON object, or in which
/// one of the four keys holds a value that cannot be read as a string, is an
/// error. Keys are matched without regard to letter case; unknown keys are
/// ignored.
pub fn parse_document(document: Option<&str>) -> (r: Result<RepoConfigValue, LoadError>)
    ensures
        match document_value(borrowed_view(document)) {
            Some(value) => r matches Ok(parsed) && parsed@ == value,
            None => r == Err::<RepoConfigValue, LoadError>(LoadError::MalformedInput),
        },
{
    match document {
        None => Ok(RepoConfigValue::empty()),
        Some(text) => match read_entries(text) {
            Some(entries) => payload_of_entries(&entries),
            None => Err(LoadError::MalformedInput),
        },
    }
}

/// How a value stands in the written document: its literal, or `null` where
/// it is absent.
pub open spec fn written_value(literal: Option<Seq<char>>) -> Seq<char> {
    match literal {
        Some(s) => s,
        None => "null"@,
    }
}

/// The written document for four values that are already encoded: an object
/// of the four keys in their fixed order, one per line, indented by two
/// spaces.
pub open spec fn framed_document(
    apiurl: Option<Seq<char>>,
    loginurl: Option<Seq<char>>,
    teamslug: Option<Seq<char>>,
    teamid: Option<Seq<char>>,
) -> Seq<char> {
    "{\n  \"apiurl\": "@ + written_value(apiurl) + ",\n  \"loginurl\": "@ + written_value(
        loginurl,
    ) + ",\n  \"teamslug\": "@ + written_value(teamslug) + ",\n  \"teamid\": "@ + written_value(
        teamid,
    ) + "\n}"@
}

/// The literal of an optional string.
pub open spec fn literal_of(value: Option<Seq<char>>) -> Option<Seq<char>> {
    match value {
        Some(s) => Some(json_literal(s)),
        None => None,
    }
}

/// The document that persists `value`.
pub open spec fn written_document(value: ConfigValueView) -> Seq<char> {
    framed_document(
        literal_of(value.apiurl),
        literal_of(value.loginurl),
        literal_of(value.teamslug),
        literal_of(value.teamid),
    )
}

/// Appends one written value to `out`.
fn append_value(out: &mut String, literal: &Option<String>)
    ensures
        final(out)@ == old(out)@ + written_value(text_view(*literal)),
{
    match literal {
        Some(s) => out.append(s.as_str()),
        None => out.append("null"),
    }
}

/// Frames four encoded values as the written document.
pub fn frame_document(
    apiurl: &Option<String>,
    loginurl: &Option<String>,
    teamslug: &Option<String>,
    teamid: &Option<String>,
) -> (r: String)
    ensures
        r@ == framed_document(
            text_view(*apiurl),
            text_view(*loginurl),
            text_view(*teamslug),
            text_view(*teamid),
        ),
{
    let mut out = "{\n  \"apiurl\": ".to_owned();
    append_value(&mut out, apiurl);
    out.append(",\n  \"loginurl\": ");
    append_value(&mut out, loginurl);
    out.append(",\n  \"teamslug\": ");
    append_value(&mut out, teamslug);
    out.append(",\n  \"teamid\": ");
    append_value(&mut out, teamid);
    out.append("\n}");
    out
}

/// Encodes an optional string as a JSON literal; an absent one stays absent.
pub fn encode_value(value: &Option<String>) -> (r: Result<Option<String>, PersistError>)
    ensures
        r matches Ok(literal) && text_view(literal) == literal_of(text_view(*value)),
{
    match value {
        None => Ok(None),
        Some(s) => match encode_text(s.as_str()) {
            Ok(literal) => Ok(Some(literal)),
            Err(_) => Err(PersistError::Serialization),
        },
    }
}

/// Renders `value` as the document that persists it.
pub fn render_document(value: &RepoConfigValue) -> (r: Result<String, PersistError>)
    ensures
        r matches Ok(text) && text@ == written_document(value@),
{
    let apiurl = match encode_value(&value.apiurl) {
        Ok(literal) => literal,
        Err(e) => { return Err(e); },
    };
    let loginurl = match encode_value(&value.loginurl) {
        Ok(literal) => literal,
        Err(e) => { return Err(e); },
    };
    let teamslug = match encode_value(&value.teamslug) {
        Ok(literal) => literal,
        Err(e) => { return Err(e); },
    };
    let teamid = match encode_value(&value.teamid) {
        Ok(literal) => literal,
        Err(e) => { return Err(e); },
    };
    Ok(frame_document(&apiurl, &loginurl, &teamslug, &teamid))
}

} // verus!
