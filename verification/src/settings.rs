//! The persisted settings document.
//!
//! Settings live in a JSON document (a `serde_json::Value`) read from and
//! written to a file by the application. The library decides what a
//! missing or unreadable file means, reads each setting with its default,
//! and updates settings; `serde_json` parses, holds and prints the document.
use vstd::prelude::*;
use serde_json::Value;

verus! {

#[verifier::external_type_specification]
#[verifier::external_body]
pub struct ExJsonValue(Value);

/// The kind of a JSON value, with the content of scalars that settings are
/// read from.
pub enum JsonKind {
    Null,
    Bool(bool),
    Number,
    Text(Seq<char>),
    Array,
    Object,
}

/// The members of an empty object.
pub open spec fn no_members() -> Map<Seq<char>, Value> {
    Map::empty()
}

/// The kind of a JSON value.
pub uninterp spec fn json_kind(v: Value) -> JsonKind;

/// The members of a JSON object: its keys and their values.
pub uninterp spec fn json_members(v: Value) -> Map<Seq<char>, Value>;

/// What parsing a text as JSON gives: `None` when the text is not JSON,
/// otherwise the parsed value.
pub uninterp spec fn json_parse(text: Seq<char>) -> Option<Value>;

/// The compact JSON text of a value.
pub uninterp spec fn json_print(v: Value) -> Seq<char>;

/// How deeply arrays and objects nest in a JSON value: 0 for a scalar, one
/// more than the deepest element or member for an array or object.
pub uninterp spec fn json_depth(v: Value) -> nat;

/// The parser refuses values that nest this deep or deeper.
pub open spec fn parse_depth_limit() -> nat {
    128
}

/// Two JSON values of the same shape: the same kind (with the same content
/// for booleans and strings) and, for objects, the same keys whose values
/// have the same kinds.
pub open spec fn same_shape(a: Value, b: Value) -> bool {
    &&& json_kind(a) == json_kind(b)
    &&& json_kind(a) is Object ==> {
        &&& json_members(a).dom() == json_members(b).dom()
        &&& forall|k: Seq<char>| #[trigger] json_members(a).dom().contains(k)
            ==> json_kind(json_members(a)[k]) == json_kind(json_members(b)[k])
    }
}

/// Parses a text as a JSON value (`serde_json::from_str`), `None` when the
/// text is not valid JSON. The result is named by `json_parse` of the text;
/// a parsed value nests less than 128 deep (the parser's recursion limit).
#[verifier::external_body]
fn parse_json(text: &str) -> (r: Option<Value>)
    ensures
        r == json_parse(text@),
        r matches Some(v) ==> json_depth(v) < parse_depth_limit(),
{
    serde_json::from_str::<Value>(text).ok()
}

/// Looks up a member of a JSON object (`Value::get` with a string key):
/// `None` when the value is not an object or has no such member.
#[verifier::external_body]
fn json_get<'a>(doc: &'a Value, key: &str) -> (r: Option<&'a Value>)
    ensures
        r is Some <==> (json_kind(*doc) is Object && json_members(*doc).dom().contains(key@)),
        r matches Some(m) ==> *m == json_members(*doc)[key@],
{
    doc.get(key)
}

/// The boolean held by a JSON value (`Value::as_bool`).
#[verifier::external_body]
fn json_as_bool(v: &Value) -> (r: Option<bool>)
    ensures
        r == (match json_kind(*v) {
            JsonKind::Bool(b) => Some(b),
            _ => None,
        }),
{
    v.as_bool()
}

/// The string held by a JSON value (`Value::as_str`).
#[verifier::external_body]
fn json_as_str(v: &Value) -> (r: Option<&str>)
    ensures
        r matches Some(s) ==> json_kind(*v) == JsonKind::Text(s@),
        r is None ==> !(json_kind(*v) is Text),
{
    v.as_str()
}

/// The JSON boolean `b` (`Value::from(bool)`).
#[verifier::external_body]
fn json_from_bool(b: bool) -> (v: Value)
    ensures
        json_kind(v) == JsonKind::Bool(b),
        json_depth(v) == 0,
{
    Value::from(b)
}

/// The JSON string `s` (`Value::from(&str)`).
#[verifier::external_body]
fn json_from_str(s: &str) -> (v: Value)
    ensures
        json_kind(v) == JsonKind::Text(s@),
        json_depth(v) == 0,
{
    Value::from(s)
}

/// An empty JSON object (`Value::Object(Map::new())`).
#[verifier::external_body]
fn empty_json_object() -> (v: Value)
    ensures
        json_kind(v) is Object,
        json_members(v) == no_members(),
        json_depth(v) == 1,
{
    Value::Object(serde_json::Map::new())
}

/// Whether a JSON value is null (`Value::is_null`).
#[verifier::external_body]
fn json_is_null(v: &Value) -> (r: bool)
    ensures
        r == (json_kind(*v) is Null),
{
    v.is_null()
}

/// Whether a JSON value is an object (`Value::is_object`).
#[verifier::external_body]
fn json_is_object(v: &Value) -> (r: bool)
    ensures
        r == (json_kind(*v) is Object),
{
    v.is_object()
}

/// Sets a member of a JSON object through `IndexMut<&str>`: a null value
/// first becomes an empty object; the member is inserted or replaced.
/// (On any other kind of value `IndexMut` panics, so that is excluded.)
#[verifier::external_body]
fn json_set_member(doc: &mut Value, key: &str, member: Value)
    requires
        json_kind(*old(doc)) is Null || json_kind(*old(doc)) is Object,
    ensures
        json_kind(*final(doc)) is Object,
        json_members(*final(doc)) == (if json_kind(*old(doc)) is Null {
            no_members()
        } else {
            json_members(*old(doc))
        }).insert(key@, member),
        json_depth(*final(doc)) <= (if json_depth(*old(doc)) >= json_depth(member) + 1 {
            json_depth(*old(doc))
        } else {
            json_depth(member) + 1
        }),
{
    doc[key] = member;
}

/// The compact JSON text of a value (`Value`'s `Display`, through
/// `to_string`), named by `json_print`. When that text parses again, the
/// value read has the same shape: printing escapes keys and strings so that
/// parsing restores them, and keeps each value's kind. The text parses
/// again whenever the value nests less deep than the parser's limit (the
/// printer has no limit). That numbers come back bit for bit is not
/// claimed.
#[verifier::external_body]
fn json_text(doc: &Value) -> (text: String)
    ensures
        text@ == json_print(*doc),
        json_parse(text@) matches Some(p) ==> same_shape(p, *doc),
        json_depth(*doc) < parse_depth_limit() ==> json_parse(text@) is Some,
{
    doc.to_string()
}

/// An empty JSON object.
pub open spec fn is_empty_object(v: Value) -> bool {
    json_kind(v) is Object && json_members(v) == no_members()
}

/// The settings document loaded from the settings file's text (`None` when
/// the file could not be read): the parsed JSON value, or an empty object
/// when there is no text or it is not JSON.
pub open spec fn loaded_from(text: Option<Seq<char>>, doc: Value) -> bool {
    match text {
        Some(t) => match json_parse(t) {
            Some(v) => doc == v,
            None => is_empty_object(doc),
        },
        None => is_empty_object(doc),
    }
}

/// The boolean stored under `key`, if the document is an object whose
/// member `key` is a boolean.
pub open spec fn stored_bool(doc: Value, key: Seq<char>) -> Option<bool> {
    if json_kind(doc) is Object && json_members(doc).dom().contains(key) {
        match json_kind(json_members(doc)[key]) {
            JsonKind::Bool(b) => Some(b),
            _ => None,
        }
    } else {
        None
    }
}

/// The string stored under `key`, if the document is an object whose
/// member `key` is a string.
pub open spec fn stored_text(doc: Value, key: Seq<char>) -> Option<Seq<char>> {
    if json_kind(doc) is Object && json_members(doc).dom().contains(key) {
        match json_kind(json_members(doc)[key]) {
            JsonKind::Text(t) => Some(t),
            _ => None,
        }
    } else {
        None
    }
}

/// A boolean setting with its default.
pub open spec fn bool_setting(doc: Value, key: Seq<char>, default: bool) -> bool {
    match stored_bool(doc, key) {
        Some(b) => b,
        None => default,
    }
}

/// A string setting with its default.
pub open spec fn text_setting(doc: Value, key: Seq<char>, default: Seq<char>) -> Seq<char> {
    match stored_text(doc, key) {
        Some(t) => t,
        None => default,
    }
}

/// Documents that a setting can be written into: null (which becomes an
/// object) or an object.
pub open spec fn is_writable(doc: Value) -> bool {
    json_kind(doc) is Null || json_kind(doc) is Object
}

/// `after` is `before` with the member `key` set to a value of kind `kind`,
/// every other member kept as it was.
pub open spec fn saved_into(before: Value, after: Value, key: Seq<char>, kind: JsonKind) -> bool {
    &&& json_kind(after) is Object
    &&& json_members(after).dom().contains(key)
    &&& json_kind(json_members(after)[key]) == kind
    &&& json_members(after) == (if json_kind(before) is Null {
        no_members()
    } else {
        json_members(before)
    }).insert(key, json_members(after)[key])
}

/// The settings document for the settings file's text (`None` when the file
/// could not be read): the parsed JSON value, or an empty object when there
/// is no text or the text is not valid JSON.
pub fn load_settings(file_text: Option<&str>) -> (doc: Value)
    ensures
        loaded_from(
            match file_text {
                Some(t) => Some(t@),
                None => None,
            },
            doc,
        ),
        json_depth(doc) < parse_depth_limit(),
{
    match file_text {
        Some(t) => settings_from_parse(parse_json(t)),
        None => settings_from_parse(None),
    }
}

/// The settings document for the result of parsing the settings file (`None`
/// when there was no text or it was not JSON): the parsed value, or an empty
/// object.
pub fn settings_from_parse(parsed: Option<Value>) -> (doc: Value)
    ensures
        match parsed {
            Some(v) => doc == v,
            None => is_empty_object(doc),
        },
        (parsed matches Some(v) ==> json_depth(v) < parse_depth_limit()) ==> json_depth(doc) < parse_depth_limit(),
{
    match parsed {
        Some(v) => v,
        None => empty_json_object(),
    }
}

/// The boolean setting `key` of a document, or `default` when the document
/// holds no boolean under that key.
pub fn setting_bool(doc: &Value, key: &str, default: bool) -> (r: bool)
    ensures
        r == bool_setting(*doc, key@, default),
{
    match json_get(doc, key) {
        Some(m) => match json_as_bool(m) {
            Some(b) => b,
            None => default,
        },
        None => default,
    }
}

/// The string setting `key` of a document, or `default` when the document
/// holds no string under that key.
pub fn setting_str(doc: &Value, key: &str, default: &str) -> (r: String)
    ensures
        r@ == text_setting(*doc, key@, default@),
{
    match json_get(doc, key) {
        Some(m) => match json_as_str(m) {
            Some(s) => s.to_owned(),
            None => default.to_owned(),
        },
        None => default.to_owned(),
    }
}

/// Whether a setting can be written into the document without the write
/// failing: the document is null or an object.
pub fn settings_writable(doc: &Value) -> (r: bool)
    ensures
        r == is_writable(*doc),
{
    json_is_null(doc) || json_is_object(doc)
}

/// Sets the boolean setting `key` and returns the document's new file text.
/// Loading that text again reads the saved value under `key` and every
/// other setting as before; the text parses again whenever the document
/// nested less deep than the parser's limit, as every loaded document does.
pub fn save_setting(doc: &mut Value, key: &str, value: bool) -> (text: String)
    requires
        is_writable(*old(doc)),
    ensures
        saved_into(*old(doc), *final(doc), key@, JsonKind::Bool(value)),
        text@ == json_print(*final(doc)),
        json_parse(text@) matches Some(p) ==> same_shape(p, *final(doc)),
        json_parse(text@) matches Some(p) ==> stored_bool(p, key@) == Some(value),
        json_depth(*old(doc)) < parse_depth_limit() ==> json_depth(*final(doc)) < parse_depth_limit()
            && json_parse(text@) is Some,
        json_parse(text@) matches Some(p) ==> forall|k: Seq<char>|
            k != key@ ==> #[trigger] stored_bool(p, k) == stored_bool(*old(doc), k)
                && stored_text(p, k) == stored_text(*old(doc), k),
{
    let member = json_from_bool(value);
    json_set_member(doc, key, member);
    let text = json_text(doc);
    proof {
        if let Some(p) = json_parse(text@) {
            lemma_same_shape_same_settings(p, *doc, key@);
            assert forall|k: Seq<char>| k != key@ implies #[trigger] stored_bool(p, k) == stored_bool(*old(doc), k)
                && stored_text(p, k) == stored_text(*old(doc), k) by {
                lemma_same_shape_same_settings(p, *doc, k);
            }
        }
    }
    text
}

/// Sets the string setting `key` and returns the document's new file text;
/// loading that text again reads the settings back as for `save_setting`.
pub fn save_setting_str(doc: &mut Value, key: &str, value: &str) -> (text: String)
    requires
        is_writable(*old(doc)),
    ensures
        saved_into(*old(doc), *final(doc), key@, JsonKind::Text(value@)),
        text@ == json_print(*final(doc)),
        json_parse(text@) matches Some(p) ==> same_shape(p, *final(doc)),
        json_parse(text@) matches Some(p) ==> stored_text(p, key@) == Some(value@),
        json_depth(*old(doc)) < parse_depth_limit() ==> json_depth(*final(doc)) < parse_depth_limit()
            && json_parse(text@) is Some,
        json_parse(text@) matches Some(p) ==> forall|k: Seq<char>|
            k != key@ ==> #[trigger] stored_bool(p, k) == stored_bool(*old(doc), k)
                && stored_text(p, k) == stored_text(*old(doc), k),
{
    let member = json_from_str(value);
    json_set_member(doc, key, member);
    let text = json_text(doc);
    proof {
        if let Some(p) = json_parse(text@) {
            lemma_same_shape_same_settings(p, *doc, key@);
            assert forall|k: Seq<char>| k != key@ implies #[trigger] stored_bool(p, k) == stored_bool(*old(doc), k)
                && stored_text(p, k) == stored_text(*old(doc), k) by {
                lemma_same_shape_same_settings(p, *doc, k);
            }
        }
    }
    text
}

/// Whether the keyboard overlay follows the focused text input (default off).
pub fn load_follow_input(doc: &Value) -> (r: bool)
    ensures
        r == bool_setting(*doc, "follow_input"@, false),
{
    setting_bool(doc, "follow_input", false)
}

/// Whether the dock icon is hidden (default off).
pub fn load_hide_dock_icon(doc: &Value) -> (r: bool)
    ensures
        r == bool_setting(*doc, "hide_dock_icon"@, false),
{
    setting_bool(doc, "hide_dock_icon", false)
}

/// The keyboard layout shown (default Colemak-DH).
pub fn load_layout(doc: &Value) -> (r: String)
    ensures
        r@ == text_setting(*doc, "layout"@, "colemak-dh"@),
{
    setting_str(doc, "layout", "colemak-dh")
}

/// Whether the matrix (ortholinear) layout is shown (default on).
pub fn load_matrix_layout(doc: &Value) -> (r: bool)
    ensures
        r == bool_setting(*doc, "matrix_layout"@, true),
{
    setting_bool(doc, "matrix_layout", true)
}

/// Whether the number row is shown (default off).
pub fn load_show_numbers(doc: &Value) -> (r: bool)
    ensures
        r == bool_setting(*doc, "show_numbers"@, false),
{
    setting_bool(doc, "show_numbers", false)
}

/// A saved boolean setting is what the next read of that key gives, and
/// saving leaves every other key's boolean and string settings unchanged.
pub proof fn lemma_saved_bool_read_back(before: Value, after: Value, key: Seq<char>, value: bool, other: Seq<char>, default: bool)
    requires
        is_writable(before),
        saved_into(before, after, key, JsonKind::Bool(value)),
    ensures
        bool_setting(after, key, default) == value,
        other != key ==> bool_setting(after, other, default) == bool_setting(before, other, default),
        other != key ==> stored_text(after, other) == stored_text(before, other),
{
}

/// A saved string setting is what the next read of that key gives, and
/// saving leaves every other key's boolean and string settings unchanged.
pub proof fn lemma_saved_text_read_back(before: Value, after: Value, key: Seq<char>, value: Seq<char>, other: Seq<char>, default: Seq<char>)
    requires
        is_writable(before),
        saved_into(before, after, key, JsonKind::Text(value)),
    ensures
        text_setting(after, key, default) == value,
        other != key ==> text_setting(after, other, default) == text_setting(before, other, default),
        other != key ==> stored_bool(after, other) == stored_bool(before, other),
{
}

/// With no settings file, or one that is not valid JSON, every setting
/// reads as its default.
pub proof fn lemma_missing_settings_read_defaults(text: Option<Seq<char>>, doc: Value, key: Seq<char>, default: bool, default_text: Seq<char>)
    requires
        loaded_from(text, doc),
        text is None || json_parse(text->0) is None,
    ensures
        bool_setting(doc, key, default) == default,
        text_setting(doc, key, default_text) == default_text,
        is_writable(doc),
{
}

/// A document as loaded from JSON that is not null or an object (an array,
/// a number, a string or a boolean) holds no setting: every setting reads
/// as its default.
pub proof fn lemma_non_object_reads_defaults(doc: Value, key: Seq<char>, default: bool, default_text: Seq<char>)
    requires
        !(json_kind(doc) is Object),
    ensures
        bool_setting(doc, key, default) == default,
        text_setting(doc, key, default_text) == default_text,
{
}

/// Reading a document back from its printed text keeps every setting:
/// two documents of the same shape hold the same boolean and string
/// settings.
pub proof fn lemma_same_shape_same_settings(a: Value, b: Value, key: Seq<char>)
    requires
        same_shape(a, b),
    ensures
        stored_bool(a, key) == stored_bool(b, key),
        stored_text(a, key) == stored_text(b, key),
{
}

/// A boolean (string) setting is stored under a key exactly when the
/// document is an object whose member under that key is a JSON boolean
/// (string), and it is that member's content.
pub proof fn lemma_stored_settings(doc: Value, key: Seq<char>, b: bool, t: Seq<char>)
    ensures
        stored_bool(doc, key) == Some(b) <==> (json_kind(doc) is Object && json_members(doc).dom().contains(key)
            && json_kind(json_members(doc)[key]) == JsonKind::Bool(b)),
        stored_text(doc, key) == Some(t) <==> (json_kind(doc) is Object && json_members(doc).dom().contains(key)
            && json_kind(json_members(doc)[key]) == JsonKind::Text(t)),
        bool_setting(doc, key, b) == (match stored_bool(doc, key) { Some(v) => v, None => b }),
{
}

} // verus!
