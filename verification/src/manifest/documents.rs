//! Reading and editing the manifests themselves: TOML documents through
//! `toml` and `toml_edit`, the npm manifest through `serde_json`. Each edit
//! parses the text, changes one place and prints the document again;
//! `toml_edit` prints a parsed document as it was written, so edits made one
//! after the other on the printed text are the edits made on one document.
use vstd::prelude::*;

use crate::text::text_contains;

verus! {

/// A text that may be missing, as plain characters.
pub open spec fn opt_view(o: Option<String>) -> Option<Seq<char>> {
    match o {
        Some(s) => Some(s@),
        None => None,
    }
}

/// A lookup that may fail in two ways, as plain characters.
pub open spec fn nested_view(o: Option<Option<String>>) -> Option<Option<Seq<char>>> {
    match o {
        Some(inner) => Some(opt_view(inner)),
        None => None,
    }
}

/// The items of an array that may be missing, each a text or not, as plain
/// characters.
pub open spec fn items_view(o: Option<Option<Vec<Option<String>>>>) -> Option<
    Option<Seq<Option<Seq<char>>>>,
> {
    match o {
        Some(Some(items)) => Some(Some(items@.map_values(|i: Option<String>| opt_view(i)))),
        Some(None) => Some(None),
        None => None,
    }
}

/// What `toml_edit` finds at `table.key` of a TOML text: `None` when the
/// text is no TOML document; `Some(None)` when there is no text there.
pub uninterp spec fn toml_text_at(text: Seq<char>, table: Seq<char>, key: Seq<char>) -> Option<
    Option<Seq<char>>,
>;

/// The TOML text with `table.key` set to a text by `toml_edit`: `None` when
/// the text is no TOML document; `Some(None)` where `toml_edit`'s indexing
/// finds no place for the key.
pub uninterp spec fn toml_text_assigned(
    text: Seq<char>,
    table: Seq<char>,
    key: Seq<char>,
    value: Seq<char>,
) -> Option<Option<Seq<char>>>;

/// The TOML text with `table.key` set to a boolean by `toml_edit`, as for a
/// text.
pub uninterp spec fn toml_flag_assigned(
    text: Seq<char>,
    table: Seq<char>,
    key: Seq<char>,
    value: bool,
) -> Option<Option<Seq<char>>>;

/// The TOML text with `table.sub.key` set to a text by `toml_edit`, as for
/// `table.key`.
pub uninterp spec fn toml_nested_text_assigned(
    text: Seq<char>,
    table: Seq<char>,
    sub: Seq<char>,
    key: Seq<char>,
    value: Seq<char>,
) -> Option<Option<Seq<char>>>;

/// The TOML text with `key` removed from the table `table` by `toml_edit`:
/// `None` when the text is no TOML document or `table` is no table;
/// `Some(None)` when the table has no such key.
pub uninterp spec fn toml_key_removed(text: Seq<char>, table: Seq<char>, key: Seq<char>) -> Option<
    Option<Seq<char>>,
>;

/// The items of the array at `table.key` of a TOML text, each a text or not:
/// `None` when the text is no TOML document; `Some(None)` when there is no
/// array there.
pub uninterp spec fn toml_array_items(text: Seq<char>, table: Seq<char>, key: Seq<char>) -> Option<
    Option<Seq<Option<Seq<char>>>>,
>;

/// The TOML text with the array at `table.key` reduced by `toml_edit` to the
/// items that `keeps_member` keeps; `None` when there is no such array.
pub uninterp spec fn toml_array_kept(text: Seq<char>, table: Seq<char>, key: Seq<char>) -> Option<
    Seq<char>,
>;

/// The TOML text with a text pushed by `toml_edit` onto the array at
/// `table.key`; `None` when there is no such array.
pub uninterp spec fn toml_array_pushed(
    text: Seq<char>,
    table: Seq<char>,
    key: Seq<char>,
    value: Seq<char>,
) -> Option<Seq<char>>;

/// The name and version that `toml` reads at `package.name` and
/// `package.version`; `None` when the text is no TOML document or either is
/// not a text.
pub uninterp spec fn toml_package_fields(text: Seq<char>) -> Option<(Seq<char>, Seq<char>)>;

/// What `serde_json` finds at `outer.key` of a JSON text: `None` when the
/// text is no JSON; `Some(None)` when there is no text there.
pub uninterp spec fn json_text_at(text: Seq<char>, outer: Seq<char>, key: Seq<char>) -> Option<
    Option<Seq<char>>,
>;

/// Whether a text is a JSON object, for `serde_json`.
pub uninterp spec fn json_is_object(text: Seq<char>) -> bool;

/// The JSON object with `key` set to a text, printed by `serde_json`'s
/// pretty printer.
pub uninterp spec fn json_text_assigned(text: Seq<char>, key: Seq<char>, value: Seq<char>) -> Seq<
    char,
>;

/// Whether a workspace member stays in the published workspace: any item
/// that is not a text naming a harmonizer or a supergraph.
pub fn keeps_member(member: Option<&str>) -> (r: bool)
    ensures
        r == match member {
            Some(m) => !crate::manifest::is_versioned_member(m@),
            None => true,
        },
{
    match member {
        Some(m) => !(text_contains(m, "harmonizer") || text_contains(m, "supergraph")),
        None => true,
    }
}

/// Whether an array item stays in the published workspace: what
/// `keeps_member` decides of it.
pub open spec fn kept_item(item: Option<Seq<char>>) -> bool {
    match item {
        Some(m) => !crate::manifest::is_versioned_member(m),
        None => true,
    }
}

/// Reads the text at `table.key` of a TOML document (`toml_edit`'s
/// `Document`, `Table::get`, `Item::get`, `Item::as_str`).
///
/// Claims only that the result is the named lookup of the three texts.
#[verifier::external_body]
pub(crate) fn read_toml_text(text: &str, table: &str, key: &str) -> (r: Option<Option<String>>)
    ensures
        nested_view(r) == toml_text_at(text@, table@, key@),
{
    let doc = text.parse::<toml_edit::Document>().ok()?;
    let found = match doc.get(table) {
        Some(t) => t.get(key),
        None => None,
    };
    Some(found.and_then(toml_edit::Item::as_str).map(String::from))
}

/// Sets `table.key` of a TOML document to a text (`toml_edit`'s indexing
/// with `Item::get_mut`, `toml_edit::value`, and printing the document).
///
/// Claims only that the result is the named edit of the four texts.
#[verifier::external_body]
pub(crate) fn assign_toml_text(text: &str, table: &str, key: &str, value: &str) -> (r: Option<
    Option<String>,
>)
    ensures
        nested_view(r) == toml_text_assigned(text@, table@, key@, value@),
{
    let mut doc = text.parse::<toml_edit::Document>().ok()?;
    let slot = match doc.as_item_mut().get_mut(table) {
        Some(t) => t.get_mut(key),
        None => None,
    };
    let Some(slot) = slot else { return Some(None) };
    *slot = toml_edit::value(value);
    Some(Some(doc.to_string()))
}

/// Sets `table.key` of a TOML document to a boolean, as `assign_toml_text`
/// does for a text.
///
/// Claims only that the result is the named edit of its arguments.
#[verifier::external_body]
pub(crate) fn assign_toml_flag(text: &str, table: &str, key: &str, value: bool) -> (r: Option<
    Option<String>,
>)
    ensures
        nested_view(r) == toml_flag_assigned(text@, table@, key@, value),
{
    let mut doc = text.parse::<toml_edit::Document>().ok()?;
    let slot = match doc.as_item_mut().get_mut(table) {
        Some(t) => t.get_mut(key),
        None => None,
    };
    let Some(slot) = slot else { return Some(None) };
    *slot = toml_edit::value(value);
    Some(Some(doc.to_string()))
}

/// Sets `table.sub.key` of a TOML document to a text, as `assign_toml_text`
/// does for `table.key`.
///
/// Claims only that the result is the named edit of the five texts.
#[verifier::external_body]
pub(crate) fn assign_nested_toml_text(
    text: &str,
    table: &str,
    sub: &str,
    key: &str,
    value: &str,
) -> (r: Option<Option<String>>)
    ensures
        nested_view(r) == toml_nested_text_assigned(text@, table@, sub@, key@, value@),
{
    let mut doc = text.parse::<toml_edit::Document>().ok()?;
    let slot = match doc.as_item_mut().get_mut(table) {
        Some(t) => match t.get_mut(sub) {
            Some(s) => s.get_mut(key),
            None => None,
        },
        None => None,
    };
    let Some(slot) = slot else { return Some(None) };
    *slot = toml_edit::value(value);
    Some(Some(doc.to_string()))
}

/// Removes `key` from the table `table` of a TOML document (`toml_edit`'s
/// indexing, `Item::as_table_mut`, `Table::remove`).
///
/// Claims only that the result is the named edit of the three texts.
#[verifier::external_body]
pub(crate) fn remove_toml_key(text: &str, table: &str, key: &str) -> (r: Option<Option<String>>)
    ensures
        nested_view(r) == toml_key_removed(text@, table@, key@),
{
    let mut doc = text.parse::<toml_edit::Document>().ok()?;
    let t = doc.as_item_mut().get_mut(table)?.as_table_mut()?;
    match t.remove(key) {
        Some(_) => Some(Some(doc.to_string())),
        None => Some(None),
    }
}

/// Reads the items of the array at `table.key` of a TOML document
/// (`toml_edit`'s `Item::as_array`, `Value::as_str`).
///
/// Claims only that the result is the named lookup of the three texts.
#[verifier::external_body]
pub(crate) fn read_toml_array(text: &str, table: &str, key: &str) -> (r: Option<
    Option<Vec<Option<String>>>,
>)
    ensures
        items_view(r) == toml_array_items(text@, table@, key@),
{
    let doc = text.parse::<toml_edit::Document>().ok()?;
    let found = match doc.get(table) {
        Some(t) => t.get(key),
        None => None,
    };
    let array = found.and_then(toml_edit::Item::as_array);
    Some(array.map(|a| a.iter().map(|v| v.as_str().map(String::from)).collect()))
}

/// Keeps, in the array at `table.key` of a TOML document, the items that
/// `keeps_member` keeps (`toml_edit`'s `Array::retain`).
///
/// Claims that the result is the named edit of the three texts, and that
/// where the document has an array there, the edit succeeds and reading the
/// printed document gives the items that `keeps_member` kept, in order
/// (`retain` keeps the order; a printed document reads back as it was).
#[verifier::external_body]
pub(crate) fn keep_toml_members(text: &str, table: &str, key: &str) -> (r: Option<String>)
    ensures
        opt_view(r) == toml_array_kept(text@, table@, key@),
        toml_array_items(text@, table@, key@) matches Some(Some(_)) ==> r is Some,
        toml_array_items(text@, table@, key@) matches Some(Some(items)) ==> toml_array_items(
            r.unwrap()@,
            table@,
            key@,
        ) == Some(Some(items.filter(|i: Option<Seq<char>>| kept_item(i)))),
{
    let mut doc = text.parse::<toml_edit::Document>().ok()?;
    let array = doc.as_item_mut().get_mut(table)?.get_mut(key)?.as_array_mut()?;
    array.retain(|v| keeps_member(v.as_str()));
    Some(doc.to_string())
}

/// Pushes a text onto the array at `table.key` of a TOML document
/// (`toml_edit`'s `Array::push`).
///
/// Claims that the result is the named edit of the four texts, and that
/// where the document has an array there, the edit succeeds and reading the
/// printed document gives its items followed by the text.
#[verifier::external_body]
pub(crate) fn push_toml_text(text: &str, table: &str, key: &str, value: &str) -> (r: Option<String>)
    ensures
        opt_view(r) == toml_array_pushed(text@, table@, key@, value@),
        toml_array_items(text@, table@, key@) matches Some(Some(_)) ==> r is Some,
        toml_array_items(text@, table@, key@) matches Some(Some(items)) ==> toml_array_items(
            r.unwrap()@,
            table@,
            key@,
        ) == Some(Some(items.push(Some(value@)))),
{
    let mut doc = text.parse::<toml_edit::Document>().ok()?;
    let array = doc.as_item_mut().get_mut(table)?.get_mut(key)?.as_array_mut()?;
    array.push(value);
    Some(doc.to_string())
}

/// Reads `package.name` and `package.version` of a manifest with `toml`
/// (`toml::Value`, `Value::get`, `Value::as_str`).
///
/// Claims only that the result is the named reading of the text.
#[verifier::external_body]
pub(crate) fn read_package_fields(contents: &str) -> (r: Option<(String, String)>)
    ensures
        match r {
            Some((name, version)) => toml_package_fields(contents@) == Some((name@, version@)),
            None => toml_package_fields(contents@) is None,
        },
{
    let value = contents.parse::<toml::Value>().ok()?;
    let package = value.get("package")?;
    let name = package.get("name")?.as_str()?;
    let version = package.get("version")?.as_str()?;
    Some((name.to_string(), version.to_string()))
}

/// Reads the text at `outer.key` of a JSON document (`serde_json::Value`
/// and its indexing, `Value::as_str`).
///
/// Claims that the result is the named lookup of the three texts, and that a
/// document with a text there is a JSON object: `serde_json`'s indexing by a
/// key finds nothing in anything else.
#[verifier::external_body]
pub(crate) fn read_json_text(text: &str, outer: &str, key: &str) -> (r: Option<Option<String>>)
    ensures
        nested_view(r) == json_text_at(text@, outer@, key@),
        r matches Some(Some(_)) ==> json_is_object(text@),
{
    let value: serde_json::Value = serde_json::from_str(text).ok()?;
    Some(value[outer][key].as_str().map(String::from))
}

/// Sets `key` of a JSON object to a text and prints it with `serde_json`'s
/// pretty printer (`Value`'s indexing, `serde_json::to_string_pretty`).
///
/// Claims that the result is the named edit of the three texts. Parsing a
/// JSON object succeeds, setting a key of an object does not panic, and
/// printing a `Value` does not fail, so nothing else is left open.
#[verifier::external_body]
pub(crate) fn assign_json_text(text: &str, key: &str, value: &str) -> (r: String)
    requires
        json_is_object(text@),
    ensures
        r@ == json_text_assigned(text@, key@, value@),
{
    let mut doc: serde_json::Value = serde_json::from_str(text).unwrap();
    doc[key] = serde_json::Value::from(value);
    serde_json::to_string_pretty(&doc).unwrap()
}

} // verus!
