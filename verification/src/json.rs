//! JSON documents as the providers return them, read through `serde_json` and queried with `jql`.
//!
//! A document stays a `serde_json::Value`. Verified code never looks inside one: it asks through
//! the functions below, and their contracts say which named fact each answer is.

use vstd::prelude::*;

verus! {

#[verifier::external_type_specification]
#[verifier::external_body]
pub struct ExJsonValue(serde_json::Value);

/// The document that `serde_json` reads out of a body, `None` where the body is not JSON.
pub uninterp spec fn document_of(body: Seq<char>) -> Option<serde_json::Value>;

/// The value that `jql` selects from a document, `None` where it selects nothing.
pub uninterp spec fn walked(document: serde_json::Value, selector: Seq<char>) -> Option<
    serde_json::Value,
>;

/// The text of a JSON string, `None` for any other kind of value.
pub uninterp spec fn text_of(value: serde_json::Value) -> Option<Seq<char>>;

/// Whether a value is a JSON number.
pub uninterp spec fn holds_number(value: serde_json::Value) -> bool;

/// A value written out as compact JSON.
pub uninterp spec fn rendered(value: serde_json::Value) -> Seq<char>;

/// The elements of a JSON array, `None` for any other kind of value.
pub uninterp spec fn items_of(value: serde_json::Value) -> Option<Seq<serde_json::Value>>;

/// The member of a JSON object under a key, `None` where the value is no object or has no such
/// key.
pub uninterp spec fn member_of(value: serde_json::Value, key: Seq<char>) -> Option<
    serde_json::Value,
>;

/// Whether `jql` may refuse the selection from a document with this message.
pub uninterp spec fn refused(
    document: serde_json::Value,
    selector: Seq<char>,
    message: Seq<char>,
) -> bool;

/// A key that a selector names as it stands between double quotes: it holds no double quote,
/// no backslash and no `[`.
pub open spec fn is_plain_key(key: Seq<char>) -> bool {
    forall|i: int|
        0 <= i < key.len() ==> #[trigger] key[i] != '"' && key[i] != '\\' && key[i] != '['
}

/// The selector of one key: the key between double quotes.
pub open spec fn key_selector(key: Seq<char>) -> Seq<char> {
    seq!['"'] + key + seq!['"']
}

/// The key that a selector names, where the selector is one plain key between double quotes
/// and nothing else.
pub open spec fn selected_key(selector: Seq<char>) -> Option<Seq<char>> {
    if selector.len() >= 2 && selector[0] == '"' && selector[selector.len() - 1] == '"'
        && is_plain_key(selector.subrange(1, selector.len() - 1)) {
        Some(selector.subrange(1, selector.len() - 1))
    } else {
        None
    }
}

/// How `jql` refuses the selection of a key that the document does not hold.
pub open spec fn node_missing(key: Seq<char>) -> Seq<char> {
    "Node \""@ + key + "\" not found on the parent element"@
}

/// A selector without `[`: it can name keys, groups, filters and lenses, but no index and no
/// range.
pub open spec fn is_keyed_selector(selector: Seq<char>) -> bool {
    forall|i: int| 0 <= i < selector.len() ==> selector[i] != '['
}

/// Calls `serde_json::from_str` for a `Value`. The outcome depends on the body alone; what the
/// parser objected to is dropped.
#[verifier::external_body]
pub(crate) fn parse_document(body: &str) -> (r: Option<serde_json::Value>)
    ensures
        r == document_of(body@),
{
    serde_json::from_str::<serde_json::Value>(body).ok()
}

/// Calls `jql::walker`. Whether it selects something, and what, depends on the document and the
/// selector alone. A refusal comes with `jql`'s message. Where the selector is one plain key,
/// the only refusal is that the document holds no such key, and its message is that of
/// `node_missing`; of any other selector the message is only said to be one that `jql` gives.
/// Index and range selectors are left out: `jql` parses their numbers with `unwrap`.
#[verifier::external_body]
pub(crate) fn walk(document: &serde_json::Value, selector: &str) -> (r: Result<
    serde_json::Value,
    String,
>)
    requires
        is_keyed_selector(selector@),
    ensures
        match r {
            Ok(value) => walked(*document, selector@) == Some(value),
            Err(message) => walked(*document, selector@) is None && refused(
                *document,
                selector@,
                message@,
            ) && (selected_key(selector@) is Some ==> message@ == node_missing(
                selected_key(selector@)->0,
            )),
        },
{
    jql::walker(document, selector)
}

/// Calls `serde_json::Value::as_str` and copies the text.
#[verifier::external_body]
pub(crate) fn as_text(value: &serde_json::Value) -> (r: Option<String>)
    ensures
        match r {
            Some(text) => text_of(*value) == Some(text@),
            None => text_of(*value) is None,
        },
{
    value.as_str().map(|text| text.to_string())
}

/// Calls `serde_json::Value::is_number`.
#[verifier::external_body]
pub(crate) fn is_number(value: &serde_json::Value) -> (r: bool)
    ensures
        r == holds_number(*value),
{
    value.is_number()
}

/// Calls `to_string` on a `serde_json::Value`, whose `Display` writes compact JSON.
#[verifier::external_body]
pub(crate) fn render(value: &serde_json::Value) -> (r: String)
    ensures
        r@ == rendered(*value),
{
    value.to_string()
}

/// Calls `serde_json::Value::as_array`.
#[verifier::external_body]
pub(crate) fn as_items(value: &serde_json::Value) -> (r: Option<&Vec<serde_json::Value>>)
    ensures
        match r {
            Some(items) => items_of(*value) == Some(items@),
            None => items_of(*value) is None,
        },
{
    value.as_array()
}

/// Calls `serde_json::Value::get` with a key.
#[verifier::external_body]
pub(crate) fn member<'a>(value: &'a serde_json::Value, key: &str) -> (r: Option<
    &'a serde_json::Value,
>)
    ensures
        match r {
            Some(found) => member_of(*value, key@) == Some(*found),
            None => member_of(*value, key@) is None,
        },
{
    value.get(key)
}

/// What the readers look at in a selected value: its text, its number as written, or neither.
#[derive(Debug, PartialEq, Eq)]
pub enum Scalar {
    Text(String),
    Number(String),
    Other,
}

/// A `Scalar` over sequences of characters.
pub enum ScalarView {
    Text(Seq<char>),
    Number(Seq<char>),
    Other,
}

impl View for Scalar {
    type V = ScalarView;

    open spec fn view(&self) -> ScalarView {
        match self {
            Scalar::Text(text) => ScalarView::Text(text@),
            Scalar::Number(text) => ScalarView::Number(text@),
            Scalar::Other => ScalarView::Other,
        }
    }
}

/// The scalar that a value holds: a string wins, then a number.
pub open spec fn scalar_of(value: serde_json::Value) -> ScalarView {
    match text_of(value) {
        Some(text) => ScalarView::Text(text),
        None => if holds_number(value) {
            ScalarView::Number(rendered(value))
        } else {
            ScalarView::Other
        },
    }
}

/// Reads a value down to the scalar it holds.
pub fn read_scalar(value: &serde_json::Value) -> (scalar: Scalar)
    ensures
        scalar@ == scalar_of(*value),
{
    match as_text(value) {
        Some(text) => Scalar::Text(text),
        None => {
            if is_number(value) {
                Scalar::Number(render(value))
            } else {
                Scalar::Other
            }
        },
    }
}

} // verus!
