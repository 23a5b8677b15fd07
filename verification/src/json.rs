//! JSON texts, read and written through `serde_json`.

use crate::text::{pair_seq, text_seq};
use crate::types::opt_text;
use vstd::prelude::*;

verus! {

/// One element of a JSON array, as far as this library reads it.
#[derive(Debug, PartialEq, Eq)]
pub enum JsonItem {
    /// A JSON string, with its contents.
    Text(String),
    /// A JSON number, in the notation `serde_json` prints it in.
    Number(String),
    /// Anything else: null, a boolean, an array or an object.
    Other,
}

/// Mathematical value of a [`JsonItem`].
pub enum JsonItemView {
    Text(Seq<char>),
    Number(Seq<char>),
    Other,
}

impl View for JsonItem {
    type V = JsonItemView;

    open spec fn view(&self) -> JsonItemView {
        match self {
            JsonItem::Text(t) => JsonItemView::Text(t@),
            JsonItem::Number(n) => JsonItemView::Number(n@),
            JsonItem::Other => JsonItemView::Other,
        }
    }
}

/// Values of the items of a sequence.
pub open spec fn items_view(items: Seq<JsonItem>) -> Seq<JsonItemView> {
    Seq::new(items.len(), |i: int| items[i]@)
}

/// Value of an optional list of items.
pub open spec fn opt_items_view(items: Option<Vec<JsonItem>>) -> Option<Seq<JsonItemView>> {
    match items {
        Some(v) => Some(items_view(v@)),
        None => None,
    }
}

/// Value of the result of a member lookup.
pub open spec fn opt_opt_text(r: Option<Option<String>>) -> Option<Option<Seq<char>>> {
    match r {
        Some(t) => Some(opt_text(t)),
        None => None,
    }
}

/// The elements of the JSON array that `text` holds, as
/// `serde_json::from_str` reads them; `None` where `text` is not a JSON array.
pub uninterp spec fn json_array_items(text: Seq<char>) -> Option<Seq<JsonItemView>>;

/// What `serde_json` finds under `key` in the JSON text `text`: `None` where
/// `text` is not JSON at all, `Some(None)` where it is but holds no string
/// member of that name, `Some(Some(s))` where the member is the string `s`.
pub uninterp spec fn json_member_text(text: Seq<char>, key: Seq<char>) -> Option<Option<Seq<char>>>;

/// The JSON text that `serde_json::to_string` writes for the object made of
/// the given members, each value a JSON string.
pub uninterp spec fn json_object_text(members: Seq<(Seq<char>, Seq<char>)>) -> Option<Seq<char>>;

/// The JSON text that `serde_json::to_string` writes for the array made of
/// the given strings.
pub uninterp spec fn json_text_array(items: Seq<Seq<char>>) -> Option<Seq<char>>;

/// Trusted: `serde_json::from_str` at the type `Vec<serde_json::Value>`, each
/// element then turned into a [`JsonItem`] by its variant (a number through
/// its `to_string`). The contract only gives the result its name.
#[verifier::external_body]
pub(crate) fn read_json_array(text: &str) -> (r: Option<Vec<JsonItem>>)
    ensures
        opt_items_view(r) == json_array_items(text@),
{
    let values = serde_json::from_str::<Vec<serde_json::Value>>(text).ok()?;
    Some(values.into_iter().map(|v| match v {
        serde_json::Value::String(t) => JsonItem::Text(t),
        serde_json::Value::Number(n) => JsonItem::Number(n.to_string()),
        serde_json::Value::Null => JsonItem::Other,
        serde_json::Value::Bool(_) => JsonItem::Other,
        serde_json::Value::Array(_) => JsonItem::Other,
        serde_json::Value::Object(_) => JsonItem::Other,
    }).collect())
}

/// Trusted: `serde_json::from_str` at the type `serde_json::Value`, then the
/// value indexed by `key` and read with `as_str`. The contract only gives the
/// result its name.
#[verifier::external_body]
pub(crate) fn read_json_member(text: &str, key: &str) -> (r: Option<Option<String>>)
    ensures
        opt_opt_text(r) == json_member_text(text@, key@),
{
    let value = serde_json::from_str::<serde_json::Value>(text).ok()?;
    Some(value[key].as_str().map(|t| t.to_string()))
}

/// Trusted: builds a `serde_json::Map` that holds each member as a JSON
/// string and writes it with `serde_json::to_string`. The contract only gives
/// the result its name.
#[verifier::external_body]
pub(crate) fn write_json_object(members: &Vec<(String, String)>) -> (r: Option<String>)
    ensures
        opt_text(r) == json_object_text(pair_seq(members@)),
{
    let mut map = serde_json::Map::new();
    for (name, value) in members.iter() {
        map.insert(name.clone(), serde_json::Value::String(value.clone()));
    }
    serde_json::to_string(&serde_json::Value::Object(map)).ok()
}

/// Trusted: `serde_json::to_string` at the type `Vec<String>`. The contract
/// only gives the result its name.
#[verifier::external_body]
pub(crate) fn write_json_array(items: &Vec<String>) -> (r: Option<String>)
    ensures
        opt_text(r) == json_text_array(text_seq(items@)),
{
    serde_json::to_string(items).ok()
}

/// Writes the JSON array whose elements are the given strings; `None` where
/// the writer fails.
pub fn array_text(items: &Vec<String>) -> (r: Option<String>)
    ensures
        opt_text(r) == json_text_array(text_seq(items@)),
{
    write_json_array(items)
}

/// Reads the string stored under `key` in a JSON text: `None` where the text
/// is not JSON, `Some(None)` where it holds no string under that name.
pub fn member_text(text: &str, key: &str) -> (r: Option<Option<String>>)
    ensures
        opt_opt_text(r) == json_member_text(text@, key@),
{
    read_json_member(text, key)
}

/// Writes the JSON object whose members are the given names, each with a
/// string as its value; `None` where the writer fails.
pub fn object_text(members: &Vec<(String, String)>) -> (r: Option<String>)
    ensures
        opt_text(r) == json_object_text(pair_seq(members@)),
{
    write_json_object(members)
}

/// The texts of a list of items that holds strings only.
pub open spec fn all_texts(items: Seq<JsonItemView>) -> Option<Seq<Seq<char>>> {
    if forall|i: int| 0 <= i < items.len() ==> items[i] is Text {
        Some(Seq::new(items.len(), |i: int| items[i]->Text_0))
    } else {
        None
    }
}

/// The notations of a list of items that holds strings and numbers only.
pub open spec fn all_scalars(items: Seq<JsonItemView>) -> Option<Seq<Seq<char>>> {
    if forall|i: int| 0 <= i < items.len() ==> !(items[i] is Other) {
        Some(Seq::new(items.len(), |i: int| scalar_text(items[i])))
    } else {
        None
    }
}

/// The notation of a string or a number.
pub open spec fn scalar_text(item: JsonItemView) -> Seq<char> {
    match item {
        JsonItemView::Text(t) => t,
        JsonItemView::Number(n) => n,
        JsonItemView::Other => Seq::empty(),
    }
}

/// The strings that a JSON text lists: `Some` exactly where the text is a
/// JSON array whose elements are all strings.
pub open spec fn string_array(text: Seq<char>) -> Option<Seq<Seq<char>>> {
    match json_array_items(text) {
        Some(items) => all_texts(items),
        None => None,
    }
}

/// The scalars that a JSON text lists: `Some` exactly where the text is a
/// JSON array whose elements are all strings or numbers.
pub open spec fn scalar_array(text: Seq<char>) -> Option<Seq<Seq<char>>> {
    match json_array_items(text) {
        Some(items) => all_scalars(items),
        None => None,
    }
}

/// Contents of an optional list of strings.
pub open spec fn opt_text_seq(v: Option<Vec<String>>) -> Option<Seq<Seq<char>>> {
    match v {
        Some(t) => Some(text_seq(t@)),
        None => None,
    }
}

/// The strings of a list of items; refuses a list that holds anything but
/// strings.
pub fn texts_of(items: &Vec<JsonItem>) -> (r: Option<Vec<String>>)
    ensures
        opt_text_seq(r) == all_texts(items_view(items@)),
{
    let ghost view = items_view(items@);
    let mut out: Vec<String> = Vec::new();
    let mut i: usize = 0;
    while i < items.len()
        invariant
            i <= items.len(),
            out.len() == i,
            view == items_view(items@),
            forall|j: int| 0 <= j < i ==> (#[trigger] view[j]) is Text && out[j]@ == view[j]->Text_0,
        decreases items.len() - i,
    {
        match &items[i] {
            JsonItem::Text(t) => {
                out.push(t.clone());
            },
            _ => {
                assert(!(view[i as int] is Text));
                return None;
            },
        }
        i += 1;
    }
    assert(text_seq(out@) =~= Seq::new(view.len(), |i: int| view[i]->Text_0));
    Some(out)
}

/// The notations of a list of items; refuses a list that holds anything but
/// strings and numbers.
pub fn scalars_of(items: &Vec<JsonItem>) -> (r: Option<Vec<String>>)
    ensures
        opt_text_seq(r) == all_scalars(items_view(items@)),
{
    let ghost view = items_view(items@);
    let mut out: Vec<String> = Vec::new();
    let mut i: usize = 0;
    while i < items.len()
        invariant
            i <= items.len(),
            out.len() == i,
            view == items_view(items@),
            forall|j: int|
                0 <= j < i ==> !((#[trigger] view[j]) is Other) && out[j]@ == scalar_text(view[j]),
        decreases items.len() - i,
    {
        match &items[i] {
            JsonItem::Text(t) => {
                out.push(t.clone());
            },
            JsonItem::Number(n) => {
                out.push(n.clone());
            },
            JsonItem::Other => {
                assert(view[i as int] is Other);
                return None;
            },
        }
        i += 1;
    }
    assert(text_seq(out@) =~= Seq::new(view.len(), |i: int| scalar_text(view[i])));
    Some(out)
}

/// Reads a JSON array of strings.
pub fn parse_string_array(text: &str) -> (r: Option<Vec<String>>)
    ensures
        opt_text_seq(r) == string_array(text@),
{
    match read_json_array(text) {
        Some(items) => texts_of(&items),
        None => None,
    }
}

/// Reads a JSON array of strings and numbers, each as the text that stands
/// for it.
pub fn parse_scalar_array(text: &str) -> (r: Option<Vec<String>>)
    ensures
        opt_text_seq(r) == scalar_array(text@),
{
    match read_json_array(text) {
        Some(items) => scalars_of(&items),
        None => None,
    }
}

} // verus!
