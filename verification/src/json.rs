//! JSON documents as trees of plain values, read with `serde_json`.

use vstd::prelude::*;
use vstd::string::StringExecFns;

verus! {

/// A JSON value. Numbers keep the three shapes in which the reader hands them
/// out: a non-negative integer, a negative integer, or any other number, kept
/// as its numeral.
#[derive(Debug, PartialEq, Eq)]
pub enum Json {
    Null,
    Bool(bool),
    Unsigned(u64),
    Negative(i64),
    Real(String),
    Text(String),
    Array(Vec<Json>),
    Object(Vec<(String, Json)>),
}

/// The mathematical value of a [`Json`]: strings are character sequences,
/// both kinds of integer are one `int`, and an object is the sequence of its
/// fields in the order in which they are stored.
pub enum JsonView {
    Null,
    Bool(bool),
    Integer(int),
    Real(Seq<char>),
    Text(Seq<char>),
    Array(Seq<JsonView>),
    Object(Seq<(Seq<char>, JsonView)>),
}

impl View for Json {
    type V = JsonView;

    open spec fn view(&self) -> JsonView
        decreases self,
    {
        match self {
            Json::Null => JsonView::Null,
            Json::Bool(b) => JsonView::Bool(*b),
            Json::Unsigned(n) => JsonView::Integer(*n as int),
            Json::Negative(n) => JsonView::Integer(*n as int),
            Json::Real(numeral) => JsonView::Real(numeral@),
            Json::Text(text) => JsonView::Text(text@),
            Json::Array(items) => JsonView::Array(
                Seq::new(
                    items@.len(),
                    |i: int|
                        if 0 <= i < items@.len() {
                            items@[i]@
                        } else {
                            JsonView::Null
                        },
                ),
            ),
            Json::Object(fields) => JsonView::Object(
                Seq::new(
                    fields@.len(),
                    |i: int|
                        (
                            fields@[i].0@,
                            if 0 <= i < fields@.len() {
                                fields@[i].1@
                            } else {
                                JsonView::Null
                            },
                        ),
                ),
            ),
        }
    }
}

/// The value of the first field named `key`, if there is one.
pub open spec fn field_value(fields: Seq<(Seq<char>, JsonView)>, key: Seq<char>) -> Option<
    JsonView,
>
    decreases fields.len(),
{
    if fields.len() == 0 {
        None
    } else if fields[0].0 == key {
        Some(fields[0].1)
    } else {
        field_value(fields.drop_first(), key)
    }
}

impl JsonView {
    /// The value under `key`, where this is an object that has such a field.
    pub open spec fn member(self, key: Seq<char>) -> Option<JsonView> {
        match self {
            JsonView::Object(fields) => field_value(fields, key),
            _ => None,
        }
    }

    /// The item at `index`, where this is an array that is long enough.
    pub open spec fn element(self, index: int) -> Option<JsonView> {
        match self {
            JsonView::Array(items) => if 0 <= index < items.len() {
                Some(items[index])
            } else {
                None
            },
            _ => None,
        }
    }

    /// The characters of a string value.
    pub open spec fn text(self) -> Option<Seq<char>> {
        match self {
            JsonView::Text(text) => Some(text),
            _ => None,
        }
    }

    /// The value of an integer.
    pub open spec fn integer(self) -> Option<int> {
        match self {
            JsonView::Integer(n) => Some(n),
            _ => None,
        }
    }
}

/// The view of a document that may be missing.
pub open spec fn parsed_view(parsed: Option<Json>) -> Option<JsonView> {
    match parsed {
        Some(doc) => Some(doc@),
        None => None,
    }
}

/// The view of a borrowed tree that may be missing.
pub open spec fn view_of(value: Option<&Json>) -> Option<JsonView> {
    match value {
        Some(json) => Some(json@),
        None => None,
    }
}

impl Json {
    /// Reads `text` as one JSON document. `None` says that it is none.
    pub fn parse(text: &str) -> (parsed: Option<Json>)
        ensures
            parsed_view(parsed) == document(text@),
    {
        read_document(text)
    }

    /// Looks `key` up in an object. Anything but an object has no members.
    pub fn member(&self, key: &str) -> (found: Option<&Json>)
        ensures
            view_of(found) == self@.member(key@),
    {
        match self {
            Json::Object(fields) => {
                let wanted = String::from_str(key);
                let ghost all = self@->Object_0;
                assert(all.skip(0) =~= all);
                let mut i: usize = 0;
                while i < fields.len()
                    invariant
                        i <= fields.len(),
                        wanted@ == key@,
                        self@ == JsonView::Object(all),
                        all.len() == fields.len(),
                        forall|k: int|
                            0 <= k < fields.len() ==> all[k] == (fields@[k].0@, fields@[k].1@),
                        field_value(all, key@) == field_value(all.skip(i as int), key@),
                    decreases fields.len() - i,
                {
                    assert(all.skip(i as int)[0] == all[i as int]);
                    assert(all.skip(i as int).drop_first() =~= all.skip(i + 1));
                    if fields[i].0 == wanted {
                        return Some(&fields[i].1);
                    }
                    i += 1;
                }
                None
            },
            _ => None,
        }
    }

    /// Takes the item at `index` of an array. Anything but an array has no
    /// elements.
    pub fn element(&self, index: usize) -> (found: Option<&Json>)
        ensures
            view_of(found) == self@.element(index as int),
    {
        match self {
            Json::Array(items) => if index < items.len() {
                Some(&items[index])
            } else {
                None
            },
            _ => None,
        }
    }

    /// The string that a string value holds.
    pub fn as_text(&self) -> (found: Option<&str>)
        ensures
            match found {
                Some(text) => self@.text() == Some(text@),
                None => self@.text().is_none(),
            },
    {
        match self {
            Json::Text(text) => Some(text.as_str()),
            _ => None,
        }
    }

    /// The number that an integer value holds, where it is a count that fits
    /// 32 bits.
    pub fn as_count(&self) -> (found: Option<u32>)
        ensures
            match found {
                Some(n) => self@.integer() == Some(n as int),
                None => !(self@.integer() matches Some(n) && 0 <= n <= u32::MAX),
            },
    {
        match self {
            Json::Unsigned(n) => if *n <= 0xffff_ffff {
                Some(*n as u32)
            } else {
                None
            },
            Json::Negative(n) => if 0 <= *n && *n <= 0xffff_ffff {
                Some(*n as u32)
            } else {
                None
            },
            _ => None,
        }
    }
}

/// `serde_json::Value`, the tree that `serde_json` reads a document into.
/// Nothing is known of what it holds until it is copied into a [`Json`].
#[verifier::external_type_specification]
#[verifier::external_body]
pub struct ExValue(serde_json::Value);

/// What reading `text` as one JSON document gives: the document's tree, or
/// `None` where `text` is not a JSON document.
pub uninterp spec fn document(text: Seq<char>) -> Option<JsonView>;

/// The JSON string literal that stands for `text`: its characters between
/// double quotes, with those escaped that JSON does not allow bare.
pub uninterp spec fn quoted(text: Seq<char>) -> Seq<char>;

/// Copies a `serde_json::Value` into a [`Json`], node by node: `null`, the
/// booleans, strings, arrays and objects keep their contents, an object's
/// fields in the order in which `serde_json` walks them. A number is
/// `Unsigned` where `as_u64` gives it, else `Negative` where `as_i64` gives
/// it, else `Real` with the numeral that the number prints as.
#[verifier::external_body]
fn tree_of(value: serde_json::Value) -> Json {
    match value {
        serde_json::Value::Null => Json::Null,
        serde_json::Value::Bool(b) => Json::Bool(b),
        serde_json::Value::Number(n) => match (n.as_u64(), n.as_i64()) {
            (Some(u), _) => Json::Unsigned(u),
            (None, Some(i)) => Json::Negative(i),
            (None, None) => Json::Real(n.to_string()),
        },
        serde_json::Value::String(s) => Json::Text(s),
        serde_json::Value::Array(a) => Json::Array(a.into_iter().map(tree_of).collect()),
        serde_json::Value::Object(o) => Json::Object(
            o.into_iter().map(|(k, v)| (k, tree_of(v))).collect(),
        ),
    }
}

/// `serde_json::from_str::<serde_json::Value>`: reads `text` as one JSON
/// document and hands the tree over as a [`Json`], or `None` where
/// `serde_json` refuses the text. What comes back depends on `text` alone
/// and is named [`document`]; which texts are documents, and what trees they
/// hold, is left to `serde_json`.
#[verifier::external_body]
fn read_document(text: &str) -> (tree: Option<Json>)
    ensures
        match tree {
            Some(json) => document(text@) == Some(json@),
            None => document(text@).is_none(),
        },
{
    serde_json::from_str::<serde_json::Value>(text).ok().map(tree_of)
}

/// `serde_json::to_string` on a `str`: writes `text` as a JSON string
/// literal (and gives the empty text should `serde_json` report an error,
/// which it has no cause to for a string). What comes back depends on `text`
/// alone and is named [`quoted`]; how characters are escaped is left to
/// `serde_json`.
#[verifier::external_body]
pub(crate) fn quote(text: &str) -> (literal: String)
    ensures
        literal@ == quoted(text@),
{
    serde_json::to_string(text).unwrap_or_default()
}

} // verus!
