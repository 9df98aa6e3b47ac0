//! JSON values as the library reads them.
//!
//! Parsing is left to `serde_json`; what it parsed is copied into a tree of
//! the library's own, on which members are looked up by verified code.

use vstd::prelude::*;
use crate::seqs::{first_index, lemma_first_index_is};
use crate::text::same;

verus! {

#[verifier::external_type_specification]
#[verifier::external_body]
pub struct ExValue(serde_json::Value);

#[verifier::external_type_specification]
#[verifier::external_body]
pub struct ExJsonError(serde_json::Error);

/// A JSON value. A number is kept as the text it is written as; the members
/// of an object are kept in the order in which the parser hands them out.
#[derive(Debug)]
pub enum Json {
    Null,
    Bool(bool),
    Number(String),
    Str(String),
    Array(Vec<Json>),
    Object(Vec<(String, Json)>),
}

/// The content of a [`Json`].
pub ghost enum JsonView {
    Null,
    Bool(bool),
    Number(Seq<char>),
    Str(Seq<char>),
    Array(Seq<JsonView>),
    Object(Seq<(Seq<char>, JsonView)>),
}

/// The content of a value.
pub open spec fn content(j: Json) -> JsonView
    decreases j,
{
    match j {
        Json::Null => JsonView::Null,
        Json::Bool(b) => JsonView::Bool(b),
        Json::Number(n) => JsonView::Number(n@),
        Json::Str(s) => JsonView::Str(s@),
        Json::Array(items) => JsonView::Array(
            Seq::new(
                items@.len(),
                |i: int|
                    if 0 <= i < items@.len() {
                        content(items@[i])
                    } else {
                        JsonView::Null
                    },
            ),
        ),
        Json::Object(members) => JsonView::Object(
            Seq::new(
                members@.len(),
                |i: int|
                    if 0 <= i < members@.len() {
                        (members@[i].0@, content(members@[i].1))
                    } else {
                        (Seq::empty(), JsonView::Null)
                    },
            ),
        ),
    }
}

impl View for Json {
    type V = JsonView;

    open spec fn view(&self) -> JsonView {
        content(*self)
    }
}

impl DeepView for Json {
    type V = JsonView;

    open spec fn deep_view(&self) -> JsonView {
        self@
    }
}

/// What the parser makes of a text: nothing where it refuses the text as a
/// JSON document, else the content of the value that it builds.
pub uninterp spec fn parsed_json(text: Seq<char>) -> Option<JsonView>;

/// The content of a value that the parser built.
pub uninterp spec fn value_content(v: serde_json::Value) -> JsonView;

/// `serde_json::from_str` for a `Value`: parses a text. Whether it succeeds,
/// and with what content, depends on the text alone.
#[verifier::external_body]
fn parse_value(text: &str) -> (r: Result<serde_json::Value, serde_json::Error>)
    ensures
        match r {
            Ok(v) => parsed_json(text@) == Some(value_content(v)),
            Err(_) => parsed_json(text@).is_none(),
        },
{
    serde_json::from_str(text)
}

/// Copies a `serde_json::Value` into a tree of the library, variant by
/// variant: a number as `Number::to_string` writes it, the items of an array
/// and the members of an object in the order of their iterators.
#[verifier::external_body]
fn from_value(v: &serde_json::Value) -> (r: Json)
    ensures
        r@ == value_content(*v),
{
    match v {
        serde_json::Value::Null => Json::Null,
        serde_json::Value::Bool(b) => Json::Bool(*b),
        serde_json::Value::Number(n) => Json::Number(n.to_string()),
        serde_json::Value::String(s) => Json::Str(s.clone()),
        serde_json::Value::Array(a) => Json::Array(a.iter().map(from_value).collect()),
        serde_json::Value::Object(o) => Json::Object(
            o.iter().map(|(k, v)| (k.clone(), from_value(v))).collect(),
        ),
    }
}

/// A text that is no JSON document.
#[derive(Debug, Clone, Copy, PartialEq, Eq, Structural)]
pub struct InvalidJson;

/// The test for the member of a key.
pub open spec fn member_test(key: Seq<char>) -> spec_fn((Seq<char>, JsonView)) -> bool {
    |m: (Seq<char>, JsonView)| m.0 == key
}

impl JsonView {
    /// The member of an object under `key`; nothing for another value or a
    /// missing key.
    pub open spec fn member(self, key: Seq<char>) -> Option<JsonView> {
        match self {
            JsonView::Object(members) => {
                let i = first_index(members, member_test(key)) as int;
                if i < members.len() {
                    Some(members[i].1)
                } else {
                    None
                }
            },
            _ => None,
        }
    }

    /// The text of a string value.
    pub open spec fn as_text(self) -> Option<Seq<char>> {
        match self {
            JsonView::Str(s) => Some(s),
            _ => None,
        }
    }

    /// The items of an array.
    pub open spec fn as_items(self) -> Option<Seq<JsonView>> {
        match self {
            JsonView::Array(items) => Some(items),
            _ => None,
        }
    }

    /// The truth value of a boolean.
    pub open spec fn as_truth(self) -> Option<bool> {
        match self {
            JsonView::Bool(b) => Some(b),
            _ => None,
        }
    }

    /// The text of the string member under `key`.
    pub open spec fn text_member(self, key: Seq<char>) -> Option<Seq<char>> {
        match self.member(key) {
            Some(m) => m.as_text(),
            None => None,
        }
    }

    /// The truth value of the boolean member under `key`.
    pub open spec fn truth_member(self, key: Seq<char>) -> Option<bool> {
        match self.member(key) {
            Some(m) => m.as_truth(),
            None => None,
        }
    }

    /// The items of the array member under `key`.
    pub open spec fn items_member(self, key: Seq<char>) -> Option<Seq<JsonView>> {
        match self.member(key) {
            Some(m) => m.as_items(),
            None => None,
        }
    }
}

impl Json {
    /// Parses a JSON document.
    pub fn parse(text: &str) -> (r: Result<Json, InvalidJson>)
        ensures
            match r {
                Ok(j) => parsed_json(text@) == Some(j@),
                Err(_) => parsed_json(text@).is_none(),
            },
    {
        match parse_value(text) {
            Ok(v) => Ok(from_value(&v)),
            Err(_) => Err(InvalidJson),
        }
    }

    /// The member of an object under `key`.
    pub fn get(&self, key: &str) -> (r: Option<&Json>)
        ensures
            r.deep_view() == self@.member(key@),
    {
        match self {
            Json::Object(members) => {
                let ghost views = self@->Object_0;
                assert(*self == Json::Object(*members));
                assert(self@ is Object);
                assert(views.len() == members@.len());
                let mut i: usize = 0;
                while i < members.len()
                    invariant
                        i <= members.len(),
                        self@ == JsonView::Object(views),
                        views.len() == members@.len(),
                        forall|j: int|
                            0 <= j < members@.len() ==> #[trigger] views[j] == (
                                members@[j].0@,
                                members@[j].1@,
                            ),
                        forall|j: int| 0 <= j < i ==> (#[trigger] views[j]).0 != key@,
                    decreases members.len() - i,
                {
                    if same(members[i].0.as_str(), key) {
                        proof {
                            lemma_first_index_is(views, member_test(key@), i as int);
                        }
                        return Some(&members[i].1);
                    }
                    i += 1;
                }
                proof {
                    lemma_first_index_is(views, member_test(key@), i as int);
                }
                None
            },
            _ => None,
        }
    }

    /// The text of a string value.
    pub fn as_str(&self) -> (r: Option<&str>)
        ensures
            r.deep_view() == self@.as_text(),
    {
        match self {
            Json::Str(s) => Some(s.as_str()),
            _ => None,
        }
    }

    /// The truth value of a boolean.
    pub fn as_bool(&self) -> (r: Option<bool>)
        ensures
            r == self@.as_truth(),
    {
        match self {
            Json::Bool(b) => Some(*b),
            _ => None,
        }
    }

    /// The items of an array.
    pub fn as_array(&self) -> (r: Option<&Vec<Json>>)
        ensures
            r.deep_view() == self@.as_items(),
    {
        match self {
            Json::Array(items) => {
                assert(items.deep_view() =~= self@->Array_0);
                Some(items)
            },
            _ => None,
        }
    }

    /// A copy of the text of the string member under `key`.
    pub fn text_member(&self, key: &str) -> (r: Option<String>)
        ensures
            r.deep_view() == self@.text_member(key@),
    {
        match self.get(key) {
            Some(m) => match m.as_str() {
                Some(s) => Some(String::from_str(s)),
                None => None,
            },
            None => None,
        }
    }

    /// The truth value of the boolean member under `key`.
    pub fn truth_member(&self, key: &str) -> (r: Option<bool>)
        ensures
            r == self@.truth_member(key@),
    {
        match self.get(key) {
            Some(m) => m.as_bool(),
            None => None,
        }
    }

    /// A copy of the value.
    pub fn duplicate(&self) -> (r: Json)
        ensures
            r@ == self@,
        decreases self,
    {
        match self {
            Json::Null => Json::Null,
            Json::Bool(b) => Json::Bool(*b),
            Json::Number(n) => Json::Number(n.clone()),
            Json::Str(s) => Json::Str(s.clone()),
            Json::Array(items) => {
                let mut out: Vec<Json> = Vec::new();
                let mut i: usize = 0;
                assert(decreases_to!(*self => *items));
                while i < items.len()
                    invariant
                        i <= items.len(),
                        *self == Json::Array(*items),
                        decreases_to!(*self => *items),
                        out@.len() == i,
                        forall|j: int| 0 <= j < i ==> (#[trigger] out@[j])@ == items@[j]@,
                    decreases items.len() - i,
                {
                    assert(decreases_to!(*items => items[i as int]));
                    let item = items[i].duplicate();
                    out.push(item);
                    i += 1;
                }
                let r = Json::Array(out);
                assert(r@->Array_0 =~= self@->Array_0);
                r
            },
            Json::Object(members) => {
                let mut out: Vec<(String, Json)> = Vec::new();
                let mut i: usize = 0;
                assert(decreases_to!(*self => *members));
                while i < members.len()
                    invariant
                        i <= members.len(),
                        *self == Json::Object(*members),
                        decreases_to!(*self => *members),
                        out@.len() == i,
                        forall|j: int|
                            0 <= j < i ==> (#[trigger] out@[j]).0@ == members@[j].0@ && out@[j].1@
                                == members@[j].1@,
                    decreases members.len() - i,
                {
                    assert(decreases_to!(*members => members[i as int]));
                    assert(decreases_to!(members[i as int] => members[i as int].1));
                    let value = members[i].1.duplicate();
                    out.push((members[i].0.clone(), value));
                    i += 1;
                }
                let r = Json::Object(out);
                assert(r@->Object_0 =~= self@->Object_0);
                r
            },
        }
    }
}

} // verus!
