//! JSON values as plain data, and the calls into `serde_json` that produce
//! and print them.

use vstd::prelude::*;

verus! {

/// A JSON value held as plain data.
///
/// A number keeps only what `serde_json::Number::as_i64` gives: the integer
/// when it is one that fits `i64`, `None` for every other number.
#[derive(Debug, PartialEq, Eq)]
pub enum Json {
    Null,
    Bool(bool),
    Number(Option<i64>),
    String(String),
    Array(Vec<Json>),
    Object(Vec<(String, Json)>),
}

/// The mathematical model of a [`Json`] value.
pub ghost enum Tree {
    Null,
    Bool(bool),
    Number(Option<i64>),
    String(Seq<char>),
    Array(Seq<Tree>),
    Object(Seq<(Seq<char>, Tree)>),
}

/// The tree of a value: the same shape, with texts for strings and
/// sequences for vectors.
pub open spec fn tree(value: Json) -> Tree
    decreases value,
{
    match value {
        Json::Null => Tree::Null,
        Json::Bool(b) => Tree::Bool(b),
        Json::Number(n) => Tree::Number(n),
        Json::String(s) => Tree::String(s@),
        Json::Array(items) => Tree::Array(
            Seq::new(
                items@.len(),
                |i: int|
                    if 0 <= i < items@.len() {
                        tree(items@[i])
                    } else {
                        Tree::Null
                    },
            ),
        ),
        Json::Object(members) => Tree::Object(
            Seq::new(
                members@.len(),
                |i: int|
                    if 0 <= i < members@.len() {
                        (members@[i].0@, tree(members@[i].1))
                    } else {
                        (Seq::empty(), Tree::Null)
                    },
            ),
        ),
    }
}

impl View for Json {
    type V = Tree;

    open spec fn view(&self) -> Tree {
        tree(*self)
    }
}

/// The members of an object, each as its key's text and its value's tree.
pub open spec fn members_view(members: Seq<(String, Json)>) -> Seq<(Seq<char>, Tree)> {
    Seq::new(members.len(), |i: int| (members[i].0@, members[i].1@))
}

/// The view of an object is an object of the views of its members.
pub proof fn lemma_view_of_object(value: Json)
    ensures
        value matches Json::Object(members) ==> value@ == Tree::Object(members_view(members@)),
{
    match value {
        Json::Object(members) => {
            assert(value@->Object_0 =~= members_view(members@));
        },
        _ => {},
    }
}

/// Whether some member of an object has this key.
pub open spec fn has_key(members: Seq<(Seq<char>, Tree)>, key: Seq<char>) -> bool {
    exists|i: int| 0 <= i < members.len() && (#[trigger] members[i]).0 == key
}

/// Whether `i` is the place of the first member with this key.
pub open spec fn is_first(members: Seq<(Seq<char>, Tree)>, key: Seq<char>, i: int) -> bool {
    &&& 0 <= i < members.len()
    &&& members[i].0 == key
    &&& forall|j: int| 0 <= j < i ==> (#[trigger] members[j]).0 != key
}

/// The value of the first member with this key; meaningful where there is one.
pub open spec fn member(members: Seq<(Seq<char>, Tree)>, key: Seq<char>) -> Tree {
    members[choose|i: int| is_first(members, key, i)].1
}

/// Only one place can be the first with a key, so [`member`] is the value
/// found there.
pub proof fn lemma_first_is_member(members: Seq<(Seq<char>, Tree)>, key: Seq<char>, i: int)
    requires
        is_first(members, key, i),
    ensures
        member(members, key) == members[i].1,
        has_key(members, key),
{
    let c = choose|c: int| is_first(members, key, c);
    assert(is_first(members, key, c));
    if c < i {
        assert(members[c].0 != key);
    } else if i < c {
        assert(members[i].0 != key);
    }
}

/// Whether two texts are the same.
pub fn same_text(a: &str, b: &str) -> (r: bool)
    ensures
        r == (a@ == b@),
{
    String::from_str(a) == String::from_str(b)
}

/// Finds the first member of an object that has the key.
pub fn find(members: &Vec<(String, Json)>, key: &str) -> (r: Option<usize>)
    ensures
        match r {
            Some(i) => is_first(members_view(members@), key@, i as int),
            None => !has_key(members_view(members@), key@),
        },
{
    let mut i: usize = 0;
    while i < members.len()
        invariant
            i <= members.len(),
            forall|j: int| 0 <= j < i ==> (#[trigger] members_view(members@)[j]).0 != key@,
        decreases members.len() - i,
    {
        if same_text(members[i].0.as_str(), key) {
            return Some(i);
        }
        i += 1;
    }
    None
}

/// `serde_json::Value`, carried from the parser to [`lower_value`] and never
/// looked into by verified code.
#[verifier::external_type_specification]
#[verifier::external_body]
pub struct ExValue(serde_json::Value);

/// What `serde_json::from_str` makes of a text when asked for a
/// `serde_json::Value`: the value it parsed, or the message of its error.
pub uninterp spec fn parsed(text: Seq<char>) -> Result<Tree, Seq<char>>;

/// What a `serde_json::Value` holds, as a tree.
pub uninterp spec fn held(value: serde_json::Value) -> Tree;

/// What `serde_json::to_string` prints for a `str`: the JSON string literal,
/// quotes and escapes included.
pub uninterp spec fn quoted(text: Seq<char>) -> Seq<char>;

/// Calls `serde_json::from_str` at the type `serde_json::Value`. Nothing is
/// claimed of the parser beyond that it is a function of the text: the outcome
/// is [`parsed`] of the text, the error given by its message.
#[verifier::external_body]
fn parse_value(text: &str) -> (r: Result<serde_json::Value, String>)
    ensures
        match r {
            Ok(v) => parsed(text@) == Ok::<Tree, Seq<char>>(held(v)),
            Err(e) => parsed(text@) == Err::<Tree, Seq<char>>(e@),
        },
{
    serde_json::from_str::<serde_json::Value>(text).map_err(|e| e.to_string())
}

/// Moves a `serde_json::Value` into a [`Json`], variant for variant. A number
/// becomes what `serde_json::Number::as_i64` returns for it; an object's
/// members come in the order in which `serde_json::Map` hands them out.
#[verifier::external_body]
fn lower_value(value: serde_json::Value) -> (r: Json)
    ensures
        r@ == held(value),
{
    match value {
        serde_json::Value::Null => Json::Null,
        serde_json::Value::Bool(b) => Json::Bool(b),
        serde_json::Value::Number(n) => Json::Number(n.as_i64()),
        serde_json::Value::String(s) => Json::String(s),
        serde_json::Value::Array(a) => Json::Array(a.into_iter().map(lower_value).collect()),
        serde_json::Value::Object(o) => Json::Object(
            o.into_iter().map(|(k, v)| (k, lower_value(v))).collect(),
        ),
    }
}

/// Calls `serde_json::to_string` on a `str`. Writing a string into memory has
/// no failing path in `serde_json`, so the printed literal is always there; it
/// is [`quoted`] of the text.
#[verifier::external_body]
pub(crate) fn quote(text: &str) -> (r: String)
    ensures
        r@ == quoted(text@),
{
    serde_json::to_string(text).unwrap_or_default()
}

/// Parses a JSON text.
///
/// The result is [`parsed`] of the text: the tree of the value, or the
/// parser's message.
pub fn parse(text: &str) -> (r: Result<Json, String>)
    ensures
        match r {
            Ok(j) => parsed(text@) == Ok::<Tree, Seq<char>>(j@),
            Err(e) => parsed(text@) == Err::<Tree, Seq<char>>(e@),
        },
{
    match parse_value(text) {
        Ok(v) => Ok(lower_value(v)),
        Err(e) => Err(e),
    }
}

} // verus!
