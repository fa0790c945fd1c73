//! JSON documents as plain values.
//!
//! Reading a text and escaping a string are `serde_json`'s work; looking up a
//! member and writing a document down in compact form are done here.

use vstd::prelude::*;
use vstd::string::StringExecFns;

verus! {

/// A JSON document.
#[derive(Debug)]
pub enum Json {
    Null,
    Bool(bool),
    /// A number: its value where it is an integer that fits `i64`, and its
    /// text as it is written in a document.
    Number(Option<i64>, String),
    Text(String),
    Array(Vec<Json>),
    /// The members of an object, key and value, in their order.
    Object(Vec<(String, Json)>),
}

/// The mathematical value of a [`Json`].
pub ghost enum JsonView {
    Null,
    Bool(bool),
    Number(Option<i64>, Seq<char>),
    Text(Seq<char>),
    Array(Seq<JsonView>),
    Object(Seq<(Seq<char>, JsonView)>),
}

/// The value of a document, item by item and member by member.
pub open spec fn json_view(document: Json) -> JsonView
    decreases document,
{
    match document {
        Json::Null => JsonView::Null,
        Json::Bool(b) => JsonView::Bool(b),
        Json::Number(value, text) => JsonView::Number(value, text@),
        Json::Text(text) => JsonView::Text(text@),
        Json::Array(items) => JsonView::Array(
            Seq::new(
                items@.len(),
                |i: int|
                    if 0 <= i < items@.len() {
                        json_view(items@[i])
                    } else {
                        JsonView::Null
                    },
            ),
        ),
        Json::Object(members) => JsonView::Object(
            Seq::new(
                members@.len(),
                |i: int|
                    if 0 <= i < members@.len() {
                        (members@[i].0@, json_view(members@[i].1))
                    } else {
                        (Seq::empty(), JsonView::Null)
                    },
            ),
        ),
    }
}

impl View for Json {
    type V = JsonView;

    open spec fn view(&self) -> JsonView {
        json_view(*self)
    }
}

/// The document that `serde_json` reads in a text, or `None` where it reads
/// none.
pub uninterp spec fn json_document(text: Seq<u8>) -> Option<JsonView>;

/// A string as `serde_json` writes it in a document: quoted and escaped.
pub uninterp spec fn json_string_literal(text: Seq<char>) -> Seq<char>;

/// The value of the first of the first `n` members that has the key.
pub open spec fn member_among(
    members: Seq<(Seq<char>, JsonView)>,
    key: Seq<char>,
    n: nat,
) -> Option<JsonView>
    decreases n,
{
    if n == 0 || n > members.len() {
        None
    } else {
        match member_among(members, key, (n - 1) as nat) {
            Some(found) => Some(found),
            None => if members[n - 1].0 == key {
                Some(members[n - 1].1)
            } else {
                None
            },
        }
    }
}

/// The member of an object under a key; `None` where the document is no
/// object or has no such member.
pub open spec fn json_member(document: JsonView, key: Seq<char>) -> Option<JsonView> {
    match document {
        JsonView::Object(members) => member_among(members, key, members.len()),
        _ => None,
    }
}

/// The compact text of a document: no white space, members in their order.
pub open spec fn json_text(document: JsonView) -> Seq<char>
    decreases document, 0nat,
{
    match document {
        JsonView::Null => "null"@,
        JsonView::Bool(b) => if b {
            "true"@
        } else {
            "false"@
        },
        JsonView::Number(_, text) => text,
        JsonView::Text(text) => json_string_literal(text),
        JsonView::Array(items) => "["@ + items_text(items, items.len()) + "]"@,
        JsonView::Object(members) => "{"@ + members_text(members, members.len()) + "}"@,
    }
}

/// The texts of the first `n` items, with a comma between two of them.
pub open spec fn items_text(items: Seq<JsonView>, n: nat) -> Seq<char>
    decreases items, n,
{
    if n == 0 || n > items.len() {
        Seq::empty()
    } else if n == 1 {
        json_text(items[0])
    } else {
        items_text(items, (n - 1) as nat) + ","@ + json_text(items[n - 1])
    }
}

/// The first `n` members, each as its key, a colon and its value, with a
/// comma between two of them.
pub open spec fn members_text(members: Seq<(Seq<char>, JsonView)>, n: nat) -> Seq<char>
    decreases members, n,
{
    if n == 0 || n > members.len() {
        Seq::empty()
    } else if n == 1 {
        json_string_literal(members[0].0) + ":"@ + json_text(members[0].1)
    } else {
        members_text(members, (n - 1) as nat) + ","@ + json_string_literal(members[n - 1].0)
            + ":"@ + json_text(members[n - 1].1)
    }
}

/// Once a member with the key is among the first `n`, looking further finds
/// the same one.
pub proof fn lemma_member_found(
    members: Seq<(Seq<char>, JsonView)>,
    key: Seq<char>,
    n: nat,
    m: nat,
)
    requires
        n <= m <= members.len(),
        member_among(members, key, n) is Some,
    ensures
        member_among(members, key, m) == member_among(members, key, n),
    decreases m,
{
    if m > n {
        lemma_member_found(members, key, n, (m - 1) as nat);
    }
}

/// `serde_json::Value`: what `serde_json` reads, on its way to a [`Json`].
#[verifier::external_type_specification]
#[verifier::external_body]
pub struct ExValue(serde_json::Value);

/// Turns a `serde_json::Value` into a [`Json`], variant by variant. A number
/// keeps what `Number::as_i64` and its `Display` give; an object's members
/// come in the order in which `serde_json::Map` hands them out.
#[verifier::external_body]
fn json_of_value(value: serde_json::Value) -> Json {
    match value {
        serde_json::Value::Null => Json::Null,
        serde_json::Value::Bool(b) => Json::Bool(b),
        serde_json::Value::Number(n) => Json::Number(n.as_i64(), n.to_string()),
        serde_json::Value::String(s) => Json::Text(s),
        serde_json::Value::Array(a) => Json::Array(a.into_iter().map(json_of_value).collect()),
        serde_json::Value::Object(o) => Json::Object(
            o.into_iter().map(|(k, v)| (k, json_of_value(v))).collect(),
        ),
    }
}

/// `serde_json::from_slice` for a `serde_json::Value`: the document read in
/// the text. The same text always gives the same document, and a text that
/// is no JSON gives none.
#[verifier::external_body]
pub(crate) fn read_document(text: &[u8]) -> (r: Option<Json>)
    ensures
        r matches Some(document) ==> json_document(text@) == Some(document@),
        r is None ==> json_document(text@) is None,
{
    match serde_json::from_slice::<serde_json::Value>(text) {
        Ok(value) => Some(json_of_value(value)),
        Err(_) => None,
    }
}

/// `serde_json::to_string` on a string: the string as a JSON literal.
/// Writing a string into memory cannot fail.
#[verifier::external_body]
pub(crate) fn string_literal(text: &str) -> (r: String)
    ensures
        r@ == json_string_literal(text@),
{
    match serde_json::to_string(text) {
        Ok(literal) => literal,
        Err(_) => String::new(),
    }
}

impl Json {
    /// The member of an object under `key`, the first where several have it.
    pub fn member(&self, key: &str) -> (r: Option<&Json>)
        ensures
            match r {
                Some(found) => json_member(self@, key@) == Some(found@),
                None => json_member(self@, key@) is None,
            },
    {
        match self {
            Json::Object(members) => {
                let ghost views = self@->Object_0;
                let wanted = key.to_owned();
                let mut i: usize = 0;
                while i < members.len()
                    invariant
                        i <= members.len(),
                        wanted@ == key@,
                        self@ == JsonView::Object(views),
                        views.len() == members.len(),
                        forall|j: int|
                            0 <= j < views.len() ==> views[j] == (
                                #[trigger] members@[j].0@,
                                members@[j].1@,
                            ),
                        member_among(views, key@, i as nat) is None,
                    decreases members.len() - i,
                {
                    if members[i].0 == wanted {
                        proof {
                            lemma_member_found(views, key@, (i + 1) as nat, views.len());
                        }
                        return Some(&members[i].1);
                    }
                    i += 1;
                }
                None
            },
            _ => None,
        }
    }

    /// The document as compact JSON text.
    pub fn to_text(&self) -> (r: String)
        ensures
            r@ == json_text(self@),
        decreases self,
    {
        match self {
            Json::Null => "null".to_owned(),
            Json::Bool(b) => if *b {
                "true".to_owned()
            } else {
                "false".to_owned()
            },
            Json::Number(_, text) => text.clone(),
            Json::Text(text) => string_literal(text.as_str()),
            Json::Array(items) => {
                let ghost views = self@->Array_0;
                let mut out = "[".to_owned();
                let mut i: usize = 0;
                while i < items.len()
                    invariant
                        i <= items.len(),
                        self is Array,
                        self->Array_0 == *items,
                        views.len() == items.len(),
                        forall|j: int| 0 <= j < views.len() ==> views[j] == #[trigger] items@[j]@,
                        out@ == "["@ + items_text(views, i as nat),
                    decreases items.len() - i,
                {
                    if i > 0 {
                        out.append(",");
                    }
                    assert(decreases_to!(*self => items[i as int]));
                    let item = items[i].to_text();
                    out.append(item.as_str());
                    i += 1;
                }
                out.append("]");
                out
            },
            Json::Object(members) => {
                let ghost views = self@->Object_0;
                let mut out = "{".to_owned();
                let mut i: usize = 0;
                while i < members.len()
                    invariant
                        i <= members.len(),
                        self is Object,
                        self->Object_0 == *members,
                        views.len() == members.len(),
                        forall|j: int|
                            0 <= j < views.len() ==> views[j] == (
                                #[trigger] members@[j].0@,
                                members@[j].1@,
                            ),
                        out@ == "{"@ + members_text(views, i as nat),
                    decreases members.len() - i,
                {
                    if i > 0 {
                        out.append(",");
                    }
                    let key = string_literal(members[i].0.as_str());
                    out.append(key.as_str());
                    out.append(":");
                    assert(decreases_to!(*self => members[i as int].1));
                    let value = members[i].1.to_text();
                    out.append(value.as_str());
                    i += 1;
                }
                out.append("}");
                out
            },
        }
    }
}

impl Clone for Json {
    fn clone(&self) -> (r: Self)
        ensures
            r@ == self@,
        decreases self,
    {
        match self {
            Json::Null => Json::Null,
            Json::Bool(b) => Json::Bool(*b),
            Json::Number(value, text) => Json::Number(*value, text.clone()),
            Json::Text(text) => Json::Text(text.clone()),
            Json::Array(items) => {
                let mut copies: Vec<Json> = Vec::new();
                let mut i: usize = 0;
                while i < items.len()
                    invariant
                        i <= items.len(),
                        self is Array,
                        self->Array_0 == *items,
                        copies.len() == i,
                        forall|j: int| 0 <= j < i ==> (#[trigger] copies@[j])@ == items@[j]@,
                    decreases items.len() - i,
                {
                    assert(decreases_to!(*self => items[i as int]));
                    let copy = items[i].clone();
                    copies.push(copy);
                    i += 1;
                }
                let r = Json::Array(copies);
                assert(r@->Array_0 =~= self@->Array_0);
                r
            },
            Json::Object(members) => {
                let mut copies: Vec<(String, Json)> = Vec::new();
                let mut i: usize = 0;
                while i < members.len()
                    invariant
                        i <= members.len(),
                        self is Object,
                        self->Object_0 == *members,
                        copies.len() == i,
                        forall|j: int|
                            0 <= j < i ==> (#[trigger] copies@[j]).0@ == members@[j].0@
                                && copies@[j].1@ == members@[j].1@,
                    decreases members.len() - i,
                {
                    assert(decreases_to!(*self => members[i as int].1));
                    let copy = (members[i].0.clone(), members[i].1.clone());
                    copies.push(copy);
                    i += 1;
                }
                let r = Json::Object(copies);
                assert(r@->Object_0 =~= self@->Object_0);
                r
            },
        }
    }
}

} // verus!
