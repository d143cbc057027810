//! The JSON document model that every wire message is read from and written to.
//!
//! Reading and writing JSON text is the JSON library's work; this module holds
//! the tree the rest of the crate reasons about, and the few trusted
//! declarations that tie the tree to the JSON library.

use vstd::prelude::*;

verus! {

/// What a JSON number stands for: a mathematical integer, or a binary64 float
/// given by its bit pattern.
pub ghost enum NumericValue {
    Int(int),
    Real(u64),
}

/// A JSON document as a mathematical tree. An object is a map: the order of
/// its members carries no meaning, and a name occurs once.
pub ghost enum JsonValue {
    Null,
    Bool(bool),
    Number(NumericValue),
    Text(Seq<char>),
    List(Seq<JsonValue>),
    Record(Map<Seq<char>, JsonValue>),
}

/// The members of an object, by name.
pub type Members = Map<Seq<char>, JsonValue>;

/// A JSON document in memory. The members of a record are kept in the order
/// they were added; where a name occurs twice the later member counts.
#[derive(Debug)]
pub enum Json {
    Null,
    Bool(bool),
    Number(serde_json::Number),
    Text(String),
    List(Vec<Json>),
    Record(Vec<(String, Json)>),
}

/// `serde_json::Value`, the JSON library's own document. Nothing is known of
/// a value but the tree it holds.
#[verifier::external_type_specification]
#[verifier::external_body]
pub struct ExValue(serde_json::Value);

/// `serde_json::Number`, the JSON library's number. Numbers are carried as
/// they come; nothing is known of one but the number it holds.
#[verifier::external_type_specification]
#[verifier::external_body]
pub struct ExNumber(serde_json::Number);

/// `serde_json::Error`, the JSON library's account of a text it could not
/// read. It is passed over unread.
#[verifier::external_type_specification]
#[verifier::external_body]
pub struct ExError(serde_json::Error);

/// The tree that a value of the JSON library holds.
pub uninterp spec fn tree_of(v: serde_json::Value) -> JsonValue;

/// The number that a number of the JSON library holds.
pub uninterp spec fn number_of(n: serde_json::Number) -> NumericValue;

/// The document that the JSON library reads from a text, if it reads one.
pub uninterp spec fn json_document(text: Seq<char>) -> Option<JsonValue>;

/// The compact text that the JSON library writes for a document; the empty
/// text, should it write none.
pub uninterp spec fn json_text(doc: JsonValue) -> Seq<char>;

/// The member of a record that goes by a name.
pub open spec fn member(t: JsonValue, key: Seq<char>) -> Option<JsonValue> {
    match t {
        JsonValue::Record(m) => if m.dom().contains(key) {
            Some(m[key])
        } else {
            None
        },
        _ => None,
    }
}

impl Json {
    /// The tree a document stands for.
    pub open spec fn tree(self) -> JsonValue
        decreases self,
    {
        match self {
            Json::Null => JsonValue::Null,
            Json::Bool(b) => JsonValue::Bool(b),
            Json::Number(n) => JsonValue::Number(number_of(n)),
            Json::Text(s) => JsonValue::Text(s@),
            Json::List(items) => JsonValue::List(
                Seq::new(
                    items@.len(),
                    |i: int|
                        if 0 <= i < items@.len() {
                            items@[i].tree()
                        } else {
                            JsonValue::Null
                        },
                ),
            ),
            Json::Record(members) => JsonValue::Record(
                Json::members_tree(members@, members@.len()),
            ),
        }
    }

    /// The map held by the first `n` members of a record.
    pub open spec fn members_tree(members: Seq<(String, Json)>, n: nat) -> Members
        decreases members, n,
    {
        if n == 0 || n > members.len() {
            Map::empty()
        } else {
            Json::members_tree(members, (n - 1) as nat).insert(
                members[n - 1].0@,
                members[n - 1].1.tree(),
            )
        }
    }

    /// A member that no later member shadows is the one a lookup finds.
    pub proof fn lemma_member_found(members: Seq<(String, Json)>, n: nat, i: int, key: Seq<char>)
        requires
            0 <= i < n <= members.len(),
            members[i].0@ == key,
            forall|k: int| i < k < n ==> members[k].0@ != key,
        ensures
            Json::members_tree(members, n).dom().contains(key),
            Json::members_tree(members, n)[key] == members[i].1.tree(),
        decreases n,
    {
        if i < n - 1 {
            Json::lemma_member_found(members, (n - 1) as nat, i, key);
        }
    }

    /// A name that no member carries is not in the map.
    pub proof fn lemma_member_missing(members: Seq<(String, Json)>, n: nat, key: Seq<char>)
        requires
            n <= members.len(),
            forall|k: int| 0 <= k < n ==> members[k].0@ != key,
        ensures
            !Json::members_tree(members, n).dom().contains(key),
        decreases n,
    {
        if n > 0 {
            Json::lemma_member_missing(members, (n - 1) as nat, key);
        }
    }

    /// Adding a member at the end leaves the map of the earlier ones alone.
    pub proof fn lemma_members_push(members: Seq<(String, Json)>, n: nat, last: (String, Json))
        requires
            n <= members.len(),
        ensures
            Json::members_tree(members.push(last), n) == Json::members_tree(members, n),
        decreases n,
    {
        if n > 0 {
            Json::lemma_members_push(members, (n - 1) as nat, last);
        }
    }

    /// Looks a member of a record up by its name. Anything but a record has
    /// no members.
    pub fn get(&self, key: &str) -> (r: Option<&Json>)
        ensures
            r matches Some(x) ==> member(self@, key@) == Some(x@),
            r is None ==> member(self@, key@) is None,
    {
        match self {
            Json::Record(members) => {
                let wanted = key.to_owned();
                let mut i: usize = members.len();
                assert(self@ == JsonValue::Record(
                    Json::members_tree(members@, members@.len()),
                ));
                while i > 0
                    invariant
                        i <= members.len(),
                        self@ == JsonValue::Record(Json::members_tree(members@, members@.len())),
                        wanted@ == key@,
                        forall|k: int| i <= k < members.len() ==> members@[k].0@ != key@,
                    decreases i,
                {
                    i = i - 1;
                    if members[i].0 == wanted {
                        proof {
                            Json::lemma_member_found(
                                members@,
                                members@.len(),
                                i as int,
                                key@,
                            );
                        }
                        return Some(&members[i].1);
                    }
                }
                proof {
                    Json::lemma_member_missing(members@, members@.len(), key@);
                }
                None
            },
            _ => None,
        }
    }
}

impl View for Json {
    type V = JsonValue;

    open spec fn view(&self) -> JsonValue {
        self.tree()
    }
}

/// Whether a text and a string slice spell the same.
pub fn same_text(a: &String, b: &str) -> (r: bool)
    ensures
        r == (a@ == b@),
{
    let other = b.to_owned();
    *a == other
}

/// `serde_json::Number::as_i64`: the integer a number holds, where it holds
/// one that fits 64 signed bits; a float gives nothing.
#[verifier::external_body]
pub(crate) fn number_as_i64(n: &serde_json::Number) -> (r: Option<i64>)
    ensures
        r == (match number_of(*n) {
            NumericValue::Int(v) => if i64::MIN <= v <= i64::MAX {
                Some(v as i64)
            } else {
                None
            },
            NumericValue::Real(_) => None,
        }),
{
    n.as_i64()
}

/// `serde_json::Number::from` on an `i64`: the number that holds this integer.
#[verifier::external_body]
pub(crate) fn number_from_i64(v: i64) -> (n: serde_json::Number)
    ensures
        number_of(n) == NumericValue::Int(v as int),
{
    serde_json::Number::from(v)
}

/// `Clone::clone` of `serde_json::Number`: a number that holds the same.
pub assume_specification[ <serde_json::Number as Clone>::clone ](
    n: &serde_json::Number,
) -> (r: serde_json::Number)
    ensures
        number_of(r) == number_of(*n),
;

/// Turns a value of the JSON library into a document of this crate, node for
/// node: `serde_json::Value`'s six variants become the six of [`Json`], and an
/// object's members are taken in the order its map yields them.
#[verifier::external_body]
fn lift(v: serde_json::Value) -> (j: Json)
    ensures
        j@ == tree_of(v),
{
    match v {
        serde_json::Value::Null => Json::Null,
        serde_json::Value::Bool(b) => Json::Bool(b),
        serde_json::Value::Number(n) => Json::Number(n),
        serde_json::Value::String(s) => Json::Text(s),
        serde_json::Value::Array(a) => Json::List(a.into_iter().map(lift).collect()),
        serde_json::Value::Object(m) => Json::Record(
            m.into_iter().map(|(k, x)| (k, lift(x))).collect(),
        ),
    }
}

/// Turns a document of this crate into a value of the JSON library, node for
/// node. The members of a record go into a `serde_json::Map` by `insert`, in
/// their order, so a later member replaces an earlier one of the same name.
#[verifier::external_body]
fn lower(j: &Json) -> (v: serde_json::Value)
    ensures
        tree_of(v) == j@,
{
    match j {
        Json::Null => serde_json::Value::Null,
        Json::Bool(b) => serde_json::Value::Bool(*b),
        Json::Number(n) => serde_json::Value::Number(n.clone()),
        Json::Text(s) => serde_json::Value::String(s.clone()),
        Json::List(items) => serde_json::Value::Array(items.iter().map(lower).collect()),
        Json::Record(members) => {
            let mut m = serde_json::Map::new();
            members.iter().for_each(|(k, x)| { m.insert(k.clone(), lower(x)); });
            serde_json::Value::Object(m)
        },
    }
}

/// `serde_json::from_str` at `serde_json::Value`: the value read from a text,
/// or an error where the text is not one JSON document. What is read depends
/// on the text alone.
#[verifier::external_body]
fn read_value(text: &str) -> (r: Result<serde_json::Value, serde_json::Error>)
    ensures
        r matches Ok(v) ==> json_document(text@) == Some(tree_of(v)),
        r is Err ==> json_document(text@) is None,
{
    serde_json::from_str::<serde_json::Value>(text)
}

/// `serde_json::to_string` on a `serde_json::Value`: its compact text, or the
/// empty text in place of an error. What is written depends on the tree alone:
/// the JSON library, built without its `preserve_order` feature, keeps the
/// members of an object in the order of their names.
#[verifier::external_body]
fn write_value(v: &serde_json::Value) -> (s: String)
    ensures
        s@ == json_text(tree_of(*v)),
{
    serde_json::to_string(v).unwrap_or_default()
}

/// Reads one JSON document from a text.
pub fn parse(text: &str) -> (r: Option<Json>)
    ensures
        r matches Some(j) ==> json_document(text@) == Some(j@),
        r is None ==> json_document(text@) is None,
{
    match read_value(text) {
        Ok(v) => Some(lift(v)),
        Err(_) => None,
    }
}

/// Writes a document as compact JSON text.
pub fn render(doc: &Json) -> (s: String)
    ensures
        s@ == json_text(doc@),
{
    let v = lower(doc);
    write_value(&v)
}

} // verus!
