//! How values are laid out on the wire: the two traits that message parts
//! implement, the instances for the scalar types and for lists, and the helpers
//! that read and write the members of a record.

use crate::json::{
    number_as_i64,
    number_from_i64,
    number_of,
    Json,
    JsonValue,
    Members,
    NumericValue,
};
use crate::names::Key;
use vstd::prelude::*;

verus! {

/// A value with a JSON form.
///
/// `Model` is what the value is mathematically; `from_tree` and `to_tree` say
/// which trees are read as which values, and `decode` and `encode` compute
/// them. Reading back what was written gives the value again.
pub trait Wire: Sized {
    type Model;

    /// The mathematical value.
    spec fn model(&self) -> Self::Model;

    /// The value a tree is read as; `None` where the tree has the wrong shape.
    spec fn from_tree(t: JsonValue) -> Option<Self::Model>;

    /// The tree a value is written as.
    spec fn to_tree(m: Self::Model) -> JsonValue;

    /// Reads a value from a document.
    fn decode(j: &Json) -> (r: Option<Self>)
        ensures
            r matches Some(x) ==> Self::from_tree(j@) == Some(x.model()),
            r is None ==> Self::from_tree(j@) is None,
    ;

    /// Writes a value as a document.
    fn encode(&self) -> (j: Json)
        ensures
            j@ == Self::to_tree(self.model()),
    ;

    /// Every value is read back from the tree it is written as.
    proof fn round_trip(m: Self::Model)
        ensures
            Self::from_tree(Self::to_tree(m)) == Some(m),
    ;
}

/// A value whose JSON form is an object with one member per field.
///
/// Every type that implements `Record` is [`Wire`]: it is read from any object
/// whose members `read` accepts, whatever else the object holds, and written
/// as the object that holds its fields and nothing more. `written` adds the
/// members to a map that may already hold the shape's tag, so that the same
/// code writes the value alone and inside an envelope.
pub trait Record: Sized {
    /// The mathematical value: one part for each field.
    type Fields;

    /// The fields of a value.
    spec fn fields(&self) -> Self::Fields;

    /// The fields read from the members of an object; `None` where a required
    /// member is missing or a member of the type has the wrong shape.
    spec fn read(members: Members) -> Option<Self::Fields>;

    /// `base` with one member added for each field that is present.
    spec fn written(base: Members, f: Self::Fields) -> Members;

    /// Reads the fields from the members of an object.
    fn read_fields(j: &Json) -> (r: Option<Self>)
        ensures
            r matches Some(x) ==> Self::read(members_of(j@)) == Some(x.fields()),
            r is None ==> Self::read(members_of(j@)) is None,
    ;

    /// Adds one member for each field that is present.
    fn write_fields(&self, members: &mut Vec<(String, Json)>)
        ensures
            members_map(final(members)@) == Self::written(
                members_map(old(members)@),
                self.fields(),
            ),
    ;

    /// The fields are read back from what was written, whether or not the tag
    /// stands beside them.
    proof fn lemma_read_written(base: Members, f: Self::Fields)
        requires
            only_tag(base),
        ensures
            Self::read(Self::written(base, f)) == Some(f),
            lookup(Self::written(base, f), Key::Type) == lookup(base, Key::Type),
    ;
}

impl<T: Record> Wire for T {
    type Model = T::Fields;

    open spec fn model(&self) -> T::Fields {
        self.fields()
    }

    open spec fn from_tree(t: JsonValue) -> Option<T::Fields> {
        match t {
            JsonValue::Record(members) => T::read(members),
            _ => None,
        }
    }

    open spec fn to_tree(m: T::Fields) -> JsonValue {
        JsonValue::Record(T::written(Map::empty(), m))
    }

    fn decode(j: &Json) -> (r: Option<T>) {
        if is_record(j) {
            T::read_fields(j)
        } else {
            None
        }
    }

    fn encode(&self) -> (j: Json) {
        let mut members: Vec<(String, Json)> = Vec::new();
        assert(members_map(members@) == Members::empty());
        self.write_fields(&mut members);
        record_of(members)
    }

    proof fn round_trip(m: T::Fields) {
        lemma_empty_only_tag();
        T::lemma_read_written(Map::empty(), m);
    }
}

/// The map that the members of a record hold.
pub open spec fn members_map(members: Seq<(String, Json)>) -> Members {
    Json::members_tree(members, members.len())
}

/// The members of an object; anything else has none.
pub open spec fn members_of(t: JsonValue) -> Members {
    match t {
        JsonValue::Record(members) => members,
        _ => Map::empty(),
    }
}

/// The member that goes by a key.
#[verifier::opaque]
pub open spec fn lookup(members: Members, key: Key) -> Option<JsonValue> {
    if members.dom().contains(key.name()) {
        Some(members[key.name()])
    } else {
        None
    }
}

/// Whether a map holds no member under a key of the protocol, but perhaps the
/// tag.
pub open spec fn only_tag(members: Members) -> bool {
    forall|k: Key| k != Key::Type ==> (#[trigger] lookup(members, k)) is None
}

/// What a required field makes of a member: it must be there and have the
/// field's shape.
#[verifier::opaque]
pub open spec fn read_req<T: Wire>(v: Option<JsonValue>) -> Option<T::Model> {
    match v {
        Some(x) => T::from_tree(x),
        None => None,
    }
}

/// What an optional field makes of a member: an absent member reads as
/// `Some(None)`, a member of the field's shape as `Some(Some(_))`, and any
/// other member, `null` too, is refused with `None`. Absent and `null` are
/// thus told apart: a frame that holds `null` for an optional field is not
/// read with the field absent, it is dropped whole as malformed.
#[verifier::opaque]
pub open spec fn read_opt<T: Wire>(v: Option<JsonValue>) -> Option<Option<T::Model>> {
    match v {
        Some(x) => match T::from_tree(x) {
            Some(m) => Some(Some(m)),
            None => None,
        },
        None => Some(None),
    }
}

/// A required field of an object.
pub open spec fn req<T: Wire>(members: Members, key: Key) -> Option<T::Model> {
    read_req::<T>(lookup(members, key))
}

/// An optional field of an object.
pub open spec fn opt<T: Wire>(members: Members, key: Key) -> Option<Option<T::Model>> {
    read_opt::<T>(lookup(members, key))
}

/// The map with a required field written into it.
#[verifier::opaque]
pub open spec fn put<T: Wire>(base: Members, key: Key, m: T::Model) -> Members {
    base.insert(key.name(), T::to_tree(m))
}

/// The map with an optional field written into it: an absent field adds no
/// member.
#[verifier::opaque]
pub open spec fn put_opt<T: Wire>(base: Members, key: Key, m: Option<T::Model>) -> Members {
    match m {
        Some(x) => base.insert(key.name(), T::to_tree(x)),
        None => base,
    }
}

/// The model of an optional value.
pub open spec fn opt_model<T: Wire>(v: Option<T>) -> Option<T::Model> {
    match v {
        Some(x) => Some(x.model()),
        None => None,
    }
}

/// The empty map holds no member at all.
pub proof fn lemma_empty_only_tag()
    ensures
        only_tag(Map::empty()),
{
    reveal(lookup);
}

/// A map that holds the tag and nothing else.
pub proof fn lemma_tag_only_tag(tag: JsonValue)
    ensures
        only_tag(Members::empty().insert(Key::Type.name(), tag)),
        lookup(Members::empty().insert(Key::Type.name(), tag), Key::Type) == Some(tag),
{
    reveal(lookup);
    Key::lemma_names_differ();
}

/// A required field is read back from the map it was written into, and the
/// other members stay as they were.
pub proof fn lemma_put<T: Wire>(base: Members, key: Key, m: T::Model)
    ensures
        req::<T>(put::<T>(base, key, m), key) == Some(m),
        forall|other: Key|
            other != key ==> #[trigger] lookup(put::<T>(base, key, m), other) == lookup(
                base,
                other,
            ),
{
    reveal(put);
    reveal(lookup);
    reveal(read_req);
    Key::lemma_names_differ();
    T::round_trip(m);
}

/// An optional field is read back from the map it was written into, provided
/// the map held no member of that name before, and the other members stay as
/// they were.
pub proof fn lemma_put_opt<T: Wire>(base: Members, key: Key, m: Option<T::Model>)
    requires
        lookup(base, key) is None,
    ensures
        opt::<T>(put_opt::<T>(base, key, m), key) == Some(m),
        forall|other: Key|
            other != key ==> #[trigger] lookup(put_opt::<T>(base, key, m), other) == lookup(
                base,
                other,
            ),
{
    reveal(put_opt);
    reveal(lookup);
    reveal(read_opt);
    Key::lemma_names_differ();
    if m is Some {
        T::round_trip(m->0);
    }
}

/// The record that a list of members stands for.
pub fn record_of(members: Vec<(String, Json)>) -> (r: Json)
    ensures
        r@ == JsonValue::Record(members_map(members@)),
{
    Json::Record(members)
}

/// Whether a document is an object.
pub fn is_record(j: &Json) -> (r: bool)
    ensures
        r == (j@ is Record),
{
    match j {
        Json::Record(_) => true,
        _ => false,
    }
}

/// Reads a required field of an object.
pub fn required<T: Wire>(j: &Json, key: Key) -> (r: Option<T>)
    ensures
        r matches Some(x) ==> req::<T>(members_of(j@), key) == Some(x.model()),
        r is None ==> req::<T>(members_of(j@), key) is None,
{
    reveal(lookup);
    reveal(read_req);
    match j.get(key.text()) {
        Some(v) => T::decode(v),
        None => None,
    }
}

/// Reads an optional field of an object. The outer `None` says that the member
/// is there and has the wrong shape.
pub fn optional<T: Wire>(j: &Json, key: Key) -> (r: Option<Option<T>>)
    ensures
        r matches Some(x) ==> opt::<T>(members_of(j@), key) == Some(opt_model(x)),
        r is None ==> opt::<T>(members_of(j@), key) is None,
{
    reveal(lookup);
    reveal(read_opt);
    match j.get(key.text()) {
        Some(v) => match T::decode(v) {
            Some(x) => Some(Some(x)),
            None => None,
        },
        None => Some(None),
    }
}

/// A copy of a value, made by way of its JSON form.
pub fn duplicate<T: Wire>(value: &T) -> (r: T)
    ensures
        r.model() == value.model(),
{
    let j = value.encode();
    proof {
        T::round_trip(value.model());
    }
    match T::decode(&j) {
        Some(copy) => copy,
        None => vstd::pervasive::unreached(),
    }
}

/// Adds a member for a document that is already written.
pub fn push_member(members: &mut Vec<(String, Json)>, key: &str, value: Json)
    ensures
        members_map(final(members)@) == members_map(old(members)@).insert(key@, value@),
{
    let ghost before = members@;
    let entry = (key.to_owned(), value);
    members.push(entry);
    proof {
        Json::lemma_members_push(before, before.len(), entry);
        assert(Json::members_tree(members@, members@.len()) == Json::members_tree(
            members@,
            before.len(),
        ).insert(key@, value@));
    }
}

/// Writes a required field.
pub fn emit<T: Wire>(members: &mut Vec<(String, Json)>, key: Key, value: &T)
    ensures
        members_map(final(members)@) == put::<T>(members_map(old(members)@), key, value.model()),
{
    reveal(put);
    let j = value.encode();
    push_member(members, key.text(), j);
}

/// Writes an optional field.
pub fn emit_opt<T: Wire>(members: &mut Vec<(String, Json)>, key: Key, value: &Option<T>)
    ensures
        members_map(final(members)@) == put_opt::<T>(
            members_map(old(members)@),
            key,
            opt_model(*value),
        ),
{
    reveal(put_opt);
    match value {
        Some(x) => {
            let j = x.encode();
            push_member(members, key.text(), j);
        },
        None => {},
    }
}

impl Wire for bool {
    type Model = bool;

    open spec fn model(&self) -> bool {
        *self
    }

    open spec fn from_tree(t: JsonValue) -> Option<bool> {
        match t {
            JsonValue::Bool(b) => Some(b),
            _ => None,
        }
    }

    open spec fn to_tree(m: bool) -> JsonValue {
        JsonValue::Bool(m)
    }

    fn decode(j: &Json) -> (r: Option<bool>) {
        match j {
            Json::Bool(b) => Some(*b),
            _ => None,
        }
    }

    fn encode(&self) -> (j: Json) {
        Json::Bool(*self)
    }

    proof fn round_trip(m: bool) {
    }
}

impl Wire for i32 {
    type Model = i32;

    open spec fn model(&self) -> i32 {
        *self
    }

    /// An integer written without fraction or exponent that fits 32 signed
    /// bits.
    open spec fn from_tree(t: JsonValue) -> Option<i32> {
        match t {
            JsonValue::Number(NumericValue::Int(v)) => if i32::MIN <= v <= i32::MAX {
                Some(v as i32)
            } else {
                None
            },
            _ => None,
        }
    }

    open spec fn to_tree(m: i32) -> JsonValue {
        JsonValue::Number(NumericValue::Int(m as int))
    }

    fn decode(j: &Json) -> (r: Option<i32>) {
        match j {
            Json::Number(n) => match number_as_i64(n) {
                Some(v) => if -2147483648 <= v && v <= 2147483647 {
                    Some(v as i32)
                } else {
                    None
                },
                None => None,
            },
            _ => None,
        }
    }

    fn encode(&self) -> (j: Json) {
        Json::Number(number_from_i64(*self as i64))
    }

    proof fn round_trip(m: i32) {
    }
}

impl Wire for u16 {
    type Model = u16;

    open spec fn model(&self) -> u16 {
        *self
    }

    /// An integer written without fraction or exponent, from 0 to 65535.
    open spec fn from_tree(t: JsonValue) -> Option<u16> {
        match t {
            JsonValue::Number(NumericValue::Int(v)) => if 0 <= v <= u16::MAX {
                Some(v as u16)
            } else {
                None
            },
            _ => None,
        }
    }

    open spec fn to_tree(m: u16) -> JsonValue {
        JsonValue::Number(NumericValue::Int(m as int))
    }

    fn decode(j: &Json) -> (r: Option<u16>) {
        match j {
            Json::Number(n) => match number_as_i64(n) {
                Some(v) => if 0 <= v && v <= 65535 {
                    Some(v as u16)
                } else {
                    None
                },
                None => None,
            },
            _ => None,
        }
    }

    fn encode(&self) -> (j: Json) {
        Json::Number(number_from_i64(*self as i64))
    }

    proof fn round_trip(m: u16) {
    }
}

/// A measured quantity (a coordinate, an angle, an energy) is carried as the
/// JSON number itself: any number is read, and nothing is computed with it.
impl Wire for serde_json::Number {
    type Model = NumericValue;

    open spec fn model(&self) -> NumericValue {
        number_of(*self)
    }

    open spec fn from_tree(t: JsonValue) -> Option<NumericValue> {
        match t {
            JsonValue::Number(n) => Some(n),
            _ => None,
        }
    }

    open spec fn to_tree(m: NumericValue) -> JsonValue {
        JsonValue::Number(m)
    }

    fn decode(j: &Json) -> (r: Option<serde_json::Number>) {
        match j {
            Json::Number(n) => Some(n.clone()),
            _ => None,
        }
    }

    fn encode(&self) -> (j: Json) {
        Json::Number(self.clone())
    }

    proof fn round_trip(m: NumericValue) {
    }
}

impl Wire for String {
    type Model = Seq<char>;

    open spec fn model(&self) -> Seq<char> {
        self@
    }

    open spec fn from_tree(t: JsonValue) -> Option<Seq<char>> {
        match t {
            JsonValue::Text(s) => Some(s),
            _ => None,
        }
    }

    open spec fn to_tree(m: Seq<char>) -> JsonValue {
        JsonValue::Text(m)
    }

    fn decode(j: &Json) -> (r: Option<String>) {
        match j {
            Json::Text(s) => Some(s.clone()),
            _ => None,
        }
    }

    fn encode(&self) -> (j: Json) {
        Json::Text(self.clone())
    }

    proof fn round_trip(m: Seq<char>) {
    }
}

impl<T: Wire> Wire for Vec<T> {
    type Model = Seq<T::Model>;

    open spec fn model(&self) -> Seq<T::Model> {
        Seq::new(self@.len(), |i: int| self@[i].model())
    }

    /// A list all of whose items have the item shape.
    open spec fn from_tree(t: JsonValue) -> Option<Seq<T::Model>> {
        match t {
            JsonValue::List(items) => if forall|i: int|
                0 <= i < items.len() ==> (#[trigger] T::from_tree(items[i])) is Some {
                Some(Seq::new(items.len(), |i: int| T::from_tree(items[i])->0))
            } else {
                None
            },
            _ => None,
        }
    }

    open spec fn to_tree(m: Seq<T::Model>) -> JsonValue {
        JsonValue::List(Seq::new(m.len(), |i: int| T::to_tree(m[i])))
    }

    fn decode(j: &Json) -> (r: Option<Vec<T>>) {
        match j {
            Json::List(items) => {
                let mut out: Vec<T> = Vec::new();
                let mut i: usize = 0;
                assert(j@ matches JsonValue::List(trees) && trees.len() == items@.len()
                    && forall|k: int| 0 <= k < items@.len() ==> trees[k] == items@[k]@);
                while i < items.len()
                    invariant
                        i <= items.len(),
                        out@.len() == i,
                        j@ matches JsonValue::List(trees) && trees.len() == items@.len()
                            && forall|k: int| 0 <= k < items@.len() ==> trees[k] == items@[k]@,
                        forall|k: int|
                            0 <= k < i ==> T::from_tree(#[trigger] items@[k]@) == Some(
                                out@[k].model(),
                            ),
                    decreases items.len() - i,
                {
                    match T::decode(&items[i]) {
                        Some(x) => {
                            out.push(x);
                        },
                        None => {
                            assert(T::from_tree(j@->List_0[i as int]) is None);
                            return None;
                        },
                    }
                    i = i + 1;
                }
                proof {
                    let trees = j@->List_0;
                    assert forall|k: int| 0 <= k < trees.len() implies (#[trigger] T::from_tree(
                        trees[k],
                    )) is Some by {
                        assert(T::from_tree(items@[k]@) == Some(out@[k].model()));
                    }
                    assert(out.model() =~= Seq::new(
                        trees.len(),
                        |k: int| T::from_tree(trees[k])->0,
                    )) by {
                        assert forall|k: int| 0 <= k < trees.len() implies out.model()[k]
                            == T::from_tree(trees[k])->0 by {
                            assert(T::from_tree(items@[k]@) == Some(out@[k].model()));
                        }
                    }
                }
                Some(out)
            },
            _ => None,
        }
    }

    fn encode(&self) -> (j: Json) {
        let mut items: Vec<Json> = Vec::new();
        let mut i: usize = 0;
        while i < self.len()
            invariant
                i <= self.len(),
                items@.len() == i,
                forall|k: int|
                    0 <= k < i ==> (#[trigger] items@[k])@ == T::to_tree(self@[k].model()),
            decreases self.len() - i,
        {
            let item = self[i].encode();
            items.push(item);
            i = i + 1;
        }
        let j = Json::List(items);
        assert(j@->List_0 =~= Self::to_tree(self.model())->List_0);
        j
    }

    proof fn round_trip(m: Seq<T::Model>) {
        let items = Self::to_tree(m)->List_0;
        assert forall|i: int| 0 <= i < items.len() implies (#[trigger] T::from_tree(
            items[i],
        )) == Some(m[i]) by {
            T::round_trip(m[i]);
        }
        assert(Seq::new(items.len(), |i: int| T::from_tree(items[i])->0) =~= m);
    }
}

} // verus!
