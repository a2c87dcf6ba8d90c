//! JSON values as `serde_json` builds them, and what they hold.

use serde_json::builder::{ArrayBuilder, ObjectBuilder};
use serde_json::Value;
use vstd::prelude::*;

verus! {

/// What a JSON value holds. Integers are told apart by their value alone, and
/// floating-point numbers are not told apart at all.
pub enum Json {
    Null,
    Bool(bool),
    Integer(int),
    Float,
    Text(Seq<char>),
    Array(Seq<Json>),
    Object(Map<Seq<char>, Json>),
}

/// The value type of `serde_json`, opaque here.
#[verifier::external_type_specification]
#[verifier::external_body]
pub struct ExValue(serde_json::Value);

/// The builder of objects of `serde_json`, opaque here.
#[verifier::external_type_specification]
#[verifier::external_body]
pub struct ExObjectBuilder(serde_json::builder::ObjectBuilder);

/// The builder of arrays of `serde_json`, opaque here.
#[verifier::external_type_specification]
#[verifier::external_body]
pub struct ExArrayBuilder(serde_json::builder::ArrayBuilder);

/// What `value` holds.
pub uninterp spec fn json_of(value: serde_json::Value) -> Json;

/// The members that `builder` has gathered, by their keys.
pub uninterp spec fn members(builder: serde_json::builder::ObjectBuilder) -> Map<Seq<char>, Json>;

/// The elements that `builder` has gathered, in order.
pub uninterp spec fn elements(builder: serde_json::builder::ArrayBuilder) -> Seq<Json>;

/// An object without members.
pub open spec fn no_members() -> Map<Seq<char>, Json> {
    Map::empty()
}

/// `after` is `before` with, under `key`, an object that `fill` makes of a
/// builder without members.
pub open spec fn has_filled_object<F: FnOnce(ObjectBuilder) -> ObjectBuilder>(
    fill: F,
    before: Map<Seq<char>, Json>,
    key: Seq<char>,
    after: Map<Seq<char>, Json>,
) -> bool {
    exists|fresh: ObjectBuilder, filled: ObjectBuilder|
        {
            &&& members(fresh) == no_members()
            &&& #[trigger] call_ensures(fill, (fresh,), filled)
            &&& after == before.insert(key, Json::Object(members(filled)))
        }
}

/// `after` is `before` with, under `key`, an array that `fill` makes of a
/// builder without elements.
pub open spec fn has_filled_array<F: FnOnce(ArrayBuilder) -> ArrayBuilder>(
    fill: F,
    before: Map<Seq<char>, Json>,
    key: Seq<char>,
    after: Map<Seq<char>, Json>,
) -> bool {
    exists|fresh: ArrayBuilder, filled: ArrayBuilder|
        {
            &&& elements(fresh) == Seq::<Json>::empty()
            &&& #[trigger] call_ensures(fill, (fresh,), filled)
            &&& after == before.insert(key, Json::Array(elements(filled)))
        }
}

/// `ObjectBuilder::new` starts without members.
pub assume_specification[ serde_json::builder::ObjectBuilder::new ]() -> (builder: ObjectBuilder)
    ensures
        members(builder) == no_members(),
;

/// `ObjectBuilder::build` gives the object of the members gathered so far.
pub assume_specification[ serde_json::builder::ObjectBuilder::build ](
    builder: ObjectBuilder,
) -> (value: Value)
    ensures
        json_of(value) == Json::Object(members(builder)),
;

/// `ObjectBuilder::insert` with an unsigned number: the member under `key`
/// becomes that number, and the others stay.
#[verifier::external_body]
pub(crate) fn insert_u64(builder: ObjectBuilder, key: &str, number: u64) -> (r: ObjectBuilder)
    ensures
        members(r) == members(builder).insert(key@, Json::Integer(number as int)),
{
    builder.insert(key, number)
}

/// `ObjectBuilder::insert` with a truth value: the member under `key` becomes
/// that truth value, and the others stay.
#[verifier::external_body]
pub(crate) fn insert_bool(builder: ObjectBuilder, key: &str, flag: bool) -> (r: ObjectBuilder)
    ensures
        members(r) == members(builder).insert(key@, Json::Bool(flag)),
{
    builder.insert(key, flag)
}

/// `ObjectBuilder::insert` with a string: the member under `key` becomes that
/// string, and the others stay.
#[verifier::external_body]
pub(crate) fn insert_str(builder: ObjectBuilder, key: &str, text: &str) -> (r: ObjectBuilder)
    ensures
        members(r) == members(builder).insert(key@, Json::Text(text@)),
{
    builder.insert(key, text)
}

/// `ObjectBuilder::insert` with the null value: the member under `key` becomes
/// null, and the others stay.
#[verifier::external_body]
pub(crate) fn insert_null(builder: ObjectBuilder, key: &str) -> (r: ObjectBuilder)
    ensures
        members(r) == members(builder).insert(key@, Json::Null),
{
    builder.insert(key, Value::Null)
}

/// `ObjectBuilder::insert_object`: hands `fill` a builder without members, and
/// puts the object that it gives back under `key`; the other members stay.
#[verifier::external_body]
pub(crate) fn insert_object<F: FnOnce(ObjectBuilder) -> ObjectBuilder>(
    builder: ObjectBuilder,
    key: &str,
    fill: F,
) -> (r: ObjectBuilder)
    requires
        forall|fresh: ObjectBuilder|
            members(fresh) == no_members() ==> call_requires(fill, (fresh,)),
    ensures
        has_filled_object(fill, members(builder), key@, members(r)),
{
    builder.insert_object(key, fill)
}

/// `ObjectBuilder::insert_array`: hands `fill` a builder without elements, and
/// puts the array that it gives back under `key`; the other members stay.
#[verifier::external_body]
pub(crate) fn insert_array<F: FnOnce(ArrayBuilder) -> ArrayBuilder>(
    builder: ObjectBuilder,
    key: &str,
    fill: F,
) -> (r: ObjectBuilder)
    requires
        forall|fresh: ArrayBuilder|
            elements(fresh) == Seq::<Json>::empty() ==> call_requires(fill, (fresh,)),
    ensures
        has_filled_array(fill, members(builder), key@, members(r)),
{
    builder.insert_array(key, fill)
}

/// `ArrayBuilder::push` with an unsigned number: that number follows the
/// elements gathered so far.
#[verifier::external_body]
pub(crate) fn push_u64(builder: ArrayBuilder, number: u64) -> (r: ArrayBuilder)
    ensures
        elements(r) == elements(builder).push(Json::Integer(number as int)),
{
    builder.push(number)
}

} // verus!
