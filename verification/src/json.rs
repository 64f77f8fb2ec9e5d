//! JSON values, as far as routing fees are read from them and written to them.

use crate::fees::{distinct_names, fields_view, members_of};
use vstd::prelude::*;

verus! {

/// Declares [`serde_json::Value`]; of what it holds, [`u64_members`] and
/// [`member_names`] speak.
#[verifier::external_type_specification]
#[verifier::external_body]
pub struct ExJsonValue(serde_json::Value);

/// The members of a JSON object whose values are integers that fit in a
/// `u64`, by name. A value that is no object has none.
pub uninterp spec fn u64_members(value: serde_json::Value) -> Map<Seq<char>, u64>;

/// The names of all members of a JSON object, whatever their values are. A
/// value that is no object has none, not even an empty set of them.
pub uninterp spec fn member_names(value: serde_json::Value) -> Option<Set<Seq<char>>>;

/// `serde_json::Value::index` with a name, then `serde_json::Value::as_u64` on
/// what is found: the member of that name if it is an integer that fits in a
/// `u64`. Neither call panics, on any value and any name.
#[verifier::external_body]
pub(crate) fn u64_member(value: &serde_json::Value, name: &str) -> (member: Option<u64>)
    ensures
        member == u64_members(*value).get(name@),
{
    value[name].as_u64()
}

/// `serde_json::Value::from_iter` on pairs of a name and a number: the object
/// that has each number under its name, and no other members.
#[verifier::external_body]
pub(crate) fn object_of(fields: Vec<(&'static str, u32)>) -> (value: serde_json::Value)
    requires
        distinct_names(fields_view(fields@)),
    ensures
        u64_members(value) == members_of(fields_view(fields@)),
        member_names(value) == Some(members_of(fields_view(fields@)).dom()),
{
    <serde_json::Value as FromIterator<(&'static str, u32)>>::from_iter(fields)
}

} // verus!
