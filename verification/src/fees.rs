//! Routing fees, the fields that they are stored as, and how the two relate.

use crate::json::{member_names, object_of, u64_members};
use vstd::prelude::*;

verus! {

/// Fees for routing through a channel or a node.
#[derive(Clone, Copy, Debug, PartialEq, Eq, Hash, Structural)]
pub struct RoutingFees {
    /// Flat routing fee in millisatoshis
    pub base_msat: u32,
    /// Liquidity-based routing fee in millionths of a routed amount.
    /// In other words, 10000 is 1%.
    pub proportional_millionths: u32,
}

/// Why stored fields are no routing fees.
#[derive(Clone, Copy, Debug, PartialEq, Eq, Hash, Structural)]
pub enum RoutingFeesError {
    BaseMsatNotU64,
    ProportionalMillionthsNotU64,
    BaseMsatTooLarge,
    ProportionalMillionthsTooLarge,
}

impl RoutingFeesError {
    /// Text of an error.
    pub open spec fn text(self) -> Seq<char> {
        match self {
            RoutingFeesError::BaseMsatNotU64 => "base_msat is not a u64"@,
            RoutingFeesError::ProportionalMillionthsNotU64 =>
                "proportional_millionths is not a u64"@,
            RoutingFeesError::BaseMsatTooLarge => "base_msat is greater than u32::MAX"@,
            RoutingFeesError::ProportionalMillionthsTooLarge =>
                "proportional_millionths is greater than u32::MAX"@,
        }
    }

    /// Tells the reason in words.
    pub fn to_string(&self) -> (text: String)
        ensures
            text@ == self.text(),
    {
        match self {
            RoutingFeesError::BaseMsatNotU64 => "base_msat is not a u64".to_owned(),
            RoutingFeesError::ProportionalMillionthsNotU64 =>
                "proportional_millionths is not a u64".to_owned(),
            RoutingFeesError::BaseMsatTooLarge => "base_msat is greater than u32::MAX".to_owned(),
            RoutingFeesError::ProportionalMillionthsTooLarge =>
                "proportional_millionths is greater than u32::MAX".to_owned(),
        }
    }
}

/// A named struct as a serializer takes it: the name, then the fields one
/// after the other.
#[derive(Debug, PartialEq, Eq, Hash)]
pub struct SerializedStruct {
    pub name: &'static str,
    pub fields: Vec<(&'static str, u32)>,
}

impl SerializedStruct {
    /// Makes the JSON object that has each field's value under its name, and
    /// nothing else.
    pub fn to_json(self) -> (object: serde_json::Value)
        requires
            distinct_names(self@.fields),
        ensures
            u64_members(object) == members_of(self@.fields),
            member_names(object) == Some(members_of(self@.fields).dom()),
            forall|i: int|
                0 <= i < self.fields@.len() ==> u64_members(object).get(
                    (#[trigger] self.fields@[i]).0@,
                ) == Some(self.fields@[i].1 as u64),
            forall|name: Seq<char>| #[trigger]
                u64_members(object).contains_key(name) ==> exists|i: int|
                    0 <= i < self.fields@.len() && (#[trigger] self.fields@[i]).0@ == name,
    {
        proof {
            law_fields_of_struct(self);
            assert forall|i: int| 0 <= i < self.fields@.len() implies members_of(
                self@.fields,
            ).get((#[trigger] self.fields@[i]).0@) == Some(self.fields@[i].1 as u64) by {
                law_members_are_the_fields(self@.fields, i, self.fields@[i].0@);
            }
            assert forall|name: Seq<char>| #[trigger]
                members_of(self@.fields).contains_key(name) implies exists|i: int|
                0 <= i < self.fields@.len() && (#[trigger] self.fields@[i]).0@ == name by {
                lemma_member_is_field(self@.fields, name);
                let i = choose|i: int|
                    0 <= i < self@.fields.len() && (#[trigger] self@.fields[i]).0 == name;
                assert(self.fields@[i].0@ == name);
            }
        }
        object_of(self.fields)
    }
}

/// What a [`SerializedStruct`] holds.
#[verifier::ext_equal]
pub struct SerializedStructView {
    pub name: Seq<char>,
    pub fields: Seq<(Seq<char>, u32)>,
}

impl View for SerializedStruct {
    type V = SerializedStructView;

    open spec fn view(&self) -> SerializedStructView {
        SerializedStructView { name: self.name@, fields: fields_view(self.fields@) }
    }
}

/// The fields with their names as texts.
pub open spec fn fields_view(fields: Seq<(&'static str, u32)>) -> Seq<(Seq<char>, u32)> {
    fields.map_values(|field: (&'static str, u32)| (field.0@, field.1))
}

/// No two fields have the same name.
pub open spec fn distinct_names(fields: Seq<(Seq<char>, u32)>) -> bool {
    forall|i: int, j: int|
        0 <= i < j < fields.len() ==> (#[trigger] fields[i]).0 != (#[trigger] fields[j]).0
}

/// The members of an object that has each field's value under its name.
pub open spec fn members_of(fields: Seq<(Seq<char>, u32)>) -> Map<Seq<char>, u64>
    decreases fields.len(),
{
    if fields.len() == 0 {
        Map::empty()
    } else {
        members_of(fields.drop_last()).insert(fields.last().0, fields.last().1 as u64)
    }
}

/// The fees as a serializer takes them.
pub open spec fn serialized(fees: RoutingFees) -> SerializedStructView {
    SerializedStructView {
        name: "RoutingFees"@,
        fields: seq![
            ("base_msat"@, fees.base_msat),
            ("proportional_millionths"@, fees.proportional_millionths),
        ],
    }
}

/// Fees that may be missing, as a serializer takes them: missing fees have no
/// fields.
pub open spec fn serialized_option(fees: Option<RoutingFees>) -> SerializedStructView {
    match fees {
        Some(fees) => serialized(fees),
        None => SerializedStructView { name: "RoutingFees"@, fields: Seq::empty() },
    }
}

/// The fees that two stored numbers stand for: both have to be there, and both
/// have to fit in 32 bits. That one is missing is noticed before that one is
/// too large, and the base fee before the other.
pub open spec fn fees_of_numbers(
    base_msat: Option<u64>,
    proportional_millionths: Option<u64>,
) -> Result<RoutingFees, RoutingFeesError> {
    match (base_msat, proportional_millionths) {
        (None, _) => Err(RoutingFeesError::BaseMsatNotU64),
        (Some(_), None) => Err(RoutingFeesError::ProportionalMillionthsNotU64),
        (Some(base), Some(proportional)) => if base > u32::MAX {
            Err(RoutingFeesError::BaseMsatTooLarge)
        } else if proportional > u32::MAX {
            Err(RoutingFeesError::ProportionalMillionthsTooLarge)
        } else {
            Ok(RoutingFees { base_msat: base as u32, proportional_millionths: proportional as u32 })
        },
    }
}

/// The fees that two stored numbers stand for, where there need not be any:
/// there are none if one of the numbers is missing.
pub open spec fn option_fees_of_numbers(
    base_msat: Option<u64>,
    proportional_millionths: Option<u64>,
) -> Result<Option<RoutingFees>, RoutingFeesError> {
    match (base_msat, proportional_millionths) {
        (Some(base), Some(proportional)) => if base > u32::MAX {
            Err(RoutingFeesError::BaseMsatTooLarge)
        } else if proportional > u32::MAX {
            Err(RoutingFeesError::ProportionalMillionthsTooLarge)
        } else {
            Ok(
                Some(
                    RoutingFees {
                        base_msat: base as u32,
                        proportional_millionths: proportional as u32,
                    },
                ),
            )
        },
        _ => Ok(None),
    }
}

/// The fees that an object with these unsigned members stands for.
pub open spec fn fees_of(members: Map<Seq<char>, u64>) -> Result<RoutingFees, RoutingFeesError> {
    fees_of_numbers(members.get("base_msat"@), members.get("proportional_millionths"@))
}

/// The fees that an object with these unsigned members stands for, where there
/// need not be any.
pub open spec fn option_fees_of(members: Map<Seq<char>, u64>) -> Result<
    Option<RoutingFees>,
    RoutingFeesError,
> {
    option_fees_of_numbers(members.get("base_msat"@), members.get("proportional_millionths"@))
}

/// The two fields have different names.
pub proof fn lemma_names_differ()
    ensures
        "base_msat"@ != "proportional_millionths"@,
{
    reveal_strlit("base_msat");
    reveal_strlit("proportional_millionths");
    assert("base_msat"@.len() != "proportional_millionths"@.len());
}

/// The members of an object made from serialized fees are the two fees.
proof fn lemma_serialized_members(fees: RoutingFees)
    ensures
        distinct_names(serialized(fees).fields),
        members_of(serialized(fees).fields) == Map::<Seq<char>, u64>::empty().insert(
            "base_msat"@,
            fees.base_msat as u64,
        ).insert("proportional_millionths"@, fees.proportional_millionths as u64),
{
    lemma_names_differ();
    let fields = serialized(fees).fields;
    let base = seq![("base_msat"@, fees.base_msat)];
    assert(fields.drop_last() =~= base);
    assert(base.drop_last() =~= Seq::empty());
    assert(members_of(base.drop_last()) == Map::<Seq<char>, u64>::empty());
    assert(members_of(base) == Map::<Seq<char>, u64>::empty().insert(
        "base_msat"@,
        fees.base_msat as u64,
    ));
}

/// Fees that were serialized into an object are read back from it as they were.
pub proof fn law_fees_round_trip(fees: RoutingFees)
    ensures
        fees_of(members_of(serialized(fees).fields)) == Ok::<RoutingFees, RoutingFeesError>(fees),
{
    lemma_names_differ();
    lemma_serialized_members(fees);
}

/// Fees that may be missing, serialized into an object, are read back from it
/// as they were: present fees with their values, missing ones as missing.
pub proof fn law_option_fees_round_trip(fees: Option<RoutingFees>)
    ensures
        option_fees_of(members_of(serialized_option(fees).fields)) == Ok::<
            Option<RoutingFees>,
            RoutingFeesError,
        >(fees),
{
    lemma_names_differ();
    if let Some(present) = fees {
        lemma_serialized_members(present);
    }
}

/// The two ways to read fees agree: where fees may be missing, an object
/// without one of the two members has none, and every other object gives the
/// same fees, or the same error, as where they may not.
pub proof fn law_option_fees_extend_fees(members: Map<Seq<char>, u64>)
    ensures
        option_fees_of(members) == (match fees_of(members) {
            Ok(fees) => Ok(Some(fees)),
            Err(RoutingFeesError::BaseMsatNotU64) => Ok(None),
            Err(RoutingFeesError::ProportionalMillionthsNotU64) => Ok(None),
            Err(error) => Err(error),
        }),
{
}

/// Members other than the two fees do not matter.
pub proof fn law_other_members_are_ignored(
    members: Map<Seq<char>, u64>,
    name: Seq<char>,
    value: u64,
)
    requires
        name != "base_msat"@,
        name != "proportional_millionths"@,
    ensures
        fees_of(members.insert(name, value)) == fees_of(members),
        option_fees_of(members.insert(name, value)) == option_fees_of(members),
{
}

/// A struct holds its name and its fields as they are, in their order.
pub proof fn law_fields_of_struct(state: SerializedStruct)
    ensures
        state@.name == state.name@,
        state@.fields.len() == state.fields@.len(),
        forall|i: int|
            0 <= i < state.fields@.len() ==> #[trigger] state@.fields[i] == (
                state.fields@[i].0@,
                state.fields@[i].1,
            ),
{
}

proof fn lemma_member_is_field(fields: Seq<(Seq<char>, u32)>, name: Seq<char>)
    requires
        members_of(fields).contains_key(name),
    ensures
        exists|i: int| 0 <= i < fields.len() && (#[trigger] fields[i]).0 == name,
    decreases fields.len(),
{
    if fields.len() > 0 {
        if fields.last().0 == name {
            assert(fields[fields.len() - 1].0 == name);
        } else {
            lemma_member_is_field(fields.drop_last(), name);
            let i = choose|i: int|
                0 <= i < fields.drop_last().len() && (#[trigger] fields.drop_last()[i]).0 == name;
            assert(fields[i].0 == name);
        }
    }
}

/// Where no two fields have the same name, the members of an object made from
/// fields are the fields: each has its value under its name, and no other name
/// is there.
pub proof fn law_members_are_the_fields(fields: Seq<(Seq<char>, u32)>, i: int, name: Seq<char>)
    requires
        forall|j: int, k: int|
            0 <= j < k < fields.len() ==> (#[trigger] fields[j]).0 != (#[trigger] fields[k]).0,
        0 <= i < fields.len(),
    ensures
        members_of(fields).contains_key(fields[i].0),
        members_of(fields)[fields[i].0] == fields[i].1,
        members_of(fields).contains_key(name) ==> exists|j: int|
            0 <= j < fields.len() && (#[trigger] fields[j]).0 == name,
    decreases fields.len(),
{
    if members_of(fields).contains_key(name) {
        lemma_member_is_field(fields, name);
    }
    if i < fields.len() - 1 {
        assert(fields.drop_last()[i] == fields[i]);
        law_members_are_the_fields(fields.drop_last(), i, name);
        assert(fields[fields.len() - 1].0 != fields[i].0);
    }
}

/// An object made from no fields has no members.
pub proof fn law_no_fields_no_members(fields: Seq<(Seq<char>, u32)>, name: Seq<char>)
    requires
        fields.len() == 0,
    ensures
        !members_of(fields).contains_key(name),
{
}

/// Names are distinct exactly if fields of the same name are the same field.
pub proof fn law_distinct_names(fields: Seq<(Seq<char>, u32)>)
    ensures
        distinct_names(fields) <==> forall|i: int, j: int|
            0 <= i < fields.len() && 0 <= j < fields.len() && (#[trigger] fields[i]).0 == (
            #[trigger] fields[j]).0 ==> i == j,
{
}

/// Fees are stored as a struct named `RoutingFees` of two fields, the base fee
/// before the proportional one, each with its whole value under its own name.
pub proof fn law_stored_fees(fees: RoutingFees)
    ensures
        serialized(fees).name == "RoutingFees"@,
        serialized(fees).fields.len() == 2,
        serialized(fees).fields[0] == ("base_msat"@, fees.base_msat),
        serialized(fees).fields[1] == ("proportional_millionths"@, fees.proportional_millionths),
{
}

/// Fees that may be missing are stored as fees that may not if they are there,
/// and as a struct of the same name without fields if they are missing.
pub proof fn law_stored_option_fees(fees: RoutingFees)
    ensures
        serialized_option(Some(fees)) == serialized(fees),
        serialized_option(None).name == "RoutingFees"@,
        serialized_option(None).fields.len() == 0,
{
}

/// From an object without one of the two members no fees are read: where they
/// may be missing they are, and where they may not it is an error that names
/// the missing member, the base fee first.
pub proof fn law_fees_need_both_members(members: Map<Seq<char>, u64>)
    ensures
        !members.contains_key("base_msat"@) ==> fees_of(members) == Err::<
            RoutingFees,
            RoutingFeesError,
        >(RoutingFeesError::BaseMsatNotU64),
        members.contains_key("base_msat"@) && !members.contains_key("proportional_millionths"@)
            ==> fees_of(members) == Err::<RoutingFees, RoutingFeesError>(
            RoutingFeesError::ProportionalMillionthsNotU64,
        ),
        !members.contains_key("base_msat"@) || !members.contains_key("proportional_millionths"@)
            ==> option_fees_of(members) == Ok::<Option<RoutingFees>, RoutingFeesError>(None),
{
}

/// Fees are read if and only if both members are there and at most `u32::MAX`,
/// and then they are the two members' values.
pub proof fn law_fees_are_the_members(members: Map<Seq<char>, u64>)
    ensures
        fees_of(members) is Ok <==> members.contains_key("base_msat"@)
            && members.contains_key("proportional_millionths"@) && members["base_msat"@]
            <= u32::MAX && members["proportional_millionths"@] <= u32::MAX,
        fees_of(members) matches Ok(fees) ==> fees.base_msat == members["base_msat"@]
            && fees.proportional_millionths == members["proportional_millionths"@],
        option_fees_of(members) matches Ok(Some(fees)) ==> members.contains_key("base_msat"@)
            && members.contains_key("proportional_millionths"@) && fees.base_msat
            == members["base_msat"@] && fees.proportional_millionths
            == members["proportional_millionths"@],
{
}

/// A member that is there and larger than `u32::MAX` is an error that names it,
/// the base fee first, where both members are there.
pub proof fn law_fees_that_are_too_large(members: Map<Seq<char>, u64>)
    requires
        members.contains_key("base_msat"@),
        members.contains_key("proportional_millionths"@),
    ensures
        members["base_msat"@] > u32::MAX ==> fees_of(members) == Err::<
            RoutingFees,
            RoutingFeesError,
        >(RoutingFeesError::BaseMsatTooLarge) && option_fees_of(members) == Err::<
            Option<RoutingFees>,
            RoutingFeesError,
        >(RoutingFeesError::BaseMsatTooLarge),
        members["base_msat"@] <= u32::MAX && members["proportional_millionths"@] > u32::MAX
            ==> fees_of(members) == Err::<RoutingFees, RoutingFeesError>(
            RoutingFeesError::ProportionalMillionthsTooLarge,
        ) && option_fees_of(members) == Err::<Option<RoutingFees>, RoutingFeesError>(
            RoutingFeesError::ProportionalMillionthsTooLarge,
        ),
{
}

/// Reading fees from an object is reading them from its two members, and two
/// numbers are fees if and only if both are there and at most `u32::MAX`.
pub proof fn law_fees_are_the_numbers(base: Option<u64>, proportional: Option<u64>)
    ensures
        fees_of_numbers(base, proportional) is Ok <==> (base matches Some(b) && b <= u32::MAX) && (
        proportional matches Some(p) && p <= u32::MAX),
        fees_of_numbers(base, proportional) matches Ok(fees) ==> base == Some(
            fees.base_msat as u64,
        ) && proportional == Some(fees.proportional_millionths as u64),
        option_fees_of_numbers(base, proportional) matches Ok(Some(fees)) ==> base == Some(
            fees.base_msat as u64,
        ) && proportional == Some(fees.proportional_millionths as u64),
        option_fees_of_numbers(base, proportional) == Ok::<Option<RoutingFees>, RoutingFeesError>(
            None,
        ) <==> base is None || proportional is None,
        fees_of_numbers(base, proportional) == Err::<RoutingFees, RoutingFeesError>(
            RoutingFeesError::BaseMsatNotU64,
        ) <==> base is None,
        fees_of_numbers(base, proportional) == Err::<RoutingFees, RoutingFeesError>(
            RoutingFeesError::ProportionalMillionthsNotU64,
        ) <==> base is Some && proportional is None,
        fees_of_numbers(base, proportional) == Err::<RoutingFees, RoutingFeesError>(
            RoutingFeesError::BaseMsatTooLarge,
        ) <==> (base matches Some(b) && b > u32::MAX) && proportional is Some,
        option_fees_of_numbers(base, proportional) == Err::<Option<RoutingFees>, RoutingFeesError>(
            RoutingFeesError::BaseMsatTooLarge,
        ) <==> (base matches Some(b) && b > u32::MAX) && proportional is Some,
{
}

/// The reason why numbers are no fees is told in words that name the field.
pub proof fn law_fee_error_texts()
    ensures
        RoutingFeesError::BaseMsatNotU64.text() == "base_msat is not a u64"@,
        RoutingFeesError::ProportionalMillionthsNotU64.text()
            == "proportional_millionths is not a u64"@,
        RoutingFeesError::BaseMsatTooLarge.text() == "base_msat is greater than u32::MAX"@,
        RoutingFeesError::ProportionalMillionthsTooLarge.text()
            == "proportional_millionths is greater than u32::MAX"@,
{
}

} // verus!
