//! Stores routing fees that may be missing as a struct of two fields or none.

use crate::fees::{
    distinct_names, lemma_names_differ, option_fees_of, option_fees_of_numbers, serialized_option,
    RoutingFees, RoutingFeesError, SerializedStruct,
};
use crate::json::{u64_member, u64_members};
use vstd::prelude::*;

verus! {

/// Gives the fees as a serializer takes them: a struct named `RoutingFees`,
/// with the fields `base_msat` and `proportional_millionths` in this order if
/// there are fees, and without fields if there are none.
pub fn serialize(fees: &Option<RoutingFees>) -> (state: SerializedStruct)
    ensures
        state@ == serialized_option(*fees),
        distinct_names(state@.fields),
        state.name@ == "RoutingFees"@,
        match *fees {
            Some(fees) => {
                &&& state.fields@.len() == 2
                &&& state.fields@[0].0@ == "base_msat"@
                &&& state.fields@[0].1 == fees.base_msat
                &&& state.fields@[1].0@ == "proportional_millionths"@
                &&& state.fields@[1].1 == fees.proportional_millionths
            },
            None => state.fields@.len() == 0,
        },
{
    let mut state = SerializedStruct { name: "RoutingFees", fields: Vec::new() };
    if let Some(fees) = fees {
        state.fields.push(("base_msat", fees.base_msat));
        state.fields.push(("proportional_millionths", fees.proportional_millionths));
    }
    proof {
        lemma_names_differ();
        assert(state@ =~= serialized_option(*fees));
    }
    state
}

/// Takes two stored numbers for fees. There are none unless both numbers are
/// there; if they are, both have to fit in 32 bits.
pub fn fees_from(
    base_msat: Option<u64>,
    proportional_millionths: Option<u64>,
) -> (read: Result<Option<RoutingFees>, RoutingFeesError>)
    ensures
        read == option_fees_of_numbers(base_msat, proportional_millionths),
        read == Ok::<Option<RoutingFees>, RoutingFeesError>(None) <==> base_msat is None
            || proportional_millionths is None,
        read matches Ok(Some(fees)) ==> base_msat == Some(fees.base_msat as u64)
            && proportional_millionths == Some(fees.proportional_millionths as u64),
        read is Err <==> base_msat is Some && proportional_millionths is Some && (base_msat->0
            > u32::MAX || proportional_millionths->0 > u32::MAX),
{
    if let Some(base_msat) = base_msat {
        if let Some(proportional_millionths) = proportional_millionths {
            if base_msat > u32::MAX as u64 {
                return Err(RoutingFeesError::BaseMsatTooLarge);
            }
            if proportional_millionths > u32::MAX as u64 {
                return Err(RoutingFeesError::ProportionalMillionthsTooLarge);
            }
            return Ok(
                Some(
                    RoutingFees {
                        base_msat: base_msat as u32,
                        proportional_millionths: proportional_millionths as u32,
                    },
                ),
            );
        }
    }
    Ok(None)
}

/// Reads fees from a JSON object. There are none unless both fields are
/// unsigned integers; if they are, both have to fit in 32 bits. What else the
/// object has does not matter.
pub fn deserialize(fees: &serde_json::Value) -> (read: Result<
    Option<RoutingFees>,
    RoutingFeesError,
>)
    ensures
        read == option_fees_of(u64_members(*fees)),
        read == Ok::<Option<RoutingFees>, RoutingFeesError>(None) <==> !u64_members(
            *fees,
        ).contains_key("base_msat"@) || !u64_members(*fees).contains_key(
            "proportional_millionths"@,
        ),
        read matches Ok(Some(found)) ==> found.base_msat == u64_members(*fees)["base_msat"@]
            && found.proportional_millionths == u64_members(*fees)["proportional_millionths"@],
{
    fees_from(u64_member(fees, "base_msat"), u64_member(fees, "proportional_millionths"))
}

} // verus!
