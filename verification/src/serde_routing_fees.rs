//! Stores routing fees as a struct of two fields.

use crate::fees::{
    distinct_names, fees_of, fees_of_numbers, lemma_names_differ, serialized, RoutingFees,
    RoutingFeesError, SerializedStruct,
};
use crate::json::{u64_member, u64_members};
use vstd::prelude::*;

verus! {

/// Gives the fees as a serializer takes them: a struct named `RoutingFees`
/// with the fields `base_msat` and `proportional_millionths`, in this order.
pub fn serialize(fees: &RoutingFees) -> (state: SerializedStruct)
    ensures
        state@ == serialized(*fees),
        distinct_names(state@.fields),
        state.name@ == "RoutingFees"@,
        state.fields@.len() == 2,
        state.fields@[0].0@ == "base_msat"@ && state.fields@[0].1 == fees.base_msat,
        state.fields@[1].0@ == "proportional_millionths"@ && state.fields@[1].1
            == fees.proportional_millionths,
{
    let mut state = SerializedStruct { name: "RoutingFees", fields: Vec::new() };
    state.fields.push(("base_msat", fees.base_msat));
    state.fields.push(("proportional_millionths", fees.proportional_millionths));
    proof {
        lemma_names_differ();
        assert(state@ =~= serialized(*fees));
    }
    state
}

/// Takes two stored numbers for fees. Both have to be there and to fit in 32
/// bits.
pub fn fees_from(
    base_msat: Option<u64>,
    proportional_millionths: Option<u64>,
) -> (read: Result<RoutingFees, RoutingFeesError>)
    ensures
        read == fees_of_numbers(base_msat, proportional_millionths),
        base_msat is None ==> read == Err::<RoutingFees, RoutingFeesError>(
            RoutingFeesError::BaseMsatNotU64,
        ),
        base_msat is Some && proportional_millionths is None ==> read == Err::<
            RoutingFees,
            RoutingFeesError,
        >(RoutingFeesError::ProportionalMillionthsNotU64),
        read is Ok <==> (base_msat matches Some(base) && base <= u32::MAX) && (
        proportional_millionths matches Some(proportional) && proportional <= u32::MAX),
        read matches Ok(fees) ==> base_msat == Some(fees.base_msat as u64)
            && proportional_millionths == Some(fees.proportional_millionths as u64),
{
    let base_msat: u64 = match base_msat {
        Some(base_msat) => base_msat,
        None => return Err(RoutingFeesError::BaseMsatNotU64),
    };
    let proportional_millionths: u64 = match proportional_millionths {
        Some(proportional_millionths) => proportional_millionths,
        None => return Err(RoutingFeesError::ProportionalMillionthsNotU64),
    };
    if base_msat > u32::MAX as u64 {
        return Err(RoutingFeesError::BaseMsatTooLarge);
    }
    if proportional_millionths > u32::MAX as u64 {
        return Err(RoutingFeesError::ProportionalMillionthsTooLarge);
    }
    Ok(
        RoutingFees {
            base_msat: base_msat as u32,
            proportional_millionths: proportional_millionths as u32,
        },
    )
}

/// Reads fees from a JSON object. Both fields have to be unsigned integers of
/// at most 32 bits; what else the object has does not matter.
pub fn deserialize(fees: &serde_json::Value) -> (read: Result<RoutingFees, RoutingFeesError>)
    ensures
        read == fees_of(u64_members(*fees)),
        !u64_members(*fees).contains_key("base_msat"@) ==> read == Err::<
            RoutingFees,
            RoutingFeesError,
        >(RoutingFeesError::BaseMsatNotU64),
        read matches Ok(found) ==> u64_members(*fees).contains_key("base_msat"@)
            && u64_members(*fees).contains_key("proportional_millionths"@) && found.base_msat
            == u64_members(*fees)["base_msat"@] && found.proportional_millionths
            == u64_members(*fees)["proportional_millionths"@],
{
    fees_from(u64_member(fees, "base_msat"), u64_member(fees, "proportional_millionths"))
}

} // verus!
