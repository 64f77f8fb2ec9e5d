use fedimint_ln_common::fees::{RoutingFees, RoutingFeesError};
use fedimint_ln_common::{serde_option_routing_fees, serde_routing_fees};

fn json(text: &str) -> serde_json::Value {
    serde_json::from_str(text).unwrap()
}

fn fees(base_msat: u32, proportional_millionths: u32) -> RoutingFees {
    RoutingFees { base_msat, proportional_millionths }
}

#[test]
fn fees_are_a_struct_of_two_fields() {
    let state = serde_routing_fees::serialize(&fees(1_000, 250));
    assert_eq!(state.name, "RoutingFees");
    assert_eq!(
        state.fields,
        vec![
            ("base_msat", 1_000),
            ("proportional_millionths", 250),
        ]
    );
    assert_eq!(state.to_json(), json(r#"{"base_msat":1000,"proportional_millionths":250}"#));
}

#[test]
fn missing_fees_are_a_struct_of_no_fields() {
    let state = serde_option_routing_fees::serialize(&None);
    assert_eq!(state.name, "RoutingFees");
    assert!(state.fields.is_empty());
    assert_eq!(state.to_json(), json("{}"));

    let state = serde_option_routing_fees::serialize(&Some(fees(1, 2)));
    assert_eq!(state, serde_routing_fees::serialize(&fees(1, 2)));
}

#[test]
fn fees_are_read_back_as_written() {
    for fees in [fees(0, 0), fees(1, 10_000), fees(u32::MAX, u32::MAX)] {
        let value = serde_routing_fees::serialize(&fees).to_json();
        assert_eq!(serde_routing_fees::deserialize(&value), Ok(fees));

        let value = serde_option_routing_fees::serialize(&Some(fees)).to_json();
        assert_eq!(serde_option_routing_fees::deserialize(&value), Ok(Some(fees)));
    }
    let value = serde_option_routing_fees::serialize(&None).to_json();
    assert_eq!(serde_option_routing_fees::deserialize(&value), Ok(None));
}

#[test]
fn fees_are_read_from_text_and_other_members_ignored() {
    let value = json(
        r#"{"note":"x","proportional_millionths":7,"more":[1],"base_msat":4294967295,"n":9}"#,
    );
    assert_eq!(serde_routing_fees::deserialize(&value), Ok(fees(u32::MAX, 7)));
    assert_eq!(serde_option_routing_fees::deserialize(&value), Ok(Some(fees(u32::MAX, 7))));
}

fn check(text: &str, strict: RoutingFeesError, option: Result<Option<RoutingFees>, RoutingFeesError>) {
    let value = json(text);
    assert_eq!(serde_routing_fees::deserialize(&value), Err(strict), "{text}");
    assert_eq!(serde_option_routing_fees::deserialize(&value), option, "{text}");
}

#[test]
fn values_without_base_fee() {
    let strict = RoutingFeesError::BaseMsatNotU64;
    check("null", strict, Ok(None));
    check("17", strict, Ok(None));
    check("[1,2]", strict, Ok(None));
    check("{}", strict, Ok(None));
    check(r#"{"proportional_millionths":1}"#, strict, Ok(None));
    check(r#"{"base_msat":"1","proportional_millionths":1}"#, strict, Ok(None));
    check(r#"{"base_msat":-1,"proportional_millionths":1}"#, strict, Ok(None));
    check(r#"{"base_msat":1.0,"proportional_millionths":1}"#, strict, Ok(None));
    check(r#"{"base_msat":18446744073709551616,"proportional_millionths":1}"#, strict, Ok(None));
    check(r#"{"base_msat":null,"proportional_millionths":99999999999}"#, strict, Ok(None));
}

#[test]
fn values_without_proportional_fee() {
    let strict = RoutingFeesError::ProportionalMillionthsNotU64;
    check(r#"{"base_msat":1}"#, strict, Ok(None));
    check(r#"{"base_msat":1,"proportional_millionths":true}"#, strict, Ok(None));
    // A missing fee is noticed before one that is too large.
    check(r#"{"base_msat":4294967296}"#, strict, Ok(None));
}

#[test]
fn fees_that_are_too_large() {
    let base = RoutingFeesError::BaseMsatTooLarge;
    check(r#"{"base_msat":4294967296,"proportional_millionths":1}"#, base, Err(base));
    check(r#"{"base_msat":18446744073709551615,"proportional_millionths":4294967296}"#, base, Err(base));
    let proportional = RoutingFeesError::ProportionalMillionthsTooLarge;
    check(
        r#"{"base_msat":4294967295,"proportional_millionths":4294967296}"#,
        proportional,
        Err(proportional),
    );
}

#[test]
fn numbers_are_taken_for_fees() {
    let large = Some(1 << 32);
    let most = Some(u32::MAX as u64);
    let cases = [
        (most, Some(2), Ok(fees(u32::MAX, 2)), Ok(Some(fees(u32::MAX, 2)))),
        (None, large, Err(RoutingFeesError::BaseMsatNotU64), Ok(None)),
        (large, None, Err(RoutingFeesError::ProportionalMillionthsNotU64), Ok(None)),
        (
            large,
            large,
            Err(RoutingFeesError::BaseMsatTooLarge),
            Err(RoutingFeesError::BaseMsatTooLarge),
        ),
        (
            most,
            large,
            Err(RoutingFeesError::ProportionalMillionthsTooLarge),
            Err(RoutingFeesError::ProportionalMillionthsTooLarge),
        ),
    ];
    for (base, proportional, strict, option) in cases {
        assert_eq!(serde_routing_fees::fees_from(base, proportional), strict);
        assert_eq!(serde_option_routing_fees::fees_from(base, proportional), option);
    }
}

#[test]
fn fee_errors_tell_their_reason() {
    assert_eq!(RoutingFeesError::BaseMsatNotU64.to_string(), "base_msat is not a u64");
    assert_eq!(
        RoutingFeesError::ProportionalMillionthsNotU64.to_string(),
        "proportional_millionths is not a u64"
    );
    assert_eq!(
        RoutingFeesError::BaseMsatTooLarge.to_string(),
        "base_msat is greater than u32::MAX"
    );
    assert_eq!(
        RoutingFeesError::ProportionalMillionthsTooLarge.to_string(),
        "proportional_millionths is greater than u32::MAX"
    );
}
