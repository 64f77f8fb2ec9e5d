use fedimint_ln_common::fees::RoutingFees;
use fedimint_ln_common::route_hints::{RouteHint, RouteHintHop};
use fedimint_ln_common::time::{
    now, ClockReading, Duration, SystemTime, MAX_SYSTEM_NANOS, MIN_SYSTEM_NANOS,
};
use fedimint_ln_common::{
    LightningGateway, LightningGatewayAnnouncement, LightningGatewayRegistration, SafeUrl,
};
use std::str::FromStr;

const G: &str = "0279be667ef9dcbbac55a06295ce870b07029bfcdb2dce28d959f2815b16f81798";
const G2: &str = "02c6047f9441ed7d6d3045406e95c07cd85c778e4b8cef3ca7abac09b95c709ee5";
const SECOND: i128 = 1_000_000_000;

fn key(text: &str) -> secp256k1::PublicKey {
    secp256k1::PublicKey::from_str(text).unwrap()
}

fn hop(node: &str, short_channel_id: u64) -> RouteHintHop {
    RouteHintHop {
        src_node_id: key(node),
        short_channel_id,
        base_msat: 1_000,
        proportional_millionths: 10_000,
        cltv_expiry_delta: 40,
        htlc_minimum_msat: Some(1),
        htlc_maximum_msat: None,
    }
}

fn info() -> LightningGateway {
    LightningGateway {
        mint_channel_id: 3,
        gateway_redeem_key: key(G).x_only_public_key().0,
        node_pub_key: key(G2),
        lightning_alias: "alias".to_owned(),
        api: SafeUrl("http://127.0.0.1:8175/".to_owned()),
        route_hints: vec![RouteHint(vec![hop(G, 1), hop(G2, 2)])],
        fees: RoutingFees { base_msat: 0, proportional_millionths: 100 },
        gateway_id: key(G),
    }
}

fn at(unix_nanos: i128) -> SystemTime {
    SystemTime { unix_nanos }
}

fn registration(valid_until: i128) -> LightningGatewayRegistration {
    LightningGatewayRegistration { info: info(), valid_until: at(valid_until) }
}

fn announcement(nanos: u128) -> LightningGatewayAnnouncement {
    LightningGatewayAnnouncement { info: info(), ttl: Duration { nanos } }
}

#[test]
fn announcements_last_as_long_as_is_left() {
    assert_eq!(registration(10).unanchor_at(at(4)), announcement(6));
    assert_eq!(registration(10).unanchor_at(at(10)), announcement(0));
    assert_eq!(registration(10).unanchor_at(at(11)), announcement(0));
    assert_eq!(registration(2).unanchor_at(at(-3)), announcement(5));
    assert_eq!(registration(-3).unanchor_at(at(-5)), announcement(2));
    assert_eq!(registration(i128::MAX).unanchor_at(at(i128::MIN)), announcement(u128::MAX));
}

#[test]
fn registrations_start_now() {
    assert_eq!(announcement(6).anchor_at(at(4)), registration(10));
    assert_eq!(announcement(6).anchor_at(at(-4)), registration(2));
    assert_eq!(announcement(1 << 127).anchor_at(at(i128::MIN)), registration(0));
    assert_eq!(
        announcement(MAX_SYSTEM_NANOS as u128).anchor_at(at(0)),
        registration(MAX_SYSTEM_NANOS)
    );
}

#[test]
fn registrations_are_valid_up_to_and_including_their_end() {
    assert!(!registration(10).is_expired_at(at(9)));
    assert!(!registration(10).is_expired_at(at(10)));
    assert!(registration(10).is_expired_at(at(11)));
    assert!(registration(10).is_expired_at(at(12)));
}

#[test]
fn valid_registrations_survive_the_round_trip() {
    assert_eq!(registration(10).unanchor_at(at(7)).anchor_at(at(7)), registration(10));
}

#[test]
fn expired_registrations_gain_nothing_by_the_round_trip() {
    let back = registration(10).unanchor_at(at(17)).anchor_at(at(17));
    assert_eq!(back, registration(17));
    assert!(back.is_expired_at(at(18)));
}

#[test]
fn announcements_survive_the_round_trip() {
    assert_eq!(announcement(9).anchor_at(at(100)).unanchor_at(at(100)), announcement(9));
}

#[test]
fn clocks_need_not_be_synchronized() {
    let shared = registration(10).unanchor_at(at(4)).anchor_at(at(1_000));
    assert_eq!(shared, registration(1_006));
    assert!(!shared.is_expired_at(at(1_006)) && !registration(10).is_expired_at(at(10)));
    assert!(shared.is_expired_at(at(1_007)) && registration(10).is_expired_at(at(11)));
}

#[test]
fn later_announcements_last_less_long() {
    assert_eq!(registration(10).unanchor_at(at(4)).ttl, Duration { nanos: 6 });
    assert_eq!(registration(10).unanchor_at(at(6)).ttl, Duration { nanos: 4 });
    assert_eq!(registration(10).unanchor_at(at(60)).ttl, Duration { nanos: 0 });
}

#[test]
fn the_clock_is_the_system_clock() {
    let before = std::time::SystemTime::now();
    let time = now();
    let after = std::time::SystemTime::now();
    let nanos = |time: std::time::SystemTime| {
        time.duration_since(std::time::UNIX_EPOCH).unwrap().as_nanos() as i128
    };
    assert!(nanos(before) <= time.unix_nanos && time.unix_nanos <= nanos(after));
}

#[test]
fn anchoring_by_the_clock() {
    let hour: u128 = 3_600_000_000_000;
    let before = now();
    let registration = announcement(hour).anchor().unwrap();
    let after = now();
    assert!(before.unix_nanos + hour as i128 <= registration.valid_until.unix_nanos);
    assert!(registration.valid_until.unix_nanos <= after.unix_nanos + hour as i128);
    assert!(!registration.is_expired());
    let announced = registration.clone().unanchor();
    assert_eq!(announced.info, info());
    assert!(announced.ttl.nanos > 0 && announced.ttl.nanos <= hour);

    let outdated = LightningGatewayRegistration {
        info: info(),
        valid_until: at(before.unix_nanos - SECOND),
    };
    assert!(outdated.is_expired());
    assert_eq!(outdated.unanchor(), announcement(0));
}

#[test]
fn an_end_that_no_system_time_can_hold_is_refused() {
    let longest = Duration::new(u64::MAX, 999_999_999);
    let announcement = |ttl| LightningGatewayAnnouncement { info: info(), ttl };
    assert_eq!(announcement(longest).anchor(), None);
    assert_eq!(announcement(Duration { nanos: u128::MAX }).anchor(), None);
    assert_eq!(announcement(Duration::new(i64::MAX as u64, 0)).anchor(), None);
    assert!(announcement(Duration::new(i64::MAX as u64 / 2, 0)).anchor().is_some());
}

#[test]
fn sums_end_with_the_last_system_time() {
    let last = at(MAX_SYSTEM_NANOS);
    assert_eq!(last.checked_add(Duration { nanos: 0 }), Some(last));
    assert_eq!(last.checked_add(Duration { nanos: 1 }), None);
    assert_eq!(at(MAX_SYSTEM_NANOS + 1).checked_add(Duration { nanos: 0 }), None);
    assert_eq!(at(MAX_SYSTEM_NANOS - 5).checked_add(Duration { nanos: 5 }), Some(last));
    let first = at(MIN_SYSTEM_NANOS);
    assert_eq!(first.checked_add(Duration::new(u64::MAX, 999_999_999)), Some(last));
    assert_eq!(first.checked_add(Duration::new(u64::MAX, 1_000_000_000)), None);
    assert_eq!(at(MIN_SYSTEM_NANOS - 1).checked_add(Duration { nanos: 0 }), None);
    assert_eq!(at(MIN_SYSTEM_NANOS - 1).checked_add(Duration { nanos: 1 }), Some(first));
}

#[test]
fn readings_are_points_in_time() {
    let after = ClockReading::AfterEpoch { secs: 2, subsec_nanos: 5 };
    assert_eq!(SystemTime::from_clock(after), at(2 * SECOND + 5));
    assert_eq!(at(2 * SECOND + 5).to_clock(), Some(after));
    let before = ClockReading::BeforeEpoch { secs: 2, subsec_nanos: 5 };
    assert_eq!(SystemTime::from_clock(before), at(-2 * SECOND - 5));
    assert_eq!(at(-2 * SECOND - 5).to_clock(), Some(before));
    assert_eq!(at(i128::MAX).to_clock(), None);
    assert_eq!(at(i128::MIN).to_clock(), None);
    let last = ClockReading::AfterEpoch { secs: u64::MAX, subsec_nanos: 999_999_999 };
    assert_eq!(SystemTime::from_clock(last).to_clock(), Some(last));
    assert_eq!(at(SystemTime::from_clock(last).unix_nanos + 1).to_clock(), None);
}

#[test]
fn spans_in_parts() {
    assert_eq!(Duration::new(3, 4).nanos, 3_000_000_004);
    assert_eq!(Duration::new(3, 4).to_parts(), Some((3, 4)));
    assert_eq!(Duration { nanos: u128::MAX }.to_parts(), None);
}

#[test]
fn gateway_information_is_cloned_whole() {
    let copy = info().clone();
    assert_eq!(copy, info());
    assert_eq!(copy.route_hints, info().route_hints);
}

#[test]
fn route_hints_keep_their_hops_in_order() {
    let mut second = hop(G2, 77);
    second.base_msat = 5;
    second.proportional_millionths = 6;
    second.cltv_expiry_delta = 7;
    second.htlc_minimum_msat = None;
    second.htlc_maximum_msat = Some(8);
    let hint = RouteHint(vec![hop(G, 1), second]).to_ldk_route_hint();
    let expected = lightning_invoice::RouteHint(vec![
        lightning_invoice::RouteHintHop {
            src_node_id: key(G),
            short_channel_id: 1,
            fees: lightning_invoice::RoutingFees {
                base_msat: 1_000,
                proportional_millionths: 10_000,
            },
            cltv_expiry_delta: 40,
            htlc_minimum_msat: Some(1),
            htlc_maximum_msat: None,
        },
        lightning_invoice::RouteHintHop {
            src_node_id: key(G2),
            short_channel_id: 77,
            fees: lightning_invoice::RoutingFees { base_msat: 5, proportional_millionths: 6 },
            cltv_expiry_delta: 7,
            htlc_minimum_msat: None,
            htlc_maximum_msat: Some(8),
        },
    ]);
    assert_eq!(hint, expected);
}

#[test]
fn route_hints_without_hops() {
    assert_eq!(RouteHint(vec![]).to_ldk_route_hint(), lightning_invoice::RouteHint(vec![]));
}
