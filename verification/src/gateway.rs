//! What gateways make known of themselves, and for how long it is valid.

use crate::fees::RoutingFees;
use crate::route_hints::RouteHint;
use crate::time::{now, on_clock, read_with, remaining, representable, Duration, SystemTime};
use vstd::prelude::*;

verus! {

/// The URL of an API.
#[derive(Debug, PartialEq, Eq, Hash)]
pub struct SafeUrl(pub String);

impl Clone for SafeUrl {
    fn clone(&self) -> (copy: Self)
        ensures
            copy == *self,
    {
        SafeUrl(self.0.clone())
    }
}

/// Information a gateway registers with a federation
#[derive(Debug, PartialEq, Eq, Hash)]
pub struct LightningGateway {
    /// Channel identifier assigned to the mint by the gateway.
    /// All clients in this federation should use this value as
    /// `short_channel_id` when creating invoices to be settled by this
    /// gateway.
    pub mint_channel_id: u64,
    /// Key used to pay the gateway
    pub gateway_redeem_key: secp256k1::XOnlyPublicKey,
    pub node_pub_key: secp256k1::PublicKey,
    pub lightning_alias: String,
    pub api: SafeUrl,
    /// Route hints to reach the LN node of the gateway.
    ///
    /// These will be appended with the route hint of the recipient's virtual
    /// channel. To keeps invoices small these should be used sparingly.
    pub route_hints: Vec<RouteHint>,
    /// Gateway configured routing fees
    pub fees: RoutingFees,
    pub gateway_id: secp256k1::PublicKey,
}

impl LightningGateway {
    /// Both hold the same information.
    pub open spec fn same_as(self, other: LightningGateway) -> bool {
        &&& self.mint_channel_id == other.mint_channel_id
        &&& self.gateway_redeem_key == other.gateway_redeem_key
        &&& self.node_pub_key == other.node_pub_key
        &&& self.lightning_alias@ == other.lightning_alias@
        &&& self.api.0@ == other.api.0@
        &&& self.route_hints@.len() == other.route_hints@.len()
        &&& forall|i: int|
            0 <= i < self.route_hints@.len() ==> (#[trigger] self.route_hints@[i])@
                == other.route_hints@[i]@
        &&& self.fees == other.fees
        &&& self.gateway_id == other.gateway_id
    }
}

impl Clone for LightningGateway {
    fn clone(&self) -> (copy: Self)
        ensures
            copy.same_as(*self),
    {
        let copy = LightningGateway {
            mint_channel_id: self.mint_channel_id,
            gateway_redeem_key: self.gateway_redeem_key,
            node_pub_key: self.node_pub_key,
            lightning_alias: self.lightning_alias.clone(),
            api: self.api.clone(),
            route_hints: self.route_hints.clone(),
            fees: self.fees,
            gateway_id: self.gateway_id,
        };
        assert forall|i: int| 0 <= i < copy.route_hints@.len() implies (
        #[trigger] copy.route_hints@[i])@ == self.route_hints@[i]@ by {
            assert(cloned::<RouteHint>(self.route_hints@[i], copy.route_hints@[i]));
        }
        copy
    }
}

/// Information about a gateway that is stored locally and expires based on
/// local system time
#[derive(Debug, PartialEq, Eq, Hash)]
pub struct LightningGatewayRegistration {
    pub info: LightningGateway,
    /// Limits the validity of the announcement to allow updates, anchored to
    /// local system time
    pub valid_until: SystemTime,
}

/// Information about a gateway that is shared with other federations and
/// expires based on a TTL to allow for sharing between nodes with
/// unsynchronized clocks which can each anchor the announcement to their local
/// system time.
#[derive(Debug, PartialEq, Eq, Hash)]
pub struct LightningGatewayAnnouncement {
    pub info: LightningGateway,
    /// Limits the validity of the announcement to allow updates, unanchored to
    /// local system time to allow sharing between nodes with unsynchronized
    /// clocks
    pub ttl: Duration,
}

impl Clone for LightningGatewayRegistration {
    fn clone(&self) -> (copy: Self)
        ensures
            copy.info.same_as(self.info),
            copy.valid_until == self.valid_until,
    {
        LightningGatewayRegistration { info: self.info.clone(), valid_until: self.valid_until }
    }
}

impl Clone for LightningGatewayAnnouncement {
    fn clone(&self) -> (copy: Self)
        ensures
            copy.info.same_as(self.info),
            copy.ttl == self.ttl,
    {
        LightningGatewayAnnouncement { info: self.info.clone(), ttl: self.ttl }
    }
}

impl LightningGatewayRegistration {
    /// `announcement` has this registration's information, for as long as it
    /// is valid after `now`.
    pub open spec fn unanchors_to(
        self,
        now: int,
        announcement: LightningGatewayAnnouncement,
    ) -> bool {
        &&& announcement.info == self.info
        &&& announcement.ttl@ == remaining(self.valid_until@, now)
    }

    /// The registration is no longer valid at `now`. It still is at the very
    /// moment that ends its validity.
    pub open spec fn expired(self, now: int) -> bool {
        self.valid_until@ < now
    }

    /// Create an announcement from this registration that is ttl-limited by
    /// a floating duration, as of the time `now`. The duration is what is left
    /// of the validity, and zero if nothing is.
    pub fn unanchor_at(self, now: SystemTime) -> (announcement: LightningGatewayAnnouncement)
        ensures
            self.unanchors_to(now@, announcement),
            announcement.info == self.info,
            now.unix_nanos <= self.valid_until.unix_nanos ==> now.unix_nanos
                + announcement.ttl.nanos == self.valid_until.unix_nanos,
            self.valid_until.unix_nanos <= now.unix_nanos ==> announcement.ttl.nanos == 0,
    {
        LightningGatewayAnnouncement {
            info: self.info,
            ttl: self.valid_until.saturating_duration_since(now),
        }
    }

    /// Create an announcement from this registration that is ttl-limited by
    /// a floating duration. This is useful for sharing the announcement with
    /// other nodes with unsynchronized clocks which can then anchor the
    /// announcement to their local system time.
    pub fn unanchor(self) -> (announcement: LightningGatewayAnnouncement)
        ensures
            exists|time: SystemTime| #[trigger]
                call_ensures(now, (), time) && on_clock(time@) && self.unanchors_to(
                    time@,
                    announcement,
                ),
            announcement.info == self.info,
    {
        let time = read_with(now);
        self.unanchor_at(time)
    }

    /// Whether the registration is no longer valid at the time `now`.
    pub fn is_expired_at(&self, now: SystemTime) -> (expired: bool)
        ensures
            expired == self.expired(now@),
            expired == (self.valid_until.unix_nanos < now.unix_nanos),
    {
        self.valid_until.unix_nanos < now.unix_nanos
    }

    /// Whether the registration is no longer valid at the local system time.
    pub fn is_expired(&self) -> (expired: bool)
        ensures
            exists|time: SystemTime| #[trigger]
                call_ensures(now, (), time) && on_clock(time@) && expired == self.expired(time@),
    {
        let time = read_with(now);
        self.is_expired_at(time)
    }
}

impl LightningGatewayAnnouncement {
    /// `registration` has this announcement's information and is valid from
    /// `now` for as long as the announcement says.
    pub open spec fn anchors_to(
        self,
        now: int,
        registration: LightningGatewayRegistration,
    ) -> bool {
        &&& registration.info == self.info
        &&& registration.valid_until@ == now + self.ttl@
    }

    /// Create a registration from this announcement that is anchored to the
    /// time `now`. The end of its validity, which is the exact sum, has to be a
    /// time that a system time can hold.
    pub fn anchor_at(self, now: SystemTime) -> (registration: LightningGatewayRegistration)
        requires
            representable(now@ + self.ttl@),
        ensures
            self.anchors_to(now@, registration),
            registration.info == self.info,
            registration.valid_until.unix_nanos == now.unix_nanos + self.ttl.nanos,
    {
        LightningGatewayRegistration { info: self.info, valid_until: now.after(self.ttl) }
    }

    /// Create a registration from this announcement that is anchored to the
    /// local system time. There is none if the end of its validity is no time
    /// that a system time can hold: the end is neither wrapped nor cut off, so
    /// whoever takes a duration from another node should bound it.
    pub fn anchor(self) -> (registration: Option<LightningGatewayRegistration>)
        ensures
            exists|time: SystemTime| #[trigger]
                call_ensures(now, (), time) && on_clock(time@) && (match registration {
                    Some(registration) => representable(time@ + self.ttl@) && self.anchors_to(
                        time@,
                        registration,
                    ),
                    None => !representable(time@ + self.ttl@),
                }),
            registration matches Some(registration) ==> registration.info == self.info,
    {
        let time = read_with(now);
        match time.checked_add(self.ttl) {
            Some(_) => Some(self.anchor_at(time)),
            None => None,
        }
    }
}

/// Making an announcement keeps all of the gateway's information, whether or
/// not the registration is still valid. The announcement's duration leads from
/// the present to the end of the validity, or nowhere once that has come.
pub proof fn law_announcement_of_registration(
    registration: LightningGatewayRegistration,
    now: int,
    announcement: LightningGatewayAnnouncement,
)
    requires
        registration.unanchors_to(now, announcement),
    ensures
        announcement.info == registration.info,
        now <= registration.valid_until.unix_nanos ==> now + announcement.ttl.nanos
            == registration.valid_until.unix_nanos,
        now >= registration.valid_until.unix_nanos ==> announcement.ttl.nanos == 0,
{
}

/// Making a registration keeps all of the gateway's information. Its validity
/// ends the announced duration after the present.
pub proof fn law_registration_of_announcement(
    announcement: LightningGatewayAnnouncement,
    now: int,
    registration: LightningGatewayRegistration,
)
    requires
        announcement.anchors_to(now, registration),
    ensures
        registration.info == announcement.info,
        registration.valid_until.unix_nanos - now == announcement.ttl.nanos,
{
}

/// Only the time decides on expiry, and not what is registered: a registration
/// has expired exactly at the times after the end of its validity.
pub proof fn law_expiry(registration: LightningGatewayRegistration, now: int)
    ensures
        registration.expired(now) <==> now > registration.valid_until.unix_nanos,
{
}

/// Two gateways are the same if and only if every piece of information is, down
/// to the hops of the route hints.
pub proof fn law_same_gateway(a: LightningGateway, b: LightningGateway)
    ensures
        a.same_as(b) <==> {
            &&& a.mint_channel_id == b.mint_channel_id
            &&& a.gateway_redeem_key == b.gateway_redeem_key
            &&& a.node_pub_key == b.node_pub_key
            &&& a.gateway_id == b.gateway_id
            &&& a.lightning_alias@ == b.lightning_alias@
            &&& a.api.0@ == b.api.0@
            &&& a.fees.base_msat == b.fees.base_msat
            &&& a.fees.proportional_millionths == b.fees.proportional_millionths
            &&& a.route_hints@.len() == b.route_hints@.len()
            &&& forall|i: int|
                0 <= i < a.route_hints@.len() ==> (#[trigger] a.route_hints@[i]).0@
                    == b.route_hints@[i].0@
        },
{
    if a.same_as(b) {
        assert forall|i: int| 0 <= i < a.route_hints@.len() implies (
        #[trigger] a.route_hints@[i]).0@ == b.route_hints@[i].0@ by {
            assert(a.route_hints@[i]@ == b.route_hints@[i]@);
        }
    }
}

/// An announcement made from a registration that is still valid, anchored by
/// the same clock at the same moment, gives that registration back.
pub proof fn law_unanchor_then_anchor(
    registration: LightningGatewayRegistration,
    now: int,
    announcement: LightningGatewayAnnouncement,
    back: LightningGatewayRegistration,
)
    requires
        !registration.expired(now),
        registration.unanchors_to(now, announcement),
        announcement.anchors_to(now, back),
    ensures
        back == registration,
{
}

/// An announcement made from a registration that has expired lends it no new
/// validity: anchored by the same clock at the same moment, it is valid until
/// that very moment and expired at any later one.
pub proof fn law_unanchor_expired_then_anchor(
    registration: LightningGatewayRegistration,
    now: int,
    announcement: LightningGatewayAnnouncement,
    back: LightningGatewayRegistration,
)
    requires
        registration.expired(now),
        registration.unanchors_to(now, announcement),
        announcement.anchors_to(now, back),
    ensures
        announcement.ttl@ == 0,
        back.info == registration.info,
        back.valid_until@ == now,
        forall|later: int| later > now ==> #[trigger] back.expired(later),
{
}

/// Anchoring an announcement and making an announcement from the result at the
/// same moment gives the announcement back.
pub proof fn law_anchor_then_unanchor(
    announcement: LightningGatewayAnnouncement,
    now: int,
    registration: LightningGatewayRegistration,
    back: LightningGatewayAnnouncement,
)
    requires
        announcement.anchors_to(now, registration),
        registration.unanchors_to(now, back),
    ensures
        back == announcement,
{
}

/// Sharing does not depend on synchronized clocks: when a valid registration is
/// announced where the clock shows `here` and anchored where it shows `there`,
/// both copies carry the same information and expire after the same lapse of
/// time, each by its own clock.
pub proof fn law_sharing_needs_no_synchronized_clocks(
    registration: LightningGatewayRegistration,
    here: int,
    announcement: LightningGatewayAnnouncement,
    there: int,
    shared: LightningGatewayRegistration,
    lapse: int,
)
    requires
        !registration.expired(here),
        registration.unanchors_to(here, announcement),
        announcement.anchors_to(there, shared),
    ensures
        shared.info == registration.info,
        shared.expired(there + lapse) == registration.expired(here + lapse),
{
}

/// A freshly anchored registration is valid for exactly the announced duration.
pub proof fn law_anchored_for_ttl(
    announcement: LightningGatewayAnnouncement,
    now: int,
    registration: LightningGatewayRegistration,
    time: int,
)
    requires
        announcement.anchors_to(now, registration),
    ensures
        registration.expired(time) <==> time - now > announcement.ttl@,
{
}

/// What has expired stays expired.
pub proof fn law_expiry_is_final(
    registration: LightningGatewayRegistration,
    now: int,
    later: int,
)
    requires
        registration.expired(now),
        now <= later,
    ensures
        registration.expired(later),
{
}

/// An announcement made later lasts less long, by the time that has passed,
/// and never less than no time.
pub proof fn law_ttl_shrinks_with_time(
    registration: LightningGatewayRegistration,
    now: int,
    announcement: LightningGatewayAnnouncement,
    later: int,
    later_announcement: LightningGatewayAnnouncement,
)
    requires
        now <= later,
        registration.unanchors_to(now, announcement),
        registration.unanchors_to(later, later_announcement),
    ensures
        later_announcement.ttl@ == remaining(announcement.ttl@ as int, later - now),
{
}

} // verus!
