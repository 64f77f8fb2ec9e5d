//! Route hints to a gateway's node, in a form that can be stored, and what
//! they are to an invoice.

use lightning_invoice::RouteHint as LdkRouteHint;
use vstd::prelude::*;

verus! {

/// One hop of a route hint.
#[derive(Debug, Hash, Eq, PartialEq)]
pub struct RouteHintHop {
    /// The `node_id` of the non-target end of the route
    pub src_node_id: secp256k1::PublicKey,
    /// The `short_channel_id` of this channel
    pub short_channel_id: u64,
    /// Flat routing fee in millisatoshis
    pub base_msat: u32,
    /// Liquidity-based routing fee in millionths of a routed amount.
    /// In other words, 10000 is 1%.
    pub proportional_millionths: u32,
    /// The difference in CLTV values between this node and the next node.
    pub cltv_expiry_delta: u16,
    /// The minimum value, in msat, which must be relayed to the next hop.
    pub htlc_minimum_msat: Option<u64>,
    /// The maximum value in msat available for routing with a single HTLC.
    pub htlc_maximum_msat: Option<u64>,
}

impl Clone for RouteHintHop {
    fn clone(&self) -> (copy: Self)
        ensures
            copy == *self,
    {
        RouteHintHop {
            src_node_id: self.src_node_id,
            short_channel_id: self.short_channel_id,
            base_msat: self.base_msat,
            proportional_millionths: self.proportional_millionths,
            cltv_expiry_delta: self.cltv_expiry_delta,
            htlc_minimum_msat: self.htlc_minimum_msat,
            htlc_maximum_msat: self.htlc_maximum_msat,
        }
    }
}

/// A list of hops along a payment path terminating with a channel to the
/// recipient.
#[derive(Debug, Hash, Eq, PartialEq)]
pub struct RouteHint(pub Vec<RouteHintHop>);

impl View for RouteHint {
    type V = Seq<RouteHintHop>;

    open spec fn view(&self) -> Seq<RouteHintHop> {
        self.0@
    }
}

impl Clone for RouteHint {
    fn clone(&self) -> (copy: Self)
        ensures
            copy@ == self@,
            copy.0@ == self.0@,
    {
        let copy = RouteHint(self.0.clone());
        assert(copy@ =~= self@);
        copy
    }
}

/// Declares [`lightning_invoice::RouteHint`]; of what it holds, [`ldk_hops`]
/// speaks.
#[verifier::external_type_specification]
#[verifier::external_body]
pub struct ExLdkRouteHint(LdkRouteHint);

/// The hops of an invoice's route hint, in order. The two fees of a hop, which
/// an invoice keeps in a struct of their own, stand here in the hop itself.
pub uninterp spec fn ldk_hops(hint: LdkRouteHint) -> Seq<RouteHintHop>;

/// The constructor [`lightning_invoice::RouteHint`] on an empty vector: a hint
/// without hops.
#[verifier::external_body]
fn empty_ldk_route_hint() -> (hint: LdkRouteHint)
    ensures
        ldk_hops(hint) == Seq::<RouteHintHop>::empty(),
{
    LdkRouteHint(Vec::new())
}

/// `push` on the vector in a [`lightning_invoice::RouteHint`], of a
/// `lightning_invoice::RouteHintHop` with the values of `hop`: the hint has
/// that hop after those that it had.
#[verifier::external_body]
fn push_ldk_hop(hint: &mut LdkRouteHint, hop: &RouteHintHop)
    ensures
        ldk_hops(*final(hint)) == ldk_hops(*old(hint)).push(*hop),
{
    hint.0.push(lightning_invoice::RouteHintHop {
        src_node_id: hop.src_node_id,
        short_channel_id: hop.short_channel_id,
        fees: lightning_invoice::RoutingFees {
            base_msat: hop.base_msat,
            proportional_millionths: hop.proportional_millionths,
        },
        cltv_expiry_delta: hop.cltv_expiry_delta,
        htlc_minimum_msat: hop.htlc_minimum_msat,
        htlc_maximum_msat: hop.htlc_maximum_msat,
    })
}

impl RouteHint {
    /// Gives the hint to an invoice: the same hops, in the same order.
    pub fn to_ldk_route_hint(&self) -> (hint: LdkRouteHint)
        ensures
            ldk_hops(hint) == self@,
            ldk_hops(hint) == self.0@,
    {
        let mut hint = empty_ldk_route_hint();
        let mut i: usize = 0;
        while i < self.0.len()
            invariant
                i <= self.0.len(),
                ldk_hops(hint) == self@.take(i as int),
            decreases self.0.len() - i,
        {
            push_ldk_hop(&mut hint, &self.0[i]);
            assert(self@.take(i as int).push(self@[i as int]) =~= self@.take(i + 1));
            i = i + 1;
        }
        assert(self@.take(i as int) =~= self@);
        hint
    }
}

/// A hint is its hops, in their order.
pub proof fn law_hops_of_hint(hint: RouteHint)
    ensures
        hint@ == hint.0@,
{
}

/// An invoice's route hint tells the hops that it was made from: as many, the
/// same ones and in the same order.
pub proof fn law_ldk_route_hint_tells_hops(a: RouteHint, b: RouteHint, hint: LdkRouteHint, i: int)
    requires
        ldk_hops(hint) == a@,
        ldk_hops(hint) == b@,
        0 <= i < a.0@.len(),
    ensures
        a.0@.len() == b.0@.len(),
        a.0@[i] == b.0@[i],
        ldk_hops(hint)[i] == a.0@[i],
{
}

} // verus!
