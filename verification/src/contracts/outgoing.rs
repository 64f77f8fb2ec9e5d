//! Contracts that pay a gateway for an outgoing Lightning payment.

use crate::contracts::Sha256Hash;
use vstd::prelude::*;

verus! {

/// Pays whoever discloses the preimage of a payment hash. Only what the module's
/// texts name is kept here: keys and timeout are not.
#[derive(Clone, Copy, Debug, PartialEq, Eq, Hash)]
pub struct OutgoingContract {
    /// Payment hash of the invoice to be paid
    pub hash: Sha256Hash,
}

/// What became of an outgoing contract: there is nothing to tell once it is
/// funded.
#[derive(Clone, Copy, Debug, PartialEq, Eq, Hash)]
pub struct OutgoingContractOutcome {}

} // verus!
