//! Contracts that pay for the preimage of an incoming Lightning payment.

use crate::amount::Amount;
use crate::contracts::Sha256Hash;
use crate::text::lower_hex;
use vstd::prelude::*;

verus! {

/// Buys the preimage that an offer sells. Only what the module's texts name is
/// kept here: the encrypted preimage and the gateway's key are not.
#[derive(Clone, Copy, Debug, PartialEq, Eq, Hash)]
pub struct IncomingContract {
    /// Payment hash whose preimage is bought
    pub hash: Sha256Hash,
}

/// Offers a preimage for sale. Only what the module's texts name is kept here:
/// the threshold-encrypted preimage is not.
#[derive(Clone, Copy, Debug, PartialEq, Eq, Hash)]
pub struct IncomingContractOffer {
    /// Price of the preimage
    pub amount: Amount,
    /// Payment hash whose preimage is sold
    pub hash: Sha256Hash,
}

/// Identifies an offer.
#[derive(Clone, Copy, Debug, PartialEq, Eq, Hash)]
pub struct OfferId(pub Sha256Hash);

impl OfferId {
    /// Text of an identifier: its digest in lower-case hexadecimal.
    pub open spec fn text(self) -> Seq<char> {
        self.0.text()
    }

    /// Writes the identifier in lower-case hexadecimal.
    pub fn to_string(&self) -> (text: String)
        ensures
            text@ == self.text(),
            text@ == lower_hex(self.0.0@),
    {
        self.0.to_string()
    }
}

} // verus!
