//! Reasons for which the module refuses an input or an output.

use crate::amount::Amount;
use crate::contracts::{ContractId, Sha256Hash};
use crate::text::{decimal, lower_hex};
use crate::transaction::lemma_joined;
use vstd::prelude::*;
use vstd::string::StringExecFns;

verus! {

/// Why an input or an output of the module is refused.
#[derive(Clone, Copy, Debug, PartialEq, Eq)]
pub enum LightningError {
    UnknownContract(ContractId),
    /// What the contract holds, and what the input spends
    InsufficientFunds(Amount, Amount),
    MissingPreimage,
    InvalidPreimage,
    ContractNotReady,
    ZeroOutput,
    InvalidEncryptedPreimage,
    DuplicateEncryptedPreimage,
    /// What the offer asks for, and what the account holds
    InsufficientIncomingFunding(Amount, Amount),
    NoOffer(Sha256Hash),
    NotOutgoingContract,
    InvalidCancellationSignature,
}

impl LightningError {
    /// Text of an error.
    pub open spec fn text(self) -> Seq<char> {
        match self {
            LightningError::UnknownContract(id) => "The the input contract "@ + id.text()
                + " does not exist"@,
            LightningError::InsufficientFunds(held, spent) =>
                "The input contract has too little funds, got "@ + held.text() + ", input spends "@
                + spent.text(),
            LightningError::MissingPreimage =>
                "An outgoing LN contract spend did not provide a preimage"@,
            LightningError::InvalidPreimage =>
                "An outgoing LN contract spend provided a wrong preimage"@,
            LightningError::ContractNotReady =>
                "Incoming contract not ready to be spent yet, decryption in progress"@,
            LightningError::ZeroOutput =>
                "Output contract value may not be zero unless it's an offer output"@,
            LightningError::InvalidEncryptedPreimage =>
                "Offer contains invalid threshold-encrypted data"@,
            LightningError::DuplicateEncryptedPreimage =>
                "Offer contains a ciphertext that has already been used"@,
            LightningError::InsufficientIncomingFunding(needed, held) =>
                "The incoming LN account requires more funding according to the offer (need "@
                + needed.text() + " got "@ + held.text() + ")"@,
            LightningError::NoOffer(hash) => "No offer found for payment hash "@ + hash.text(),
            LightningError::NotOutgoingContract => "Only outgoing contracts support cancellation"@,
            LightningError::InvalidCancellationSignature =>
                "Cancellation request wasn't properly signed"@,
        }
    }

    /// Tells the reason in words.
    pub fn to_string(&self) -> (text: String)
        ensures
            text@ == self.text(),
            match *self {
                LightningError::UnknownContract(id) => text@ == "The the input contract "@
                    + lower_hex(id.0.0@) + " does not exist"@,
                LightningError::InsufficientFunds(held, spent) => text@
                    == "The input contract has too little funds, got "@ + decimal(
                    held.msats as nat,
                ) + " msat"@ + ", input spends "@ + decimal(spent.msats as nat) + " msat"@,
                LightningError::InsufficientIncomingFunding(needed, held) => text@
                    == "The incoming LN account requires more funding according to the offer (need "@
                    + decimal(needed.msats as nat) + " msat"@ + " got "@ + decimal(
                    held.msats as nat,
                ) + " msat"@ + ")"@,
                LightningError::NoOffer(hash) => text@ == "No offer found for payment hash "@
                    + lower_hex(hash.0@),
                _ => true,
            },
    {
        proof {
            match *self {
                LightningError::InsufficientFunds(held, spent) => lemma_funds_texts(held, spent),
                LightningError::InsufficientIncomingFunding(needed, held) => lemma_funds_texts(
                    needed,
                    held,
                ),
                _ => {},
            }
        }
        match self {
            LightningError::UnknownContract(id) => {
                let mut text = "The the input contract ".to_owned();
                text.append(id.to_string().as_str());
                text.append(" does not exist");
                text
            },
            LightningError::InsufficientFunds(held, spent) => {
                let mut text = "The input contract has too little funds, got ".to_owned();
                text.append(held.to_string().as_str());
                text.append(", input spends ");
                text.append(spent.to_string().as_str());
                text
            },
            LightningError::MissingPreimage =>
                "An outgoing LN contract spend did not provide a preimage".to_owned(),
            LightningError::InvalidPreimage =>
                "An outgoing LN contract spend provided a wrong preimage".to_owned(),
            LightningError::ContractNotReady =>
                "Incoming contract not ready to be spent yet, decryption in progress".to_owned(),
            LightningError::ZeroOutput =>
                "Output contract value may not be zero unless it's an offer output".to_owned(),
            LightningError::InvalidEncryptedPreimage =>
                "Offer contains invalid threshold-encrypted data".to_owned(),
            LightningError::DuplicateEncryptedPreimage =>
                "Offer contains a ciphertext that has already been used".to_owned(),
            LightningError::InsufficientIncomingFunding(needed, held) => {
                let mut text =
                    "The incoming LN account requires more funding according to the offer (need "
                    .to_owned();
                text.append(needed.to_string().as_str());
                text.append(" got ");
                text.append(held.to_string().as_str());
                text.append(")");
                text
            },
            LightningError::NoOffer(hash) => {
                let mut text = "No offer found for payment hash ".to_owned();
                text.append(hash.to_string().as_str());
                text
            },
            LightningError::NotOutgoingContract =>
                "Only outgoing contracts support cancellation".to_owned(),
            LightningError::InvalidCancellationSignature =>
                "Cancellation request wasn't properly signed".to_owned(),
        }
    }
}

proof fn lemma_funds_texts(a: Amount, b: Amount)
    ensures
        LightningError::InsufficientFunds(a, b).text()
            == "The input contract has too little funds, got "@ + decimal(a.msats as nat)
            + " msat"@ + ", input spends "@ + decimal(b.msats as nat) + " msat"@,
        LightningError::InsufficientIncomingFunding(a, b).text()
            == "The incoming LN account requires more funding according to the offer (need "@
            + decimal(a.msats as nat) + " msat"@ + " got "@ + decimal(b.msats as nat) + " msat"@
            + ")"@,
{
    let spends = "The input contract has too little funds, got "@;
    let needs = "The incoming LN account requires more funding according to the offer (need "@;
    lemma_joined(spends, decimal(a.msats as nat), " msat"@);
    lemma_joined(
        spends + decimal(a.msats as nat) + " msat"@ + ", input spends "@,
        decimal(b.msats as nat),
        " msat"@,
    );
    lemma_joined(needs, decimal(a.msats as nat), " msat"@);
    lemma_joined(
        needs + decimal(a.msats as nat) + " msat"@ + " got "@,
        decimal(b.msats as nat),
        " msat"@,
    );
}

/// An error about a contract or a payment hash names all of it, and one about
/// funds names both amounts in full: first what is held and then what is spent,
/// or first what is needed and then what is held.
pub proof fn law_error_texts_with_values(id: ContractId, hash: Sha256Hash, a: Amount, b: Amount)
    ensures
        LightningError::UnknownContract(id).text() == "The the input contract "@ + lower_hex(
            id.0.0@,
        ) + " does not exist"@,
        LightningError::NoOffer(hash).text() == "No offer found for payment hash "@ + lower_hex(
            hash.0@,
        ),
        LightningError::InsufficientFunds(a, b).text()
            == "The input contract has too little funds, got "@ + decimal(a.msats as nat)
            + " msat"@ + ", input spends "@ + decimal(b.msats as nat) + " msat"@,
        LightningError::InsufficientIncomingFunding(a, b).text()
            == "The incoming LN account requires more funding according to the offer (need "@
            + decimal(a.msats as nat) + " msat"@ + " got "@ + decimal(b.msats as nat) + " msat"@
            + ")"@,
{
    lemma_funds_texts(a, b);
}

/// The errors that are about no value say in words what is wrong.
pub proof fn law_error_texts_without_values()
    ensures
        LightningError::MissingPreimage.text()
            == "An outgoing LN contract spend did not provide a preimage"@,
        LightningError::InvalidPreimage.text()
            == "An outgoing LN contract spend provided a wrong preimage"@,
        LightningError::ContractNotReady.text()
            == "Incoming contract not ready to be spent yet, decryption in progress"@,
        LightningError::ZeroOutput.text()
            == "Output contract value may not be zero unless it's an offer output"@,
        LightningError::InvalidEncryptedPreimage.text()
            == "Offer contains invalid threshold-encrypted data"@,
        LightningError::DuplicateEncryptedPreimage.text()
            == "Offer contains a ciphertext that has already been used"@,
        LightningError::NotOutgoingContract.text()
            == "Only outgoing contracts support cancellation"@,
        LightningError::InvalidCancellationSignature.text()
            == "Cancellation request wasn't properly signed"@,
{
}

} // verus!
