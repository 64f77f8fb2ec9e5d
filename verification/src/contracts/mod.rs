//! Contracts in which funds are locked until a payment is settled.

pub mod incoming;
pub mod outgoing;

use crate::text::{law_lower_hex_tells_bytes_apart, lower_hex, sha256_text};
use vstd::prelude::*;

verus! {

/// A SHA-256 digest.
#[derive(Clone, Copy, Debug, PartialEq, Eq, Hash)]
pub struct Sha256Hash(pub [u8; 32]);

impl Sha256Hash {
    /// Text of a digest: its bytes in lower-case hexadecimal.
    pub open spec fn text(self) -> Seq<char> {
        lower_hex(self.0@)
    }

    /// Writes the digest in lower-case hexadecimal.
    pub fn to_string(&self) -> (text: String)
        ensures
            text@ == self.text(),
            text@ == lower_hex(self.0@),
    {
        sha256_text(&self.0)
    }
}

/// Identifies a contract.
#[derive(Clone, Copy, Debug, PartialEq, Eq, Hash)]
pub struct ContractId(pub Sha256Hash);

impl ContractId {
    /// Text of an identifier: its digest in lower-case hexadecimal.
    pub open spec fn text(self) -> Seq<char> {
        self.0.text()
    }

    /// Writes the identifier in lower-case hexadecimal.
    pub fn to_string(&self) -> (text: String)
        ensures
            text@ == self.text(),
            text@ == lower_hex(self.0.0@),
    {
        self.0.to_string()
    }
}

/// The secret whose disclosure settles a Lightning payment.
#[derive(Clone, Copy, Debug, PartialEq, Eq, Hash)]
pub struct Preimage(pub [u8; 32]);

/// One guardian's contribution to the decryption of a preimage.
#[derive(Debug, PartialEq, Eq, Hash)]
pub struct PreimageDecryptionShare(pub Vec<u8>);

impl Clone for PreimageDecryptionShare {
    fn clone(&self) -> (copy: Self)
        ensures
            copy.0@ == self.0@,
    {
        let copy = PreimageDecryptionShare(self.0.clone());
        assert(copy.0@ =~= self.0@);
        copy
    }
}

/// How far the decryption of an incoming contract's preimage has come.
#[derive(Clone, Copy, Debug, PartialEq, Eq, Hash)]
pub enum DecryptedPreimage {
    /// Not enough decryption shares are known yet.
    Pending,
    /// The decryption gave a preimage of the contract's hash.
    Decrypted(Preimage),
    /// The decryption gave something else.
    Invalid,
}

impl DecryptedPreimage {
    /// Whether no further decryption share can change this state.
    pub fn is_permanent(&self) -> (permanent: bool)
        ensures
            permanent == (*self != DecryptedPreimage::Pending),
    {
        match self {
            DecryptedPreimage::Pending => false,
            DecryptedPreimage::Decrypted(_) => true,
            DecryptedPreimage::Invalid => true,
        }
    }
}

/// A contract as it is funded.
#[derive(Clone, Copy, Debug, PartialEq, Eq, Hash)]
pub enum Contract {
    Incoming(incoming::IncomingContract),
    Outgoing(outgoing::OutgoingContract),
}

/// A contract that holds funds.
#[derive(Clone, Copy, Debug, PartialEq, Eq, Hash)]
pub enum FundedContract {
    Incoming(incoming::IncomingContract),
    Outgoing(outgoing::OutgoingContract),
}

/// What became of a funded contract.
#[derive(Clone, Copy, Debug, PartialEq, Eq, Hash)]
pub enum ContractOutcome {
    Incoming(DecryptedPreimage),
    Outgoing(outgoing::OutgoingContractOutcome),
}

impl ContractOutcome {
    /// Whether the outcome is final: it is, unless it is that of an incoming
    /// contract whose preimage is still being decrypted.
    pub open spec fn permanent(self) -> bool {
        self != ContractOutcome::Incoming(DecryptedPreimage::Pending)
    }

    /// Whether the outcome is final.
    pub fn is_permanent(&self) -> (permanent: bool)
        ensures
            permanent == self.permanent(),
            permanent == (*self != ContractOutcome::Incoming(DecryptedPreimage::Pending)),
    {
        match self {
            ContractOutcome::Incoming(preimage) => preimage.is_permanent(),
            ContractOutcome::Outgoing(_) => true,
        }
    }
}

/// Digests and identifiers are written as all of their bytes.
pub proof fn law_digest_texts(hash: Sha256Hash)
    ensures
        hash.text() == lower_hex(hash.0@),
        ContractId(hash).text() == lower_hex(hash.0@),
        incoming::OfferId(hash).text() == lower_hex(hash.0@),
{
}

/// The text of a digest tells which one it is.
pub proof fn law_digest_text_tells_digests_apart(a: Sha256Hash, b: Sha256Hash)
    requires
        a.text() == b.text(),
    ensures
        a.0@ == b.0@,
{
    law_lower_hex_tells_bytes_apart(a.0@, b.0@);
}

/// An outgoing contract's outcome is final. An incoming contract's is once its
/// preimage is no longer being decrypted, whatever came out.
pub proof fn law_contract_permanence(
    preimage: Preimage,
    outcome: outgoing::OutgoingContractOutcome,
)
    ensures
        ContractOutcome::Outgoing(outcome).permanent(),
        ContractOutcome::Incoming(DecryptedPreimage::Decrypted(preimage)).permanent(),
        ContractOutcome::Incoming(DecryptedPreimage::Invalid).permanent(),
        !ContractOutcome::Incoming(DecryptedPreimage::Pending).permanent(),
{
}

} // verus!
