use fedimint_ln_common::amount::Amount;
use fedimint_ln_common::contracts::incoming::{IncomingContract, IncomingContractOffer, OfferId};
use fedimint_ln_common::contracts::outgoing::{OutgoingContract, OutgoingContractOutcome};
use fedimint_ln_common::contracts::{
    Contract, ContractId, ContractOutcome, DecryptedPreimage, Preimage, PreimageDecryptionShare,
    Sha256Hash,
};
use fedimint_ln_common::text::decimal_text;
use fedimint_ln_common::{
    ContractOutput, LightningConsensusItem, LightningError, LightningInput, LightningOutput,
    LightningOutputOutcome,
};
use std::str::FromStr;

const HEX: &str = "000102030405060708090a0b0c0d0e0f101112131415161718191a1b1c1d1eff";

fn hash() -> Sha256Hash {
    let mut bytes = [0u8; 32];
    for i in 0..31 {
        bytes[i] = i as u8;
    }
    bytes[31] = 0xff;
    Sha256Hash(bytes)
}

fn id() -> ContractId {
    ContractId(hash())
}

fn signature() -> secp256k1::schnorr::Signature {
    secp256k1::schnorr::Signature::from_str(&"11".repeat(64)).unwrap()
}

#[test]
fn numbers_are_written_in_decimal() {
    for n in [0, 1, 9, 10, 11, 99, 100, 1_000, 4_294_967_296, u64::MAX - 1, u64::MAX] {
        assert_eq!(decimal_text(n), n.to_string());
    }
    assert_eq!(decimal_text(18_446_744_073_709_551_615), "18446744073709551615");
}

#[test]
fn distinct_numbers_have_distinct_texts() {
    assert_ne!(decimal_text(1), decimal_text(10));
    assert_ne!(decimal_text(12), decimal_text(21));
}

#[test]
fn digests_are_written_in_lower_hex_first_byte_first() {
    assert_eq!(hash().to_string(), HEX);
    assert_eq!(id().to_string(), HEX);
    assert_eq!(OfferId(hash()).to_string(), HEX);
    assert_eq!(Sha256Hash([0xab; 32]).to_string(), "ab".repeat(32));
    assert_ne!(Sha256Hash([0xab; 32]).to_string(), Sha256Hash([0xba; 32]).to_string());
}

#[test]
fn amounts_are_written_with_their_unit() {
    assert_eq!(Amount { msats: 0 }.to_string(), "0 msat");
    assert_eq!(Amount { msats: 1_500 }.to_string(), "1500 msat");
}

#[test]
fn inputs_name_contract_and_amount() {
    let input = LightningInput {
        contract_id: id(),
        amount: Amount { msats: 5_000 },
        witness: Some(Preimage([7; 32])),
    };
    assert_eq!(input.to_string(), format!("Lightning Contract {HEX} with amount 5000 msat"));
}

#[test]
fn outputs_name_what_they_do() {
    let amount = Amount { msats: 12 };
    let incoming = LightningOutput::Contract(ContractOutput {
        amount,
        contract: Contract::Incoming(IncomingContract { hash: hash() }),
    });
    assert_eq!(incoming.to_string(), format!("LN Incoming Contract for 12 msat hash {HEX}"));

    let outgoing = LightningOutput::Contract(ContractOutput {
        amount,
        contract: Contract::Outgoing(OutgoingContract { hash: hash() }),
    });
    assert_eq!(outgoing.to_string(), format!("LN Outgoing Contract for 12 msat hash {HEX}"));

    let offer = LightningOutput::Offer(IncomingContractOffer { amount, hash: hash() });
    assert_eq!(offer.to_string(), format!("LN offer for 12 msat with hash {HEX}"));

    let cancel = LightningOutput::CancelOutgoing {
        contract: id(),
        gateway_signature: signature(),
    };
    assert_eq!(cancel.to_string(), format!("LN outgoing contract cancellation {HEX}"));
    assert_eq!(cancel.clone(), cancel);
    assert_ne!(offer, cancel);
}

#[test]
fn outcomes_name_contract_or_offer() {
    let contract = LightningOutputOutcome::Contract {
        id: id(),
        outcome: ContractOutcome::Outgoing(OutgoingContractOutcome {}),
    };
    assert_eq!(contract.to_string(), format!("LN Contract {HEX}"));
    let offer = LightningOutputOutcome::Offer { id: OfferId(hash()) };
    assert_eq!(offer.to_string(), format!("LN Offer {HEX}"));
    let cancel = LightningOutputOutcome::CancelOutgoingContract { id: id() };
    assert_eq!(cancel.to_string(), format!("LN Outgoing Contract Cancellation {HEX}"));
}

#[test]
fn only_pending_decryptions_are_not_permanent() {
    let contract = |outcome| LightningOutputOutcome::Contract { id: id(), outcome };
    let incoming = ContractOutcome::Incoming;
    assert!(!contract(incoming(DecryptedPreimage::Pending)).is_permanent());
    assert!(contract(incoming(DecryptedPreimage::Decrypted(Preimage([1; 32])))).is_permanent());
    assert!(contract(incoming(DecryptedPreimage::Invalid)).is_permanent());
    assert!(contract(ContractOutcome::Outgoing(OutgoingContractOutcome {})).is_permanent());
    assert!(LightningOutputOutcome::Offer { id: OfferId(hash()) }.is_permanent());
    assert!(LightningOutputOutcome::CancelOutgoingContract { id: id() }.is_permanent());
}

#[test]
fn consensus_items_name_contract_or_count() {
    let share =
        LightningConsensusItem::DecryptPreimage(id(), PreimageDecryptionShare(vec![1, 2, 3]));
    assert_eq!(share.to_string(), format!("LN Decryption Share for contract {HEX}"));
    assert_eq!(share.clone(), share);
    assert_eq!(LightningConsensusItem::BlockCount(810_000).to_string(), "LN block count 810000");
}

#[test]
fn errors_tell_their_reason() {
    let a = Amount { msats: 1 };
    let b = Amount { msats: 20 };
    let expected = [
        (
            LightningError::UnknownContract(id()),
            format!("The the input contract {HEX} does not exist"),
        ),
        (
            LightningError::InsufficientFunds(a, b),
            "The input contract has too little funds, got 1 msat, input spends 20 msat".to_owned(),
        ),
        (
            LightningError::MissingPreimage,
            "An outgoing LN contract spend did not provide a preimage".to_owned(),
        ),
        (
            LightningError::InvalidPreimage,
            "An outgoing LN contract spend provided a wrong preimage".to_owned(),
        ),
        (
            LightningError::ContractNotReady,
            "Incoming contract not ready to be spent yet, decryption in progress".to_owned(),
        ),
        (
            LightningError::ZeroOutput,
            "Output contract value may not be zero unless it's an offer output".to_owned(),
        ),
        (
            LightningError::InvalidEncryptedPreimage,
            "Offer contains invalid threshold-encrypted data".to_owned(),
        ),
        (
            LightningError::DuplicateEncryptedPreimage,
            "Offer contains a ciphertext that has already been used".to_owned(),
        ),
        (
            LightningError::InsufficientIncomingFunding(b, a),
            "The incoming LN account requires more funding according to the offer \
             (need 20 msat got 1 msat)"
                .to_owned(),
        ),
        (LightningError::NoOffer(hash()), format!("No offer found for payment hash {HEX}")),
        (
            LightningError::NotOutgoingContract,
            "Only outgoing contracts support cancellation".to_owned(),
        ),
        (
            LightningError::InvalidCancellationSignature,
            "Cancellation request wasn't properly signed".to_owned(),
        ),
    ];
    for (error, text) in expected {
        assert_eq!(error.to_string(), text);
    }
}
