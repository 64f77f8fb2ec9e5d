//! Inputs, outputs and consensus items of the module.

use crate::amount::Amount;
use crate::contracts::incoming::{IncomingContract, IncomingContractOffer, OfferId};
use crate::contracts::outgoing::OutgoingContract;
use crate::contracts::{
    Contract, ContractId, ContractOutcome, DecryptedPreimage, FundedContract, Preimage,
    PreimageDecryptionShare, Sha256Hash,
};
use crate::text::{
    decimal, decimal_text, law_decimal_tells_numbers_apart, law_lower_hex_tells_bytes_apart,
    lemma_same_end, lemma_same_start, lower_hex,
};
use vstd::prelude::*;
use vstd::string::StringExecFns;

verus! {

/// Spends from a contract.
#[derive(Clone, Copy, Debug, PartialEq, Eq, Hash)]
pub struct LightningInput {
    /// Contract to spend from
    pub contract_id: ContractId,
    /// Amount to spend; for now only the entire contract can be spent
    pub amount: Amount,
    /// Of the three contract types only the outgoing one needs any other
    /// witness data than a signature. The signature is aggregated on the
    /// transaction level, so only the optional preimage remains.
    pub witness: Option<Preimage>,
}

impl LightningInput {
    /// Text of an input: its contract and its amount.
    pub open spec fn text(self) -> Seq<char> {
        "Lightning Contract "@ + self.contract_id.text() + " with amount "@ + self.amount.text()
    }

    /// Describes the input by its contract and its amount.
    pub fn to_string(&self) -> (text: String)
        ensures
            text@ == self.text(),
            text@ == "Lightning Contract "@ + lower_hex(self.contract_id.0.0@) + " with amount "@
                + decimal(self.amount.msats as nat) + " msat"@,
    {
        proof {
            law_input_text(*self);
        }
        let mut text = "Lightning Contract ".to_owned();
        text.append(self.contract_id.to_string().as_str());
        text.append(" with amount ");
        text.append(self.amount.to_string().as_str());
        text
    }
}

/// Funds a contract.
#[derive(Clone, Copy, Debug, PartialEq, Eq, Hash)]
pub struct ContractOutput {
    pub amount: Amount,
    pub contract: Contract,
}

/// The funds that a contract holds.
#[derive(Clone, Copy, Debug, PartialEq, Eq, Hash)]
pub struct ContractAccount {
    pub amount: Amount,
    pub contract: FundedContract,
}

/// Represents an output of the Lightning module.
///
/// There are three sub-types:
///   * Normal contracts users may lock funds in
///   * Offers to buy preimages (see [`crate::contracts::incoming`])
///   * Early cancellation of outgoing contracts before their timeout
///
/// The offer type exists to register [`IncomingContractOffer`]s. Instead of
/// patching in a second way of letting clients submit consensus items outside
/// of transactions we let offers be a 0-amount output. We need to take care to
/// allow 0-input, 1-output transactions for that to allow users to receive
/// their first notes via LN without already having notes.
#[derive(Debug, PartialEq, Eq, Hash)]
pub enum LightningOutput {
    /// Fund contract
    Contract(ContractOutput),
    /// Create incoming contract offer
    Offer(IncomingContractOffer),
    /// Allow early refund of outgoing contract
    CancelOutgoing {
        /// Contract to update
        contract: ContractId,
        /// Signature of gateway
        gateway_signature: secp256k1::schnorr::Signature,
    },
}

impl LightningOutput {
    /// Text of an output: what it does, for how much, and to which contract or
    /// payment hash.
    pub open spec fn text(self) -> Seq<char> {
        match self {
            LightningOutput::Contract(output) => match output.contract {
                Contract::Incoming(incoming) => "LN Incoming Contract for "@ + output.amount.text()
                    + " hash "@ + incoming.hash.text(),
                Contract::Outgoing(outgoing) => "LN Outgoing Contract for "@ + output.amount.text()
                    + " hash "@ + outgoing.hash.text(),
            },
            LightningOutput::Offer(offer) => "LN offer for "@ + offer.amount.text()
                + " with hash "@ + offer.hash.text(),
            LightningOutput::CancelOutgoing { contract, gateway_signature: _ } =>
                "LN outgoing contract cancellation "@ + contract.text(),
        }
    }

    /// Describes the output by what it does, for how much, and to which
    /// contract or payment hash.
    pub fn to_string(&self) -> (text: String)
        ensures
            text@ == self.text(),
            match *self {
                LightningOutput::Contract(output) => match output.contract {
                    Contract::Incoming(incoming) => text@ == "LN Incoming Contract for "@ + decimal(
                        output.amount.msats as nat,
                    ) + " msat"@ + " hash "@ + lower_hex(incoming.hash.0@),
                    Contract::Outgoing(outgoing) => text@ == "LN Outgoing Contract for "@ + decimal(
                        output.amount.msats as nat,
                    ) + " msat"@ + " hash "@ + lower_hex(outgoing.hash.0@),
                },
                LightningOutput::Offer(offer) => text@ == "LN offer for "@ + decimal(
                    offer.amount.msats as nat,
                ) + " msat"@ + " with hash "@ + lower_hex(offer.hash.0@),
                LightningOutput::CancelOutgoing { contract, gateway_signature: _ } => text@
                    == "LN outgoing contract cancellation "@ + lower_hex(contract.0.0@),
            },
    {
        proof {
            lemma_output_text(*self);
        }
        match self {
            LightningOutput::Contract(ContractOutput { amount, contract }) => match contract {
                Contract::Incoming(incoming) => {
                    let mut text = "LN Incoming Contract for ".to_owned();
                    text.append(amount.to_string().as_str());
                    text.append(" hash ");
                    text.append(incoming.hash.to_string().as_str());
                    text
                },
                Contract::Outgoing(outgoing) => {
                    let mut text = "LN Outgoing Contract for ".to_owned();
                    text.append(amount.to_string().as_str());
                    text.append(" hash ");
                    text.append(outgoing.hash.to_string().as_str());
                    text
                },
            },
            LightningOutput::Offer(offer) => {
                let mut text = "LN offer for ".to_owned();
                text.append(offer.amount.to_string().as_str());
                text.append(" with hash ");
                text.append(offer.hash.to_string().as_str());
                text
            },
            LightningOutput::CancelOutgoing { contract, gateway_signature: _ } => {
                let mut text = "LN outgoing contract cancellation ".to_owned();
                text.append(contract.to_string().as_str());
                text
            },
        }
    }
}

impl Clone for LightningOutput {
    fn clone(&self) -> (copy: Self)
        ensures
            copy == *self,
    {
        match self {
            LightningOutput::Contract(output) => LightningOutput::Contract(*output),
            LightningOutput::Offer(offer) => LightningOutput::Offer(*offer),
            LightningOutput::CancelOutgoing { contract, gateway_signature } =>
                LightningOutput::CancelOutgoing {
                    contract: *contract,
                    gateway_signature: *gateway_signature,
                },
        }
    }
}

/// What became of an output.
#[derive(Clone, Copy, Debug, PartialEq, Eq, Hash)]
pub enum LightningOutputOutcome {
    Contract { id: ContractId, outcome: ContractOutcome },
    Offer { id: OfferId },
    CancelOutgoingContract { id: ContractId },
}

impl LightningOutputOutcome {
    /// Whether the outcome is final: those of offers and cancellations always
    /// are, that of a contract is if the contract's own outcome is.
    pub open spec fn permanent(self) -> bool {
        self matches LightningOutputOutcome::Contract { id: _, outcome } ==> outcome.permanent()
    }

    /// Whether the outcome is final.
    pub fn is_permanent(&self) -> (permanent: bool)
        ensures
            permanent == self.permanent(),
            match *self {
                LightningOutputOutcome::Contract { id: _, outcome } => permanent == (outcome
                    != ContractOutcome::Incoming(DecryptedPreimage::Pending)),
                LightningOutputOutcome::Offer { id: _ } => permanent,
                LightningOutputOutcome::CancelOutgoingContract { id: _ } => permanent,
            },
    {
        match self {
            LightningOutputOutcome::Contract { id: _, outcome } => outcome.is_permanent(),
            LightningOutputOutcome::Offer { .. } => true,
            LightningOutputOutcome::CancelOutgoingContract { .. } => true,
        }
    }

    /// Text of an outcome: the contract or offer that it is about.
    pub open spec fn text(self) -> Seq<char> {
        match self {
            LightningOutputOutcome::Contract { id, outcome: _ } => "LN Contract "@ + id.text(),
            LightningOutputOutcome::Offer { id } => "LN Offer "@ + id.text(),
            LightningOutputOutcome::CancelOutgoingContract { id } =>
                "LN Outgoing Contract Cancellation "@ + id.text(),
        }
    }

    /// Describes the outcome by the contract or offer that it is about.
    pub fn to_string(&self) -> (text: String)
        ensures
            text@ == self.text(),
            match *self {
                LightningOutputOutcome::Contract { id, outcome: _ } => text@ == "LN Contract "@
                    + lower_hex(id.0.0@),
                LightningOutputOutcome::Offer { id } => text@ == "LN Offer "@ + lower_hex(id.0.0@),
                LightningOutputOutcome::CancelOutgoingContract { id } => text@
                    == "LN Outgoing Contract Cancellation "@ + lower_hex(id.0.0@),
            },
    {
        match self {
            LightningOutputOutcome::Contract { id, .. } => {
                let mut text = "LN Contract ".to_owned();
                text.append(id.to_string().as_str());
                text
            },
            LightningOutputOutcome::Offer { id } => {
                let mut text = "LN Offer ".to_owned();
                text.append(id.to_string().as_str());
                text
            },
            LightningOutputOutcome::CancelOutgoingContract { id: contract_id } => {
                let mut text = "LN Outgoing Contract Cancellation ".to_owned();
                text.append(contract_id.to_string().as_str());
                text
            },
        }
    }
}

/// What a guardian proposes to the consensus.
#[derive(Debug, PartialEq, Eq, Hash)]
pub enum LightningConsensusItem {
    DecryptPreimage(ContractId, PreimageDecryptionShare),
    BlockCount(u64),
}

impl LightningConsensusItem {
    /// Both propose the same.
    pub open spec fn same_as(self, other: LightningConsensusItem) -> bool {
        match (self, other) {
            (
                LightningConsensusItem::DecryptPreimage(contract_id, share),
                LightningConsensusItem::DecryptPreimage(other_contract_id, other_share),
            ) => contract_id == other_contract_id && share.0@ == other_share.0@,
            (
                LightningConsensusItem::BlockCount(count),
                LightningConsensusItem::BlockCount(other_count),
            ) => count == other_count,
            _ => false,
        }
    }
}

impl Clone for LightningConsensusItem {
    fn clone(&self) -> (copy: Self)
        ensures
            copy.same_as(*self),
    {
        match self {
            LightningConsensusItem::DecryptPreimage(contract_id, share) =>
                LightningConsensusItem::DecryptPreimage(*contract_id, share.clone()),
            LightningConsensusItem::BlockCount(count) => LightningConsensusItem::BlockCount(*count),
        }
    }
}

impl LightningConsensusItem {
    /// Text of an item: the contract that a share is for, or the block count.
    pub open spec fn text(self) -> Seq<char> {
        match self {
            LightningConsensusItem::DecryptPreimage(contract_id, _) =>
                "LN Decryption Share for contract "@ + contract_id.text(),
            LightningConsensusItem::BlockCount(count) => "LN block count "@ + decimal(count as nat),
        }
    }

    /// Describes the item by the contract that a share is for, or by the block
    /// count.
    pub fn to_string(&self) -> (text: String)
        ensures
            text@ == self.text(),
            match *self {
                LightningConsensusItem::DecryptPreimage(contract_id, _) => text@
                    == "LN Decryption Share for contract "@ + lower_hex(contract_id.0.0@),
                LightningConsensusItem::BlockCount(count) => text@ == "LN block count "@ + decimal(
                    count as nat,
                ),
            },
    {
        match self {
            LightningConsensusItem::DecryptPreimage(contract_id, _) => {
                let mut text = "LN Decryption Share for contract ".to_owned();
                text.append(contract_id.to_string().as_str());
                text
            },
            LightningConsensusItem::BlockCount(count) => {
                let mut text = "LN block count ".to_owned();
                text.append(decimal_text(*count).as_str());
                text
            },
        }
    }
}

/// Parts that are put together in one go or one after the other make the same
/// text.
pub(crate) proof fn lemma_joined(start: Seq<char>, number: Seq<char>, unit: Seq<char>)
    ensures
        start + (number + unit) == start + number + unit,
{
    assert(start + (number + unit) =~= start + number + unit);
}

/// The text of an input names the whole identifier and the whole amount, and
/// nothing of the witness.
pub proof fn law_input_text(input: LightningInput)
    ensures
        input.text() == "Lightning Contract "@ + lower_hex(input.contract_id.0.0@)
            + " with amount "@ + decimal(input.amount.msats as nat) + " msat"@,
{
    lemma_joined(
        "Lightning Contract "@ + lower_hex(input.contract_id.0.0@) + " with amount "@,
        decimal(input.amount.msats as nat),
        " msat"@,
    );
}

/// The text of an input tells which contract it spends from, and how much.
pub proof fn law_input_text_tells_inputs_apart(a: LightningInput, b: LightningInput)
    requires
        a.text() == b.text(),
    ensures
        a.contract_id.0.0@ == b.contract_id.0.0@,
        a.amount.msats == b.amount.msats,
{
    law_input_text(a);
    law_input_text(b);
    let a_id = lower_hex(a.contract_id.0.0@);
    let b_id = lower_hex(b.contract_id.0.0@);
    let a_rest = " with amount "@ + decimal(a.amount.msats as nat) + " msat"@;
    let b_rest = " with amount "@ + decimal(b.amount.msats as nat) + " msat"@;
    assert(a.text() =~= "Lightning Contract "@ + (a_id + a_rest));
    assert(b.text() =~= "Lightning Contract "@ + (b_id + b_rest));
    lemma_same_start("Lightning Contract "@, a_id + a_rest, b_id + b_rest);
    assert((a_id + a_rest).len() == a_id.len() + a_rest.len());
    assert((b_id + b_rest).len() == b_id.len() + b_rest.len());
    lemma_same_end(a_id, a_rest, b_id, b_rest);
    law_lower_hex_tells_bytes_apart(a.contract_id.0.0@, b.contract_id.0.0@);
    lemma_same_end(
        " with amount "@ + decimal(a.amount.msats as nat),
        " msat"@,
        " with amount "@ + decimal(b.amount.msats as nat),
        " msat"@,
    );
    lemma_same_start(
        " with amount "@,
        decimal(a.amount.msats as nat),
        decimal(b.amount.msats as nat),
    );
    law_decimal_tells_numbers_apart(a.amount.msats as nat, b.amount.msats as nat);
}

/// The text of an output that funds a contract, or offers a preimage, names the
/// whole amount and the whole payment hash; that of a cancellation names the
/// whole identifier, and nothing of the signature.
pub proof fn law_output_texts(
    amount: Amount,
    hash: Sha256Hash,
    contract: ContractId,
    gateway_signature: secp256k1::schnorr::Signature,
)
    ensures
        LightningOutput::Contract(
            ContractOutput { amount, contract: Contract::Incoming(IncomingContract { hash }) },
        ).text() == "LN Incoming Contract for "@ + decimal(amount.msats as nat) + " msat"@
            + " hash "@ + lower_hex(hash.0@),
        LightningOutput::Contract(
            ContractOutput { amount, contract: Contract::Outgoing(OutgoingContract { hash }) },
        ).text() == "LN Outgoing Contract for "@ + decimal(amount.msats as nat) + " msat"@
            + " hash "@ + lower_hex(hash.0@),
        LightningOutput::Offer(IncomingContractOffer { amount, hash }).text() == "LN offer for "@
            + decimal(amount.msats as nat) + " msat"@ + " with hash "@ + lower_hex(hash.0@),
        (LightningOutput::CancelOutgoing { contract, gateway_signature }).text()
            == "LN outgoing contract cancellation "@ + lower_hex(contract.0.0@),
{
    lemma_joined("LN Incoming Contract for "@, decimal(amount.msats as nat), " msat"@);
    lemma_joined("LN Outgoing Contract for "@, decimal(amount.msats as nat), " msat"@);
    lemma_joined("LN offer for "@, decimal(amount.msats as nat), " msat"@);
}

proof fn lemma_output_text(output: LightningOutput)
    ensures
        match output {
            LightningOutput::Contract(funded) => match funded.contract {
                Contract::Incoming(incoming) => output.text() == "LN Incoming Contract for "@
                    + decimal(funded.amount.msats as nat) + " msat"@ + " hash "@ + lower_hex(
                    incoming.hash.0@,
                ),
                Contract::Outgoing(outgoing) => output.text() == "LN Outgoing Contract for "@
                    + decimal(funded.amount.msats as nat) + " msat"@ + " hash "@ + lower_hex(
                    outgoing.hash.0@,
                ),
            },
            LightningOutput::Offer(offer) => output.text() == "LN offer for "@ + decimal(
                offer.amount.msats as nat,
            ) + " msat"@ + " with hash "@ + lower_hex(offer.hash.0@),
            LightningOutput::CancelOutgoing { contract, gateway_signature: _ } => output.text()
                == "LN outgoing contract cancellation "@ + lower_hex(contract.0.0@),
        },
{
    match output {
        LightningOutput::Contract(funded) => {
            lemma_joined("LN Incoming Contract for "@, decimal(funded.amount.msats as nat), " msat"@);
            lemma_joined("LN Outgoing Contract for "@, decimal(funded.amount.msats as nat), " msat"@);
        },
        LightningOutput::Offer(offer) => {
            lemma_joined("LN offer for "@, decimal(offer.amount.msats as nat), " msat"@);
        },
        LightningOutput::CancelOutgoing { contract: _, gateway_signature: _ } => {},
    }
}

/// Texts made alike from an amount and a digest tell the two.
proof fn lemma_amount_and_digest(
    start: Seq<char>,
    middle: Seq<char>,
    a_amount: Amount,
    a_hash: Sha256Hash,
    b_amount: Amount,
    b_hash: Sha256Hash,
)
    requires
        start + decimal(a_amount.msats as nat) + " msat"@ + middle + lower_hex(a_hash.0@) == start
            + decimal(b_amount.msats as nat) + " msat"@ + middle + lower_hex(b_hash.0@),
    ensures
        a_amount == b_amount,
        a_hash.0@ == b_hash.0@,
{
    let a_number = decimal(a_amount.msats as nat);
    let b_number = decimal(b_amount.msats as nat);
    lemma_same_end(
        start + a_number + " msat"@ + middle,
        lower_hex(a_hash.0@),
        start + b_number + " msat"@ + middle,
        lower_hex(b_hash.0@),
    );
    law_lower_hex_tells_bytes_apart(a_hash.0@, b_hash.0@);
    lemma_same_end(start + a_number + " msat"@, middle, start + b_number + " msat"@, middle);
    lemma_same_end(start + a_number, " msat"@, start + b_number, " msat"@);
    lemma_same_start(start, a_number, b_number);
    law_decimal_tells_numbers_apart(a_amount.msats as nat, b_amount.msats as nat);
}

/// The fourth and fifth character tell the kinds of outputs apart.
proof fn lemma_output_kind(output: LightningOutput)
    ensures
        output.text().len() > 4,
        match output {
            LightningOutput::Contract(funded) => match funded.contract {
                Contract::Incoming(_) => output.text()[3] == 'I',
                Contract::Outgoing(_) => output.text()[3] == 'O',
            },
            LightningOutput::Offer(_) => output.text()[3] == 'o' && output.text()[4] == 'f',
            LightningOutput::CancelOutgoing { contract: _, gateway_signature: _ } =>
                output.text()[3] == 'o' && output.text()[4] == 'u',
        },
{
    reveal_strlit("LN Incoming Contract for ");
    reveal_strlit("LN Outgoing Contract for ");
    reveal_strlit("LN offer for ");
    reveal_strlit("LN outgoing contract cancellation ");
}

/// The text of an output tells its kind, and the amount and the hash, or the
/// contract, that it is about.
pub proof fn law_output_text_tells_outputs_apart(a: LightningOutput, b: LightningOutput)
    requires
        a.text() == b.text(),
    ensures
        match (a, b) {
            (LightningOutput::Contract(x), LightningOutput::Contract(y)) => x.amount == y.amount
                && match (x.contract, y.contract) {
                (Contract::Incoming(i), Contract::Incoming(j)) => i.hash.0@ == j.hash.0@,
                (Contract::Outgoing(i), Contract::Outgoing(j)) => i.hash.0@ == j.hash.0@,
                _ => false,
            },
            (LightningOutput::Offer(x), LightningOutput::Offer(y)) => x.amount == y.amount
                && x.hash.0@ == y.hash.0@,
            (
                LightningOutput::CancelOutgoing { contract: x, gateway_signature: _ },
                LightningOutput::CancelOutgoing { contract: y, gateway_signature: _ },
            ) => x.0.0@ == y.0.0@,
            _ => false,
        },
{
    lemma_output_kind(a);
    lemma_output_kind(b);
    lemma_output_text(a);
    lemma_output_text(b);
    match (a, b) {
        (LightningOutput::Contract(x), LightningOutput::Contract(y)) => match (
            x.contract,
            y.contract,
        ) {
            (Contract::Incoming(i), Contract::Incoming(j)) => lemma_amount_and_digest(
                "LN Incoming Contract for "@,
                " hash "@,
                x.amount,
                i.hash,
                y.amount,
                j.hash,
            ),
            (Contract::Outgoing(i), Contract::Outgoing(j)) => lemma_amount_and_digest(
                "LN Outgoing Contract for "@,
                " hash "@,
                x.amount,
                i.hash,
                y.amount,
                j.hash,
            ),
            _ => {},
        },
        (LightningOutput::Offer(x), LightningOutput::Offer(y)) => lemma_amount_and_digest(
            "LN offer for "@,
            " with hash "@,
            x.amount,
            x.hash,
            y.amount,
            y.hash,
        ),
        (
            LightningOutput::CancelOutgoing { contract: x, gateway_signature: _ },
            LightningOutput::CancelOutgoing { contract: y, gateway_signature: _ },
        ) => {
            lemma_same_start(
                "LN outgoing contract cancellation "@,
                lower_hex(x.0.0@),
                lower_hex(y.0.0@),
            );
            law_lower_hex_tells_bytes_apart(x.0.0@, y.0.0@);
        },
        _ => {},
    }
}

/// Whether a contract's outcome is final depends on the outcome alone, whatever
/// the contract is: it is not while the preimage is being decrypted, and is
/// otherwise. Outcomes of offers and cancellations are final.
pub proof fn law_outcome_permanence(id: ContractId, outcome: ContractOutcome, offer: OfferId)
    ensures
        (LightningOutputOutcome::Contract { id, outcome }).permanent() <==> outcome
            != ContractOutcome::Incoming(DecryptedPreimage::Pending),
        (LightningOutputOutcome::Offer { id: offer }).permanent(),
        (LightningOutputOutcome::CancelOutgoingContract { id }).permanent(),
{
}

/// The text of an outcome names the whole identifier, and nothing of how a
/// contract fared.
pub proof fn law_outcome_texts(id: ContractId, outcome: ContractOutcome, offer: OfferId)
    ensures
        (LightningOutputOutcome::Contract { id, outcome }).text() == "LN Contract "@ + lower_hex(
            id.0.0@,
        ),
        (LightningOutputOutcome::Offer { id: offer }).text() == "LN Offer "@ + lower_hex(
            offer.0.0@,
        ),
        (LightningOutputOutcome::CancelOutgoingContract { id }).text()
            == "LN Outgoing Contract Cancellation "@ + lower_hex(id.0.0@),
{
}

/// The fourth and fifth character tell the kinds of outcomes apart.
proof fn lemma_outcome_kind(outcome: LightningOutputOutcome)
    ensures
        match outcome {
            LightningOutputOutcome::Contract { id: _, outcome: _ } => outcome.text()[3] == 'C',
            LightningOutputOutcome::Offer { id: _ } => outcome.text()[3] == 'O'
                && outcome.text()[4] == 'f',
            LightningOutputOutcome::CancelOutgoingContract { id: _ } => outcome.text()[3] == 'O'
                && outcome.text()[4] == 'u',
        },
{
    reveal_strlit("LN Contract ");
    reveal_strlit("LN Offer ");
    reveal_strlit("LN Outgoing Contract Cancellation ");
}

/// The text of an outcome tells its kind and the identifier that it is about.
pub proof fn law_outcome_text_tells_outcomes_apart(
    a: LightningOutputOutcome,
    b: LightningOutputOutcome,
)
    requires
        a.text() == b.text(),
    ensures
        match (a, b) {
            (
                LightningOutputOutcome::Contract { id: x, outcome: _ },
                LightningOutputOutcome::Contract { id: y, outcome: _ },
            ) => x.0.0@ == y.0.0@,
            (LightningOutputOutcome::Offer { id: x }, LightningOutputOutcome::Offer { id: y }) =>
                x.0.0@ == y.0.0@,
            (
                LightningOutputOutcome::CancelOutgoingContract { id: x },
                LightningOutputOutcome::CancelOutgoingContract { id: y },
            ) => x.0.0@ == y.0.0@,
            _ => false,
        },
{
    lemma_outcome_kind(a);
    lemma_outcome_kind(b);
    match (a, b) {
        (
            LightningOutputOutcome::Contract { id: x, outcome: _ },
            LightningOutputOutcome::Contract { id: y, outcome: _ },
        ) => {
            lemma_same_start("LN Contract "@, lower_hex(x.0.0@), lower_hex(y.0.0@));
            law_lower_hex_tells_bytes_apart(x.0.0@, y.0.0@);
        },
        (LightningOutputOutcome::Offer { id: x }, LightningOutputOutcome::Offer { id: y }) => {
            lemma_same_start("LN Offer "@, lower_hex(x.0.0@), lower_hex(y.0.0@));
            law_lower_hex_tells_bytes_apart(x.0.0@, y.0.0@);
        },
        (
            LightningOutputOutcome::CancelOutgoingContract { id: x },
            LightningOutputOutcome::CancelOutgoingContract { id: y },
        ) => {
            lemma_same_start(
                "LN Outgoing Contract Cancellation "@,
                lower_hex(x.0.0@),
                lower_hex(y.0.0@),
            );
            law_lower_hex_tells_bytes_apart(x.0.0@, y.0.0@);
        },
        _ => {},
    }
}

/// The text of an item names the whole identifier of the contract that a share
/// is for, and nothing of the share, or the whole block count.
pub proof fn law_item_texts(id: ContractId, share: PreimageDecryptionShare, count: u64)
    ensures
        LightningConsensusItem::DecryptPreimage(id, share).text()
            == "LN Decryption Share for contract "@ + lower_hex(id.0.0@),
        LightningConsensusItem::BlockCount(count).text() == "LN block count "@ + decimal(
            count as nat,
        ),
{
}

/// The fourth character tells the kinds of items apart.
proof fn lemma_item_kind(item: LightningConsensusItem)
    ensures
        match item {
            LightningConsensusItem::DecryptPreimage(_, _) => item.text()[3] == 'D',
            LightningConsensusItem::BlockCount(_) => item.text()[3] == 'b',
        },
{
    reveal_strlit("LN Decryption Share for contract ");
    reveal_strlit("LN block count ");
}

/// The text of an item tells its kind, and the contract that a share is for or
/// the block count.
pub proof fn law_item_text_tells_items_apart(a: LightningConsensusItem, b: LightningConsensusItem)
    requires
        a.text() == b.text(),
    ensures
        match (a, b) {
            (
                LightningConsensusItem::DecryptPreimage(x, _),
                LightningConsensusItem::DecryptPreimage(y, _),
            ) => x.0.0@ == y.0.0@,
            (LightningConsensusItem::BlockCount(x), LightningConsensusItem::BlockCount(y)) => x
                == y,
            _ => false,
        },
{
    lemma_item_kind(a);
    lemma_item_kind(b);
    match (a, b) {
        (
            LightningConsensusItem::DecryptPreimage(x, _),
            LightningConsensusItem::DecryptPreimage(y, _),
        ) => {
            lemma_same_start(
                "LN Decryption Share for contract "@,
                lower_hex(x.0.0@),
                lower_hex(y.0.0@),
            );
            law_lower_hex_tells_bytes_apart(x.0.0@, y.0.0@);
        },
        (LightningConsensusItem::BlockCount(x), LightningConsensusItem::BlockCount(y)) => {
            lemma_same_start("LN block count "@, decimal(x as nat), decimal(y as nat));
            law_decimal_tells_numbers_apart(x as nat, y as nat);
        },
        _ => {},
    }
}

/// Items that are the same propose the same, down to the bytes of a share.
pub proof fn law_same_items(
    id: ContractId,
    share: PreimageDecryptionShare,
    count: u64,
    item: LightningConsensusItem,
)
    ensures
        item.same_as(LightningConsensusItem::DecryptPreimage(id, share)) <==> (item matches
            LightningConsensusItem::DecryptPreimage(other_id, other_share) && other_id == id
            && other_share.0@ == share.0@),
        item.same_as(LightningConsensusItem::BlockCount(count)) <==> item
            == LightningConsensusItem::BlockCount(count),
{
}

} // verus!
