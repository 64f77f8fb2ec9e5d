//! Amounts of money.

use crate::text::{decimal, decimal_text, law_decimal_tells_numbers_apart, lemma_same_end};
use vstd::prelude::*;
use vstd::string::StringExecFns;

verus! {

/// An amount in millisatoshis.
#[derive(Clone, Copy, Debug, PartialEq, Eq, PartialOrd, Ord, Hash, Structural)]
pub struct Amount {
    pub msats: u64,
}

impl Amount {
    /// Text of an amount: the number of millisatoshis and its unit.
    pub open spec fn text(self) -> Seq<char> {
        decimal(self.msats as nat) + " msat"@
    }

    /// Writes the amount with its unit.
    pub fn to_string(&self) -> (text: String)
        ensures
            text@ == self.text(),
            text@ == decimal(self.msats as nat) + " msat"@,
    {
        let mut text = decimal_text(self.msats);
        text.append(" msat");
        text
    }
}

/// The text of an amount is the whole number of its millisatoshis and the unit.
pub proof fn law_amount_text(msats: u64)
    ensures
        (Amount { msats }).text() == decimal(msats as nat) + " msat"@,
{
}

/// The text of an amount tells how much it is.
pub proof fn law_amount_text_tells_amounts_apart(a: Amount, b: Amount)
    requires
        a.text() == b.text(),
    ensures
        a.msats == b.msats,
{
    lemma_same_end(decimal(a.msats as nat), " msat"@, decimal(b.msats as nat), " msat"@);
    law_decimal_tells_numbers_apart(a.msats as nat, b.msats as nat);
}

} // verus!
