//! What the module goes by.

use vstd::prelude::*;

verus! {

/// Kind of the module
pub const KIND: &'static str = "ln";

/// Version of the module's consensus
pub const CONSENSUS_VERSION: u32 = 0;

/// Initializes the module.
#[derive(Debug)]
pub struct LightningCommonGen;

impl LightningCommonGen {
    pub const CONSENSUS_VERSION: u32 = CONSENSUS_VERSION;

    pub const KIND: &'static str = KIND;
}

/// Stands for the types of the module's inputs, outputs and items.
pub struct LightningModuleTypes;

/// The module goes by the kind `ln`, and its consensus is of the first version.
pub proof fn law_module_identity()
    ensures
        KIND@ == "ln"@,
        LightningCommonGen::KIND@ == "ln"@,
        CONSENSUS_VERSION == 0,
        LightningCommonGen::CONSENSUS_VERSION == 0,
{
}

} // verus!
