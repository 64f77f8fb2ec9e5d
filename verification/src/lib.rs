//! # Lightning Module
//!
//! This module allows to atomically and trustlessly (in the federated trust
//! model) interact with the Lightning network through a Lightning gateway.
//!
//! ## Attention: only one operation per contract and round
//! If this module is active the consensus' conflict filter must ensure that at
//! most one operation (spend, funding) happens per contract per round

pub mod amount;
pub mod contracts;
pub mod error;
pub mod fees;
pub mod gateway;
pub mod json;
pub mod keys;
pub mod module;
pub mod operation;
pub mod route_hints;
pub mod serde_option_routing_fees;
pub mod serde_routing_fees;
pub mod text;
pub mod time;
pub mod transaction;

pub use crate::error::LightningError;
pub use crate::gateway::{
    LightningGateway, LightningGatewayAnnouncement, LightningGatewayRegistration, SafeUrl,
};
pub use crate::module::{LightningCommonGen, LightningModuleTypes, KIND};
pub use crate::operation::{ln_operation, OperationError, OperationLogEntry};
pub use crate::transaction::{
    ContractAccount, ContractOutput, LightningConsensusItem, LightningInput, LightningOutput,
    LightningOutputOutcome,
};
