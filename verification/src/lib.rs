//! Verified core of a payment-gated NFT minting contract.
//!
//! A caller pays a fixed price, either in the chain's native coin or in a
//! fungible token, and the contract has exactly one non-fungible token minted to
//! the payer. This crate holds the decisions of that contract as a state machine
//! over plain values: what a payment must look like, which instruction goes to
//! the collection contract, and what the reply to that instruction does to the
//! stored state. The host that runs the contract performs the instructions and
//! hands back their results.
//!
//! - [`model`] is the state machine itself, over mathematical values.
//! - [`contract`] is the executable contract, proved to follow the model.
//! - [`payment`] and [`payload`] check what a payer sends.
//! - [`laws`] proves what holds of the contract whatever it is sent.
//! - [`coin`], [`msg`], [`state`], [`instruction`] and [`error`] hold the
//!   values that go in and come out.

pub mod coin;
pub mod contract;
pub mod error;
pub mod instruction;
pub mod laws;
pub mod model;
pub mod msg;
pub mod payload;
pub mod payment;
pub mod state;

pub use coin::{coin, coins, Coin};
pub use contract::MinterContract;
pub use error::ContractError;
pub use instruction::{CollectionRef, MintInstruction, MintReceipt, SubcallResult};
pub use msg::{ExecuteMsg, InstantiateMsg, MessageInfo, MigrateMsg, QueryMsg, TokenNotification};
pub use payload::{decode_mint_request, mint_request_payload};
pub use payment::{verify_direct_payment, verify_token_notification};
pub use state::{PendingMint, State};
