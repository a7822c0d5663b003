//! The messages that the contract's entry points take.

use crate::coin::{funds_view, Coin, CoinView};
use vstd::prelude::*;

verus! {

/// Who invokes an entry point, and with which funds attached.
#[derive(Debug, Clone, PartialEq, Eq)]
pub struct MessageInfo {
    pub sender: String,
    pub funds: Vec<Coin>,
}

/// What a [`MessageInfo`] stands for.
pub struct InfoView {
    pub sender: Seq<char>,
    pub funds: Seq<CoinView>,
}

impl View for MessageInfo {
    type V = InfoView;

    open spec fn view(&self) -> InfoView {
        InfoView { sender: self.sender@, funds: funds_view(self.funds@) }
    }
}

/// The message that creates the contract.
#[derive(Debug, Clone, PartialEq, Eq)]
pub struct InstantiateMsg {
    pub native_denom: String,
    pub native_price: u128,
    pub token_contract: String,
    pub token_price: u128,
    pub collection_code_id: u64,
}

/// What an [`InstantiateMsg`] stands for.
pub struct InstantiateView {
    pub native_denom: Seq<char>,
    pub native_price: nat,
    pub token_contract: Seq<char>,
    pub token_price: nat,
    pub collection_code_id: nat,
}

impl View for InstantiateMsg {
    type V = InstantiateView;

    open spec fn view(&self) -> InstantiateView {
        InstantiateView {
            native_denom: self.native_denom@,
            native_price: self.native_price as nat,
            token_contract: self.token_contract@,
            token_price: self.token_price as nat,
            collection_code_id: self.collection_code_id as nat,
        }
    }
}

/// What the fungible-token contract reports after a transfer into this
/// contract's balance: who sent the tokens, how many, and the payload that the
/// sender attached.
#[derive(Debug, Clone, PartialEq, Eq)]
pub struct TokenNotification {
    pub sender: String,
    pub amount: u128,
    pub payload: Vec<u8>,
}

/// What a [`TokenNotification`] stands for.
pub struct NotificationView {
    pub sender: Seq<char>,
    pub amount: nat,
    pub payload: Seq<u8>,
}

impl View for TokenNotification {
    type V = NotificationView;

    open spec fn view(&self) -> NotificationView {
        NotificationView {
            sender: self.sender@,
            amount: self.amount as nat,
            payload: self.payload@,
        }
    }
}

/// The two ways to pay for a mint.
#[derive(Debug, Clone, PartialEq, Eq)]
pub enum ExecuteMsg {
    /// Pay with the native coins attached to the invocation; the token goes to
    /// the caller.
    Mint,
    /// Pay with fungible tokens: the token contract notifies this contract of a
    /// transfer; the token goes to the one who sent the tokens.
    Receive(TokenNotification),
}

/// What an [`ExecuteMsg`] stands for.
pub enum ExecuteView {
    Mint,
    Receive(NotificationView),
}

impl View for ExecuteMsg {
    type V = ExecuteView;

    open spec fn view(&self) -> ExecuteView {
        match self {
            ExecuteMsg::Mint => ExecuteView::Mint,
            ExecuteMsg::Receive(notification) => ExecuteView::Receive(notification@),
        }
    }
}

/// The questions the contract answers.
#[derive(Debug, Clone, Copy, PartialEq, Eq)]
pub enum QueryMsg {
    /// The stored configuration.
    State,
}

/// The message of a migration. It carries nothing: a migration keeps the state.
#[derive(Debug, Clone, Copy, PartialEq, Eq)]
pub struct MigrateMsg {}

} // verus!
