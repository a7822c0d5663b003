//! The stored configuration and the record of a mint that awaits its reply.

use vstd::prelude::*;

verus! {

/// The configuration of the contract: the two payment methods with their
/// prices, and the collection that tokens are minted in.
#[derive(Debug, Clone, PartialEq, Eq)]
pub struct State {
    /// Denomination of the native coin that is accepted as payment.
    pub native_denom: String,
    /// Exact price of one mint in the native coin.
    pub native_price: u128,
    /// Address of the fungible-token contract whose notifications are trusted.
    pub token_contract: String,
    /// Exact price of one mint in the fungible token.
    pub token_price: u128,
    /// Code from which the collection contract is created.
    pub collection_code_id: u64,
    /// Address of the collection contract, once it is known.
    pub collection_address: Option<String>,
}

/// What a [`State`] stands for.
pub struct StateView {
    pub native_denom: Seq<char>,
    pub native_price: nat,
    pub token_contract: Seq<char>,
    pub token_price: nat,
    pub collection_code_id: nat,
    pub collection_address: Option<Seq<char>>,
}

/// An address that may be absent, as a sequence of characters.
pub open spec fn address_view(address: Option<String>) -> Option<Seq<char>> {
    match address {
        Some(a) => Some(a@),
        None => None,
    }
}

impl View for State {
    type V = StateView;

    open spec fn view(&self) -> StateView {
        StateView {
            native_denom: self.native_denom@,
            native_price: self.native_price as nat,
            token_contract: self.token_contract@,
            token_price: self.token_price as nat,
            collection_code_id: self.collection_code_id as nat,
            collection_address: address_view(self.collection_address),
        }
    }
}

impl StateView {
    /// Both prices are strictly positive.
    pub open spec fn prices_positive(self) -> bool {
        self.native_price > 0 && self.token_price > 0
    }

    /// `self` and `other` agree on everything that is fixed at instantiation:
    /// all but the collection's address.
    pub open spec fn same_terms(self, other: StateView) -> bool {
        &&& self.native_denom == other.native_denom
        &&& self.native_price == other.native_price
        &&& self.token_contract == other.token_contract
        &&& self.token_price == other.token_price
        &&& self.collection_code_id == other.collection_code_id
    }
}

/// The mint that has been dispatched and not yet replied to: who receives the
/// token, and the identifier under which it was requested. The record lives
/// from dispatch to reply and never outlasts a transaction.
#[derive(Debug, Clone, PartialEq, Eq)]
pub struct PendingMint {
    pub recipient: String,
    pub token_id: u64,
}

/// What a [`PendingMint`] stands for.
pub struct PendingView {
    pub recipient: Seq<char>,
    pub token_id: nat,
}

impl View for PendingMint {
    type V = PendingView;

    open spec fn view(&self) -> PendingView {
        PendingView { recipient: self.recipient@, token_id: self.token_id as nat }
    }
}

/// A pending record that may be absent, as its view.
pub open spec fn pending_view(pending: Option<PendingMint>) -> Option<PendingView> {
    match pending {
        Some(p) => Some(p@),
        None => None,
    }
}

} // verus!
