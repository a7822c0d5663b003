//! What passes between the contract and the collection contract: the
//! instruction to mint, and the outcome that comes back.

use crate::state::address_view;
use vstd::prelude::*;

verus! {

/// How an instruction names the collection contract.
#[derive(Debug, Clone, PartialEq, Eq)]
pub enum CollectionRef {
    /// The collection at this address.
    Address(String),
    /// The collection that is newly created from this code: its address is not
    /// known yet.
    CodeId(u64),
}

/// What a [`CollectionRef`] stands for.
pub enum CollectionView {
    Address(Seq<char>),
    CodeId(nat),
}

impl View for CollectionRef {
    type V = CollectionView;

    open spec fn view(&self) -> CollectionView {
        match self {
            CollectionRef::Address(address) => CollectionView::Address(address@),
            CollectionRef::CodeId(code_id) => CollectionView::CodeId(*code_id as nat),
        }
    }
}

/// The instruction to the collection contract: mint the one token `token_id`
/// to `owner`, and deliver the outcome back under `reply_id`.
#[derive(Debug, Clone, PartialEq, Eq)]
pub struct MintInstruction {
    pub collection: CollectionRef,
    pub token_id: u64,
    pub owner: String,
    pub reply_id: u64,
}

/// What a [`MintInstruction`] stands for.
pub struct InstructionView {
    pub collection: CollectionView,
    pub token_id: nat,
    pub owner: Seq<char>,
    pub reply_id: nat,
}

impl View for MintInstruction {
    type V = InstructionView;

    open spec fn view(&self) -> InstructionView {
        InstructionView {
            collection: self.collection@,
            token_id: self.token_id as nat,
            owner: self.owner@,
            reply_id: self.reply_id as nat,
        }
    }
}

/// How the call into the collection contract ended.
#[derive(Debug, Clone, PartialEq, Eq)]
pub enum SubcallResult {
    /// The call went through. Where it created the collection, the result
    /// reports the address that the collection got.
    Success { collection: Option<String> },
    /// The collection contract rejected the mint.
    Failure,
}

/// What a [`SubcallResult`] stands for.
pub enum OutcomeView {
    Success { collection: Option<Seq<char>> },
    Failure,
}

impl View for SubcallResult {
    type V = OutcomeView;

    open spec fn view(&self) -> OutcomeView {
        match self {
            SubcallResult::Success { collection } => OutcomeView::Success {
                collection: address_view(*collection),
            },
            SubcallResult::Failure => OutcomeView::Failure,
        }
    }
}

/// The confirmation of one mint: which token went to whom, in which collection.
#[derive(Debug, Clone, PartialEq, Eq)]
pub struct MintReceipt {
    pub token_id: u64,
    pub owner: String,
    pub collection: String,
}

/// What a [`MintReceipt`] stands for.
pub struct ReceiptView {
    pub token_id: nat,
    pub owner: Seq<char>,
    pub collection: Seq<char>,
}

impl View for MintReceipt {
    type V = ReceiptView;

    open spec fn view(&self) -> ReceiptView {
        ReceiptView {
            token_id: self.token_id as nat,
            owner: self.owner@,
            collection: self.collection@,
        }
    }
}

} // verus!
