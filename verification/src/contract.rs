//! The contract: its stored state and its entry points.

use crate::error::ContractError;
use crate::instruction::{
    CollectionRef, InstructionView, MintInstruction, MintReceipt, ReceiptView, SubcallResult,
};
use crate::model::{
    dispatch, execute_step, instantiate_step, mint_step, receive_step, reply_step, MinterView,
};
use crate::msg::{ExecuteMsg, InstantiateMsg, MessageInfo, MigrateMsg, QueryMsg, TokenNotification};
use crate::payment::{verify_direct_payment, verify_token_notification};
use crate::state::{address_view, pending_view, PendingMint, State};
use vstd::prelude::*;

verus! {

/// A copy of an address that may be absent.
fn copy_address(address: &Option<String>) -> (r: Option<String>)
    ensures
        address_view(r) == address_view(*address),
{
    match address {
        Some(a) => Some(a.clone()),
        None => None,
    }
}

/// A copy of a configuration.
fn copy_state(state: &State) -> (r: State)
    ensures
        r@ == state@,
{
    State {
        native_denom: state.native_denom.clone(),
        native_price: state.native_price,
        token_contract: state.token_contract.clone(),
        token_price: state.token_price,
        collection_code_id: state.collection_code_id,
        collection_address: copy_address(&state.collection_address),
    }
}

/// The minting contract. It holds the configuration, the record of the mint
/// that awaits its reply, and the count of confirmed mints. Only instantiation
/// and the reply to a mint write the configuration, and the reply only to
/// record the collection's address when none is known.
///
/// The host keeps the contract between invocations: it stores what
/// [`MinterContract::state`], [`MinterContract::pending`] and
/// [`MinterContract::tokens_minted`] give, and hands it back to
/// [`MinterContract::restore`].
#[derive(Debug)]
pub struct MinterContract {
    state: State,
    pending: Option<PendingMint>,
    minted: u64,
}

impl View for MinterContract {
    type V = MinterView;

    closed spec fn view(&self) -> MinterView {
        MinterView {
            config: self.state@,
            pending: pending_view(self.pending),
            minted: self.minted as nat,
        }
    }
}

impl MinterContract {
    #[verifier::type_invariant]
    spec fn well_formed(&self) -> bool {
        self@.wf()
    }

    /// Creates the contract. A price of zero is an `InvalidConfiguration`.
    pub fn instantiate(msg: InstantiateMsg) -> (r: Result<MinterContract, ContractError>)
        ensures
            match r {
                Ok(c) => instantiate_step(msg@) == Ok::<MinterView, ContractError>(c@) && c@.wf(),
                Err(e) => instantiate_step(msg@) == Err::<MinterView, ContractError>(e),
            },
    {
        if msg.native_price == 0 || msg.token_price == 0 {
            return Err(ContractError::InvalidConfiguration);
        }
        Ok(
            MinterContract {
                state: State {
                    native_denom: msg.native_denom,
                    native_price: msg.native_price,
                    token_contract: msg.token_contract,
                    token_price: msg.token_price,
                    collection_code_id: msg.collection_code_id,
                    collection_address: None,
                },
                pending: None,
                minted: 0,
            },
        )
    }

    /// Puts a contract together from what was stored of it. Parts that no
    /// contract can have ended with are an `InvalidConfiguration`.
    pub fn restore(state: State, pending: Option<PendingMint>, minted: u64) -> (r: Result<
        MinterContract,
        ContractError,
    >)
        ensures
            match r {
                Ok(c) => c@ == (MinterView {
                    config: state@,
                    pending: pending_view(pending),
                    minted: minted as nat,
                }) && c@.wf(),
                Err(e) => e == ContractError::InvalidConfiguration && !(MinterView {
                    config: state@,
                    pending: pending_view(pending),
                    minted: minted as nat,
                }).wf(),
            },
    {
        if state.native_price == 0 || state.token_price == 0 {
            return Err(ContractError::InvalidConfiguration);
        }
        if state.collection_address.is_some() != (minted > 0) {
            return Err(ContractError::InvalidConfiguration);
        }
        let consistent = match &pending {
            Some(p) => p.token_id == minted && minted < u64::MAX,
            None => true,
        };
        if !consistent {
            return Err(ContractError::InvalidConfiguration);
        }
        Ok(MinterContract { state, pending, minted })
    }

    /// Dispatches one mint to `recipient`.
    fn dispatch(&mut self, recipient: &String) -> (r: Result<MintInstruction, ContractError>)
        ensures
            match r {
                Ok(i) => dispatch(old(self)@, recipient@) == Ok::<
                    (MinterView, InstructionView),
                    ContractError,
                >((final(self)@, i@)),
                Err(e) => dispatch(old(self)@, recipient@) == Err::<
                    (MinterView, InstructionView),
                    ContractError,
                >(e) && *final(self) == *old(self),
            },
            final(self)@.wf(),
    {
        proof {
            use_type_invariant(&*self);
        }
        if self.pending.is_some() {
            return Err(ContractError::Unauthorized);
        }
        if self.minted == u64::MAX {
            return Err(ContractError::TokenIdsExhausted);
        }
        let token_id: u64 = self.minted;
        let collection = match &self.state.collection_address {
            Some(address) => CollectionRef::Address(address.clone()),
            None => CollectionRef::CodeId(self.state.collection_code_id),
        };
        let instruction = MintInstruction {
            collection,
            token_id,
            owner: recipient.clone(),
            reply_id: token_id,
        };
        self.pending = Some(PendingMint { recipient: recipient.clone(), token_id });
        Ok(instruction)
    }

    /// The direct-payment path. The attached funds must be exactly the native
    /// price, else the call is a `PaymentMismatch`. On success one mint to the
    /// caller is dispatched: the instruction for the collection contract is
    /// handed back, and the caller is recorded until the reply comes. A call
    /// that fails leaves the contract as it was.
    pub fn mint(&mut self, info: &MessageInfo) -> (r: Result<MintInstruction, ContractError>)
        ensures
            match r {
                Ok(i) => mint_step(old(self)@, info@) == Ok::<
                    (MinterView, InstructionView),
                    ContractError,
                >((final(self)@, i@)),
                Err(e) => mint_step(old(self)@, info@) == Err::<
                    (MinterView, InstructionView),
                    ContractError,
                >(e) && *final(self) == *old(self),
            },
            final(self)@.wf(),
    {
        proof {
            use_type_invariant(&*self);
        }
        match verify_direct_payment(&self.state, &info.funds) {
            Err(e) => Err(e),
            Ok(_) => self.dispatch(&info.sender),
        }
    }

    /// The token-payment path. The notification must come from the configured
    /// token contract, report exactly the token price, and carry a mint request.
    /// On success one mint to the one who sent the tokens is dispatched. A call
    /// that fails leaves the contract as it was.
    pub fn receive(&mut self, info: &MessageInfo, notification: &TokenNotification) -> (r: Result<
        MintInstruction,
        ContractError,
    >)
        ensures
            match r {
                Ok(i) => receive_step(old(self)@, info@, notification@) == Ok::<
                    (MinterView, InstructionView),
                    ContractError,
                >((final(self)@, i@)),
                Err(e) => receive_step(old(self)@, info@, notification@) == Err::<
                    (MinterView, InstructionView),
                    ContractError,
                >(e) && *final(self) == *old(self),
            },
            final(self)@.wf(),
    {
        proof {
            use_type_invariant(&*self);
        }
        match verify_token_notification(&self.state, &info.sender, notification) {
            Err(e) => Err(e),
            Ok(_) => self.dispatch(&notification.sender),
        }
    }

    /// Executes a message, by its kind.
    pub fn execute(&mut self, info: &MessageInfo, msg: &ExecuteMsg) -> (r: Result<
        MintInstruction,
        ContractError,
    >)
        ensures
            match r {
                Ok(i) => execute_step(old(self)@, info@, msg@) == Ok::<
                    (MinterView, InstructionView),
                    ContractError,
                >((final(self)@, i@)),
                Err(e) => execute_step(old(self)@, info@, msg@) == Err::<
                    (MinterView, InstructionView),
                    ContractError,
                >(e) && *final(self) == *old(self),
            },
            final(self)@.wf(),
    {
        match msg {
            ExecuteMsg::Mint => self.mint(info),
            ExecuteMsg::Receive(notification) => self.receive(info, notification),
        }
    }

    /// Takes the reply to the dispatched mint. See [`reply_step`] for what each
    /// outcome does; whatever the outcome, no mint is pending afterwards.
    pub fn reply(&mut self, id: u64, result: &SubcallResult) -> (r: Result<
        MintReceipt,
        ContractError,
    >)
        ensures
            final(self)@ == reply_step(old(self)@, id as nat, result@).0,
            match r {
                Ok(receipt) => reply_step(old(self)@, id as nat, result@).1 == Ok::<
                    ReceiptView,
                    ContractError,
                >(receipt@),
                Err(e) => reply_step(old(self)@, id as nat, result@).1 == Err::<
                    ReceiptView,
                    ContractError,
                >(e),
            },
            final(self)@.wf(),
            final(self)@.idle(),
    {
        proof {
            use_type_invariant(&*self);
        }
        let pending = match &self.pending {
            None => {
                return Err(ContractError::Unauthorized);
            },
            Some(p) => PendingMint { recipient: p.recipient.clone(), token_id: p.token_id },
        };
        self.pending = None;
        if pending.token_id != id {
            return Err(ContractError::Unauthorized);
        }
        match result {
            SubcallResult::Failure => Err(ContractError::SubcallFailure),
            SubcallResult::Success { collection } => {
                let resolved = match &self.state.collection_address {
                    Some(known) => Some(known.clone()),
                    None => copy_address(collection),
                };
                match resolved {
                    None => Err(ContractError::SubcallFailure),
                    Some(address) => {
                        let state = State {
                            native_denom: self.state.native_denom.clone(),
                            native_price: self.state.native_price,
                            token_contract: self.state.token_contract.clone(),
                            token_price: self.state.token_price,
                            collection_code_id: self.state.collection_code_id,
                            collection_address: Some(address.clone()),
                        };
                        *self = MinterContract { state, pending: None, minted: self.minted + 1 };
                        Ok(
                            MintReceipt {
                                token_id: pending.token_id,
                                owner: pending.recipient,
                                collection: address,
                            },
                        )
                    },
                }
            },
        }
    }

    /// The stored configuration.
    pub fn state(&self) -> (r: State)
        ensures
            r@ == self@.config,
            self@.wf(),
    {
        proof {
            use_type_invariant(self);
        }
        copy_state(&self.state)
    }

    /// Answers a query.
    pub fn query(&self, msg: &QueryMsg) -> (r: State)
        ensures
            r@ == self@.config,
    {
        match msg {
            QueryMsg::State => self.state(),
        }
    }

    /// Migrates the contract. The state is kept as it is.
    pub fn migrate(&mut self, msg: &MigrateMsg) -> (r: Result<(), ContractError>)
        ensures
            r is Ok,
            *final(self) == *old(self),
    {
        Ok(())
    }

    /// How many mints have been confirmed.
    pub fn tokens_minted(&self) -> (r: u64)
        ensures
            r as nat == self@.minted,
    {
        self.minted
    }

    /// The mint that awaits its reply, if one does.
    pub fn pending(&self) -> (r: Option<PendingMint>)
        ensures
            pending_view(r) == self@.pending,
    {
        match &self.pending {
            Some(p) => Some(PendingMint { recipient: p.recipient.clone(), token_id: p.token_id }),
            None => None,
        }
    }
}

} // verus!
