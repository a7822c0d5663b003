//! The contract as a state machine over mathematical values.
//!
//! Every entry point is a function from the state before and the message to
//! the state after and what is handed back. The executable contract is proved
//! to compute exactly these functions.

use crate::coin::CoinView;
use crate::error::ContractError;
use crate::instruction::{CollectionView, InstructionView, OutcomeView, ReceiptView};
use crate::msg::{ExecuteView, InfoView, InstantiateView, NotificationView};
use crate::payload::is_mint_request;
use crate::state::{PendingView, StateView};
use vstd::prelude::*;

verus! {

/// How many token identifiers there are: identifiers count up from zero, and the
/// last one that fits the machine's 64-bit counter is never handed out.
pub open spec fn token_id_limit() -> nat {
    0xffff_ffff_ffff_ffff
}

/// The whole of what the contract stores.
pub struct MinterView {
    /// The configuration.
    pub config: StateView,
    /// The mint that awaits its reply, if one does.
    pub pending: Option<PendingView>,
    /// How many mints have been confirmed. It is also the next token identifier.
    pub minted: nat,
}

impl MinterView {
    /// What holds of every state the contract can be in: prices are positive,
    /// the counter is within its limit, the collection's address is known
    /// exactly if a mint has been confirmed, and a pending mint is the one for
    /// the next identifier.
    pub open spec fn wf(self) -> bool {
        &&& self.config.prices_positive()
        &&& self.minted <= token_id_limit()
        &&& (self.config.collection_address is Some <==> self.minted > 0)
        &&& match self.pending {
            Some(p) => p.token_id == self.minted && self.minted < token_id_limit(),
            None => true,
        }
    }

    /// No mint awaits its reply.
    pub open spec fn idle(self) -> bool {
        self.pending is None
    }

    /// `self` without its pending record.
    pub open spec fn cleared(self) -> MinterView {
        MinterView { pending: None, ..self }
    }
}

/// Instantiation: a price of zero is refused; otherwise the contract starts
/// with the given terms, no collection address, nothing pending and nothing
/// minted.
pub open spec fn instantiate_step(msg: InstantiateView) -> Result<MinterView, ContractError> {
    if msg.native_price == 0 || msg.token_price == 0 {
        Err(ContractError::InvalidConfiguration)
    } else {
        Ok(
            MinterView {
                config: StateView {
                    native_denom: msg.native_denom,
                    native_price: msg.native_price,
                    token_contract: msg.token_contract,
                    token_price: msg.token_price,
                    collection_code_id: msg.collection_code_id,
                    collection_address: None,
                },
                pending: None,
                minted: 0,
            },
        )
    }
}

/// A direct payment is accepted if the funds are exactly one coin, in the
/// configured denomination, of exactly the configured price.
pub open spec fn accepts_direct_payment(config: StateView, funds: Seq<CoinView>) -> bool {
    &&& funds.len() == 1
    &&& funds[0].denom == config.native_denom
    &&& funds[0].amount == config.native_price
}

/// The verdict on a token notification that `caller` delivers. The caller is
/// looked at first: a notification from anyone but the configured token contract
/// is unauthorized, whatever it holds. Then the amount must be exactly the
/// price, and the payload a mint request.
pub open spec fn notification_verdict(
    config: StateView,
    caller: Seq<char>,
    notification: NotificationView,
) -> Result<(), ContractError> {
    if caller != config.token_contract {
        Err(ContractError::Unauthorized)
    } else if notification.amount != config.token_price {
        Err(ContractError::PaymentMismatch)
    } else if !is_mint_request(notification.payload) {
        Err(ContractError::DecodeError)
    } else {
        Ok(())
    }
}

/// How an instruction names the collection: by its address once that is known,
/// until then by the code it is created from.
pub open spec fn collection_target(config: StateView) -> CollectionView {
    match config.collection_address {
        Some(address) => CollectionView::Address(address),
        None => CollectionView::CodeId(config.collection_code_id),
    }
}

/// Dispatch of one mint to `recipient`. While a mint awaits its reply no other
/// is dispatched. The token's identifier is the number of mints confirmed so
/// far; it also tags the instruction, so that the reply can be matched. The
/// recipient is recorded until the reply comes.
pub open spec fn dispatch(c: MinterView, recipient: Seq<char>) -> Result<
    (MinterView, InstructionView),
    ContractError,
> {
    if c.pending is Some {
        Err(ContractError::Unauthorized)
    } else if c.minted >= token_id_limit() {
        Err(ContractError::TokenIdsExhausted)
    } else {
        Ok(
            (
                MinterView {
                    pending: Some(PendingView { recipient, token_id: c.minted }),
                    ..c
                },
                InstructionView {
                    collection: collection_target(c.config),
                    token_id: c.minted,
                    owner: recipient,
                    reply_id: c.minted,
                },
            ),
        )
    }
}

/// The direct-payment path: the funds must be accepted, then a mint to the
/// caller is dispatched.
pub open spec fn mint_step(c: MinterView, info: InfoView) -> Result<
    (MinterView, InstructionView),
    ContractError,
> {
    if !accepts_direct_payment(c.config, info.funds) {
        Err(ContractError::PaymentMismatch)
    } else {
        dispatch(c, info.sender)
    }
}

/// The token-payment path: the notification must pass, then a mint to the one
/// who sent the tokens is dispatched.
pub open spec fn receive_step(
    c: MinterView,
    info: InfoView,
    notification: NotificationView,
) -> Result<(MinterView, InstructionView), ContractError> {
    match notification_verdict(c.config, info.sender, notification) {
        Err(e) => Err(e),
        Ok(_) => dispatch(c, notification.sender),
    }
}

/// Execution of a message, by its kind.
pub open spec fn execute_step(c: MinterView, info: InfoView, msg: ExecuteView) -> Result<
    (MinterView, InstructionView),
    ContractError,
> {
    match msg {
        ExecuteView::Mint => mint_step(c, info),
        ExecuteView::Receive(notification) => receive_step(c, info, notification),
    }
}

/// The collection's address after a call that went through: the one that is
/// known, and only where none is known the one that the call reports.
pub open spec fn resolved_address(config: StateView, reported: Option<Seq<char>>) -> Option<
    Seq<char>,
> {
    match config.collection_address {
        Some(known) => Some(known),
        None => reported,
    }
}

/// The reply to a dispatched mint: the state after it, and what is handed back.
///
/// A reply that no dispatch awaits, or that quotes another identifier than the
/// pending one, is unauthorized. A failed call fails the reply, and so does a
/// call that went through without telling in which collection: no address is
/// known and the result reports none. Any other successful call confirms the
/// mint: the counter goes up by one, and the reported address is recorded if
/// none was known. On every path the pending record is gone afterwards.
pub open spec fn reply_step(c: MinterView, id: nat, result: OutcomeView) -> (
    MinterView,
    Result<ReceiptView, ContractError>,
) {
    match c.pending {
        None => (c, Err(ContractError::Unauthorized)),
        Some(p) => {
            if p.token_id != id {
                (c.cleared(), Err(ContractError::Unauthorized))
            } else {
                match result {
                    OutcomeView::Failure => (c.cleared(), Err(ContractError::SubcallFailure)),
                    OutcomeView::Success { collection } => {
                        match resolved_address(c.config, collection) {
                            None => (c.cleared(), Err(ContractError::SubcallFailure)),
                            Some(address) => (
                                MinterView {
                                    config: StateView {
                                        collection_address: Some(address),
                                        ..c.config
                                    },
                                    pending: None,
                                    minted: c.minted + 1,
                                },
                                Ok(
                                    ReceiptView {
                                        token_id: p.token_id,
                                        owner: p.recipient,
                                        collection: address,
                                    },
                                ),
                            ),
                        }
                    },
                }
            }
        },
    }
}

/// What can happen to a contract after its instantiation.
pub enum Event {
    /// A message is executed.
    Execute { info: InfoView, msg: ExecuteView },
    /// The reply to a dispatched mint arrives.
    Reply { id: nat, result: OutcomeView },
    /// The contract is migrated.
    Migrate,
}

/// The state after an event. An execution that fails leaves the state as it
/// was; a migration always does.
pub open spec fn step(c: MinterView, event: Event) -> MinterView {
    match event {
        Event::Execute { info, msg } => match execute_step(c, info, msg) {
            Ok(next) => next.0,
            Err(_) => c,
        },
        Event::Reply { id, result } => reply_step(c, id, result).0,
        Event::Migrate => c,
    }
}

/// The state after a sequence of events, taken in order.
pub open spec fn run(c: MinterView, events: Seq<Event>) -> MinterView
    decreases events.len(),
{
    if events.len() == 0 {
        c
    } else {
        step(run(c, events.drop_last()), events.last())
    }
}

} // verus!
