//! What holds of the contract whatever it is sent.
//!
//! Each law is stated over the state machine of [`crate::model`], which the
//! executable contract is proved to follow.

use crate::coin::CoinView;
use crate::error::ContractError;
use crate::instruction::{CollectionView, InstructionView, OutcomeView, ReceiptView};
use crate::model::{
    accepts_direct_payment, collection_target, dispatch, execute_step, instantiate_step,
    mint_step, receive_step, reply_step, resolved_address, run, step, token_id_limit, Event,
    MinterView,
};
use crate::msg::{ExecuteView, InfoView, InstantiateView, NotificationView};
use crate::payload::is_mint_request;
use crate::state::PendingView;
use vstd::prelude::*;

verus! {

/// Instantiation succeeds exactly if both prices are positive, and then yields
/// a well-formed contract that knows no collection address, awaits no reply and
/// has minted nothing.
pub proof fn law_instantiation(msg: InstantiateView)
    ensures
        instantiate_step(msg) is Ok <==> msg.native_price > 0 && msg.token_price > 0,
        instantiate_step(msg) is Err ==> instantiate_step(msg) == Err::<
            MinterView,
            ContractError,
        >(ContractError::InvalidConfiguration),
        instantiate_step(msg) matches Ok(c) ==> {
            &&& c.wf()
            &&& c.idle()
            &&& c.minted == 0
            &&& c.config.collection_address is None
        },
{
}

/// A valid direct payment mints exactly one token to the caller.
///
/// When an idle contract with an identifier left is paid exactly the native
/// price in the native denomination, the call succeeds and hands out one
/// instruction: mint the next token to the caller, in the configured
/// collection. Until the reply nothing counts as minted. When the mint then
/// succeeds, the count of minted tokens goes up by exactly one, the receipt
/// names the caller as owner, and no mint is pending any more. The funds that
/// were taken are the one coin of the price and nothing else.
pub proof fn law_exact_direct_payment_mints_one_token(
    c: MinterView,
    info: InfoView,
    collection: Seq<char>,
)
    requires
        c.wf(),
        c.idle(),
        c.minted < token_id_limit(),
        accepts_direct_payment(c.config, info.funds),
    ensures
        mint_step(c, info) matches Ok(dispatched) && {
            let instruction = dispatched.1;
            let confirmed = reply_step(
                dispatched.0,
                instruction.reply_id,
                OutcomeView::Success { collection: Some(collection) },
            );
            &&& instruction.owner == info.sender
            &&& instruction.token_id == c.minted
            &&& instruction.collection == collection_target(c.config)
            &&& dispatched.0.minted == c.minted
            &&& dispatched.0.pending == Some(
                PendingView { recipient: info.sender, token_id: c.minted },
            )
            &&& confirmed.0.minted == c.minted + 1
            &&& confirmed.0.idle()
            &&& confirmed.0.wf()
            &&& confirmed.1 matches Ok(receipt) && receipt.owner == info.sender && receipt.token_id
                == c.minted
        },
        info.funds =~= seq![
            (CoinView { denom: c.config.native_denom, amount: c.config.native_price }),
        ],
{
}

/// A valid token payment mints exactly one token to the one who sent the
/// tokens, not to the token contract that delivers the notification.
pub proof fn law_exact_token_payment_mints_one_token(
    c: MinterView,
    info: InfoView,
    notification: NotificationView,
    collection: Seq<char>,
)
    requires
        c.wf(),
        c.idle(),
        c.minted < token_id_limit(),
        info.sender == c.config.token_contract,
        notification.amount == c.config.token_price,
        is_mint_request(notification.payload),
    ensures
        receive_step(c, info, notification) matches Ok(dispatched) && {
            let instruction = dispatched.1;
            let confirmed = reply_step(
                dispatched.0,
                instruction.reply_id,
                OutcomeView::Success { collection: Some(collection) },
            );
            &&& instruction.owner == notification.sender
            &&& instruction.token_id == c.minted
            &&& instruction.collection == collection_target(c.config)
            &&& dispatched.0.minted == c.minted
            &&& confirmed.0.minted == c.minted + 1
            &&& confirmed.0.idle()
            &&& confirmed.0.wf()
            &&& confirmed.1 matches Ok(receipt) && receipt.owner == notification.sender
                && receipt.token_id == c.minted
        },
{
}

/// A direct payment that is not exactly the price mints nothing and changes
/// nothing: no funds, several coins, another denomination, or another amount all
/// end in `PaymentMismatch`, and the state after is the state before.
pub proof fn law_inexact_direct_payment_is_rejected(c: MinterView, info: InfoView)
    requires
        info.funds.len() != 1 || info.funds[0].denom != c.config.native_denom
            || info.funds[0].amount != c.config.native_price,
    ensures
        mint_step(c, info) == Err::<(MinterView, InstructionView), ContractError>(
            ContractError::PaymentMismatch,
        ),
        step(c, (Event::Execute { info, msg: ExecuteView::Mint })) == c,
{
}

/// A token notification that anyone but the configured token contract delivers
/// is `Unauthorized`, whatever amount and payload it holds, and changes nothing.
pub proof fn law_foreign_notification_is_unauthorized(
    c: MinterView,
    info: InfoView,
    notification: NotificationView,
)
    requires
        info.sender != c.config.token_contract,
    ensures
        receive_step(c, info, notification) == Err::<(MinterView, InstructionView), ContractError>(
            ContractError::Unauthorized,
        ),
        step(c, (Event::Execute { info, msg: ExecuteView::Receive(notification) })) == c,
{
}

/// A token notification whose amount is not exactly the token price fails and
/// mints nothing: it is a `PaymentMismatch` when the token contract delivers
/// it, and `Unauthorized` when anyone else does.
pub proof fn law_inexact_token_payment_is_rejected(
    c: MinterView,
    info: InfoView,
    notification: NotificationView,
)
    requires
        notification.amount != c.config.token_price,
    ensures
        receive_step(c, info, notification) == Err::<(MinterView, InstructionView), ContractError>(
            if info.sender == c.config.token_contract {
                ContractError::PaymentMismatch
            } else {
                ContractError::Unauthorized
            },
        ),
        step(c, (Event::Execute { info, msg: ExecuteView::Receive(notification) })) == c,
{
}

/// A token notification of the right amount from the token contract whose
/// payload is no mint request is a `DecodeError` and changes nothing.
pub proof fn law_malformed_payload_is_rejected(
    c: MinterView,
    info: InfoView,
    notification: NotificationView,
)
    requires
        info.sender == c.config.token_contract,
        notification.amount == c.config.token_price,
        !is_mint_request(notification.payload),
    ensures
        receive_step(c, info, notification) == Err::<(MinterView, InstructionView), ContractError>(
            ContractError::DecodeError,
        ),
        step(c, (Event::Execute { info, msg: ExecuteView::Receive(notification) })) == c,
{
}

/// Only the first mint creates the collection: an instruction names the
/// collection by its code exactly if nothing has been minted yet, and by its
/// recorded address ever after.
pub proof fn law_first_mint_creates_the_collection(c: MinterView, recipient: Seq<char>)
    requires
        c.wf(),
        dispatch(c, recipient) is Ok,
    ensures
        ({
            let instruction = dispatch(c, recipient)->Ok_0.1;
            &&& c.minted == 0 ==> instruction.collection == CollectionView::CodeId(
                c.config.collection_code_id,
            )
            &&& c.minted > 0 ==> c.config.collection_address is Some && instruction.collection
                == CollectionView::Address(c.config.collection_address->Some_0)
        }),
{
}

/// While a mint awaits its reply, no second one is dispatched: a payment, even
/// a valid one, is then `Unauthorized`.
pub proof fn law_one_mint_at_a_time(c: MinterView, recipient: Seq<char>)
    requires
        !c.idle(),
    ensures
        dispatch(c, recipient) == Err::<(MinterView, InstructionView), ContractError>(
            ContractError::Unauthorized,
        ),
{
}

/// A mint that the collection contract rejects leaves no trace: after the
/// failed reply the contract is what it was before the payment.
pub proof fn law_rejected_mint_leaves_no_trace(c: MinterView, info: InfoView, msg: ExecuteView)
    requires
        execute_step(c, info, msg) is Ok,
    ensures
        ({
            let dispatched = execute_step(c, info, msg)->Ok_0;
            let failed = reply_step(dispatched.0, dispatched.1.reply_id, OutcomeView::Failure);
            &&& failed.0 == c
            &&& failed.1 == Err::<ReceiptView, ContractError>(ContractError::SubcallFailure)
        }),
{
}

/// After a reply no mint is pending, whatever the reply was. A reply that does
/// not confirm a mint changes nothing else: the configuration and the count of
/// minted tokens stay.
pub proof fn law_reply_clears_pending(c: MinterView, id: nat, result: OutcomeView)
    ensures
        reply_step(c, id, result).0.idle(),
        reply_step(c, id, result).1 is Err ==> reply_step(c, id, result).0 == c.cleared(),
{
}

/// A reply confirms a mint exactly if a mint is pending, the reply quotes its
/// identifier, the call went through, and the collection's address is known or
/// reported. A reply to the pending mint that confirms nothing is a
/// `SubcallFailure`; a reply that matches no pending mint is `Unauthorized`.
pub proof fn law_reply_outcomes(c: MinterView, id: nat, result: OutcomeView)
    ensures
        reply_step(c, id, result).1 is Ok <==> (c.pending matches Some(p) && p.token_id == id
            && (result matches OutcomeView::Success { collection } && resolved_address(
            c.config,
            collection,
        ) is Some)),
        (c.pending matches Some(p) && p.token_id == id && reply_step(c, id, result).1 is Err)
            ==> reply_step(c, id, result).1 == Err::<ReceiptView, ContractError>(
            ContractError::SubcallFailure,
        ),
        !(c.pending matches Some(p) && p.token_id == id) ==> reply_step(c, id, result).1 == Err::<
            ReceiptView,
            ContractError,
        >(ContractError::Unauthorized),
{
}

/// Once a mint has been confirmed, the collection's address is known.
pub proof fn law_confirmation_makes_address_known(c: MinterView, id: nat, result: OutcomeView)
    requires
        reply_step(c, id, result).1 is Ok,
    ensures
        reply_step(c, id, result).0.config.collection_address == Some(
            reply_step(c, id, result).1->Ok_0.collection,
        ),
{
}

/// The first confirmed mint records the collection's address as the reply
/// reports it.
pub proof fn law_first_confirmation_records_address(
    c: MinterView,
    id: nat,
    collection: Option<Seq<char>>,
)
    requires
        c.config.collection_address is None,
        reply_step(c, id, (OutcomeView::Success { collection })).1 is Ok,
    ensures
        collection is Some,
        reply_step(c, id, (OutcomeView::Success { collection })).0.config.collection_address
            == collection,
        reply_step(c, id, (OutcomeView::Success { collection })).1->Ok_0.collection
            == collection->Some_0,
{
}

/// Every event keeps the contract well-formed.
pub proof fn law_step_keeps_well_formed(c: MinterView, event: Event)
    requires
        c.wf(),
    ensures
        step(c, event).wf(),
{
}

/// Every event keeps what was fixed at instantiation, keeps a collection
/// address that is known, and never lowers the count of minted tokens.
pub proof fn law_step_keeps_terms(c: MinterView, event: Event)
    ensures
        step(c, event).config.same_terms(c.config),
        c.config.collection_address is Some ==> step(c, event).config.collection_address
            == c.config.collection_address,
        step(c, event).minted >= c.minted,
{
}

/// Whatever happens to a contract, it stays well-formed.
pub proof fn law_run_keeps_well_formed(c: MinterView, events: Seq<Event>)
    requires
        c.wf(),
    ensures
        run(c, events).wf(),
    decreases events.len(),
{
    if events.len() > 0 {
        law_run_keeps_well_formed(c, events.drop_last());
        law_step_keeps_well_formed(run(c, events.drop_last()), events.last());
    }
}

/// The terms fixed at instantiation never change: denominations, prices, the
/// token contract and the collection's code stay what they were, whatever
/// happens to the contract.
pub proof fn law_terms_never_change(c: MinterView, events: Seq<Event>)
    ensures
        run(c, events).config.same_terms(c.config),
    decreases events.len(),
{
    if events.len() > 0 {
        law_terms_never_change(c, events.drop_last());
        law_step_keeps_terms(run(c, events.drop_last()), events.last());
    }
}

/// The collection's address is assigned once: when it is known, nothing that
/// happens to the contract afterwards, no further mint and no reply, changes
/// it.
pub proof fn law_collection_address_is_set_once(c: MinterView, events: Seq<Event>)
    requires
        c.config.collection_address is Some,
    ensures
        run(c, events).config.collection_address == c.config.collection_address,
    decreases events.len(),
{
    if events.len() > 0 {
        law_collection_address_is_set_once(c, events.drop_last());
        law_step_keeps_terms(run(c, events.drop_last()), events.last());
    }
}

/// The count of minted tokens never goes down.
pub proof fn law_minted_never_decreases(c: MinterView, events: Seq<Event>)
    ensures
        run(c, events).minted >= c.minted,
    decreases events.len(),
{
    if events.len() > 0 {
        law_minted_never_decreases(c, events.drop_last());
        law_step_keeps_terms(run(c, events.drop_last()), events.last());
    }
}

/// No token identifier is confirmed twice: of two confirmations in the life of
/// a contract, the later one is for a greater identifier.
pub proof fn law_token_ids_never_repeat(
    c: MinterView,
    id: nat,
    result: OutcomeView,
    between: Seq<Event>,
    later_id: nat,
    later_result: OutcomeView,
)
    requires
        c.wf(),
        reply_step(c, id, result).1 is Ok,
        reply_step(run(reply_step(c, id, result).0, between), later_id, later_result).1 is Ok,
    ensures
        reply_step(c, id, result).1->Ok_0.token_id < reply_step(
            run(reply_step(c, id, result).0, between),
            later_id,
            later_result,
        ).1->Ok_0.token_id,
{
    let first = reply_step(c, id, result).0;
    let second = run(first, between);
    law_step_keeps_well_formed(c, (Event::Reply { id, result }));
    law_run_keeps_well_formed(first, between);
    law_minted_never_decreases(first, between);
}

} // verus!
