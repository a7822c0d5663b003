//! Verification of a payment against the configured price.
//!
//! A payment is accepted only if it matches the price exactly: nothing is
//! refunded and nothing is owed.

use crate::coin::{funds_view, Coin};
use crate::error::ContractError;
use crate::model::{accepts_direct_payment, notification_verdict};
use crate::msg::TokenNotification;
use crate::payload::decode_mint_request;
use crate::state::State;
use vstd::prelude::*;

verus! {

/// Checks the funds attached to an invocation: exactly one coin, in the native
/// denomination, of exactly the native price. Anything else is a
/// `PaymentMismatch`: no funds, several coins, another denomination, more or
/// less than the price.
pub fn verify_direct_payment(state: &State, funds: &Vec<Coin>) -> (r: Result<(), ContractError>)
    ensures
        r == if accepts_direct_payment(state@, funds_view(funds@)) {
            Ok::<(), ContractError>(())
        } else {
            Err::<(), ContractError>(ContractError::PaymentMismatch)
        },
{
    if funds.len() != 1 {
        return Err(ContractError::PaymentMismatch);
    }
    let paid = &funds[0];
    proof {
        assert(funds_view(funds@)[0] == paid@);
    }
    if paid.denom == state.native_denom && paid.amount == state.native_price {
        Ok(())
    } else {
        Err(ContractError::PaymentMismatch)
    }
}

/// Checks a token notification that `caller` delivers. First the caller: only
/// the configured token contract is heard, anyone else is `Unauthorized`. Then
/// the amount, which must be exactly the token price (`PaymentMismatch`), then
/// the payload, which must be a mint request (`DecodeError`).
pub fn verify_token_notification(
    state: &State,
    caller: &String,
    notification: &TokenNotification,
) -> (r: Result<(), ContractError>)
    ensures
        r == notification_verdict(state@, caller@, notification@),
{
    if !(*caller == state.token_contract) {
        return Err(ContractError::Unauthorized);
    }
    if notification.amount != state.token_price {
        return Err(ContractError::PaymentMismatch);
    }
    decode_mint_request(notification.payload.as_slice())
}

} // verus!
