//! The kinds of failure an invocation can end in.

use vstd::prelude::*;

verus! {

/// Why an invocation was rejected. Every failure aborts the invocation: the
/// contract's state is as it was before, no instruction is handed out, and the
/// host rolls back whatever else the transaction did.
#[derive(Debug, Clone, Copy, PartialEq, Eq, Structural)]
pub enum ContractError {
    /// The attached funds, or the notified token amount, are not exactly the price.
    PaymentMismatch,
    /// A token notification that does not come from the configured token contract,
    /// or a change to the stored state outside the paths that may make one.
    Unauthorized,
    /// A price of zero at instantiation.
    InvalidConfiguration,
    /// The collection contract rejected the mint.
    SubcallFailure,
    /// The payload of a token notification is not a mint request.
    DecodeError,
    /// Every token identifier has been handed out.
    TokenIdsExhausted,
}

} // verus!
