//! Native coins as they are attached to an invocation.

use vstd::prelude::*;

verus! {

/// An amount of one denomination of the chain's native coin.
#[derive(Debug, Clone, PartialEq, Eq)]
pub struct Coin {
    pub denom: String,
    pub amount: u128,
}

/// What a [`Coin`] stands for: a denomination and an amount.
pub struct CoinView {
    pub denom: Seq<char>,
    pub amount: nat,
}

impl View for Coin {
    type V = CoinView;

    open spec fn view(&self) -> CoinView {
        CoinView { denom: self.denom@, amount: self.amount as nat }
    }
}

/// The funds attached to an invocation, coin by coin.
pub open spec fn funds_view(funds: Seq<Coin>) -> Seq<CoinView> {
    funds.map_values(|c: Coin| c@)
}

/// One coin of `amount` in `denom`.
pub fn coin(amount: u128, denom: &str) -> (c: Coin)
    ensures
        c@ == (CoinView { denom: denom@, amount: amount as nat }),
{
    Coin { denom: denom.to_owned(), amount }
}

/// Funds that hold a single coin of `amount` in `denom`.
pub fn coins(amount: u128, denom: &str) -> (funds: Vec<Coin>)
    ensures
        funds_view(funds@) == seq![(CoinView { denom: denom@, amount: amount as nat })],
{
    let mut funds: Vec<Coin> = Vec::new();
    funds.push(coin(amount, denom));
    assert(funds_view(funds@) =~= seq![(CoinView { denom: denom@, amount: amount as nat })]);
    funds
}

} // verus!
