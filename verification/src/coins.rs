//! Amounts of a currency.
use vstd::prelude::*;

verus! {

/// An amount of the currency `denom`.
#[derive(Debug, PartialEq, Eq, Default)]
pub struct Coin {
    pub denom: String,
    pub amount: u128,
}

/// The mathematical content of a [`Coin`].
pub ghost struct CoinView {
    pub denom: Seq<char>,
    pub amount: nat,
}

impl View for Coin {
    type V = CoinView;

    open spec fn view(&self) -> CoinView {
        CoinView { denom: self.denom@, amount: self.amount as nat }
    }
}

impl Clone for Coin {
    fn clone(&self) -> (copy: Self)
        ensures
            copy == *self,
    {
        Coin { denom: self.denom.clone(), amount: self.amount }
    }
}

impl Coin {
    /// `amount` of the currency `denom`.
    pub fn new(amount: u128, denom: &str) -> (coin: Self)
        ensures
            coin@ == (CoinView { denom: denom@, amount: amount as nat }),
    {
        Coin { denom: denom.to_owned(), amount }
    }
}

/// The contents of a list of coins, coin by coin.
pub open spec fn coins_view(funds: Seq<Coin>) -> Seq<CoinView> {
    funds.map_values(|coin: Coin| coin@)
}

/// Funds made of a single kind of coin.
pub fn coins(amount: u128, denom: &str) -> (funds: Vec<Coin>)
    ensures
        coins_view(funds@) == seq![CoinView { denom: denom@, amount: amount as nat }],
{
    let mut funds: Vec<Coin> = Vec::new();
    funds.push(Coin::new(amount, denom));
    funds
}

/// A copy of `funds`.
pub(crate) fn copy_coins(funds: &[Coin]) -> (copy: Vec<Coin>)
    ensures
        copy@ == funds@,
{
    let mut copy: Vec<Coin> = Vec::new();
    let mut i: usize = 0;
    while i < funds.len()
        invariant
            i <= funds@.len(),
            copy@ == funds@.take(i as int),
        decreases funds.len() - i,
    {
        copy.push(funds[i].clone());
        i += 1;
    }
    copy
}

} // verus!
