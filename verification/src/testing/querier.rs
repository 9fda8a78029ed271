//! A chain query capability that answers from balances given beforehand.
use vstd::prelude::*;
use crate::addresses::HumanAddr;
use crate::coins::{coins_view, copy_coins, Coin, CoinView};

verus! {

/// One seeded balance: the address text and the funds it holds.
pub type BalanceView = (Seq<char>, Seq<CoinView>);

/// The content of one balance as it is handed to [`MockQuerier::new`].
pub open spec fn balance_view(balance: (&HumanAddr, &[Coin])) -> BalanceView {
    (balance.0@, coins_view(balance.1@))
}

/// The content of a list of balances as it is handed to [`MockQuerier::new`].
pub open spec fn balances_view(balances: Seq<(&HumanAddr, &[Coin])>) -> Seq<BalanceView> {
    balances.map_values(|balance: (&HumanAddr, &[Coin])| balance_view(balance))
}

/// The funds of each address after the balances are set one after the
/// other: where an address occurs twice, its later balance stands.
pub open spec fn holdings(balances: Seq<BalanceView>) -> Map<Seq<char>, Seq<CoinView>>
    decreases balances.len(),
{
    if balances.len() == 0 {
        Map::empty()
    } else {
        holdings(balances.drop_last()).insert(balances.last().0, balances.last().1)
    }
}

/// A querier that knows the funds of the addresses it was seeded with. Every
/// other address holds nothing.
#[derive(Debug)]
pub struct MockQuerier {
    balances: Vec<(HumanAddr, Vec<Coin>)>,
}

/// The content of one balance as a [`MockQuerier`] keeps it.
spec fn entry_view(entry: (HumanAddr, Vec<Coin>)) -> BalanceView {
    (entry.0@, coins_view(entry.1@))
}

/// The content of the balances that a [`MockQuerier`] keeps, in their order.
spec fn entries_view(entries: Seq<(HumanAddr, Vec<Coin>)>) -> Seq<BalanceView> {
    entries.map_values(|entry: (HumanAddr, Vec<Coin>)| entry_view(entry))
}

impl View for MockQuerier {
    type V = Map<Seq<char>, Seq<CoinView>>;

    closed spec fn view(&self) -> Map<Seq<char>, Seq<CoinView>> {
        holdings(entries_view(self.balances@))
    }
}

impl MockQuerier {
    /// The funds that `address` holds: its seeded balance, or nothing.
    pub open spec fn funds_of(&self, address: Seq<char>) -> Seq<CoinView> {
        if self@.contains_key(address) {
            self@[address]
        } else {
            Seq::empty()
        }
    }

    /// A querier seeded with `balances`.
    pub fn new(balances: &[(&HumanAddr, &[Coin])]) -> (querier: Self)
        ensures
            querier@ == holdings(balances_view(balances@)),
    {
        let mut entries: Vec<(HumanAddr, Vec<Coin>)> = Vec::new();
        let mut i: usize = 0;
        while i < balances.len()
            invariant
                i <= balances@.len(),
                entries_view(entries@) == balances_view(balances@.take(i as int)),
            decreases balances.len() - i,
        {
            let (address, funds) = balances[i];
            let ghost before = entries@;
            entries.push((address.clone(), copy_coins(funds)));
            proof {
                assert(entries_view(entries@) =~= entries_view(before).push(
                    balance_view(balances@[i as int]),
                ));
                assert(balances_view(balances@.take(i + 1)) =~= balances_view(
                    balances@.take(i as int),
                ).push(balance_view(balances@[i as int])));
            }
            i += 1;
        }
        assert(balances@.take(i as int) =~= balances@);
        MockQuerier { balances: entries }
    }

    /// The funds that `address` holds.
    pub fn all_balances(&self, address: &HumanAddr) -> (funds: Vec<Coin>)
        ensures
            coins_view(funds@) == self.funds_of(address@),
    {
        let ghost seeded = entries_view(self.balances@);
        let mut i: usize = self.balances.len();
        assert(seeded.take(i as int) =~= seeded);
        while i > 0
            invariant
                i <= self.balances@.len(),
                seeded == entries_view(self.balances@),
                self.funds_of(address@) == if holdings(seeded.take(i as int)).contains_key(
                    address@,
                ) {
                    holdings(seeded.take(i as int))[address@]
                } else {
                    Seq::empty()
                },
            decreases i,
        {
            i -= 1;
            assert(seeded.take(i + 1).drop_last() =~= seeded.take(i as int));
            if self.balances[i].0.0 == address.0 {
                return copy_coins(self.balances[i].1.as_slice());
            }
        }
        Vec::new()
    }
}

} // verus!
