//! What one token costs.

use std::collections::BTreeMap;
use vstd::prelude::*;
use vstd::std_specs::btree::*;
use vstd::std_specs::cmp::OrdSpec;
use vstd::std_specs::iter::IteratorSpec;

verus! {

/// What one token costs: one price, or a price for each amount from which
/// it holds.
#[derive(Debug, PartialEq, Eq)]
pub enum TokenPricingSchedule {
    SinglePrice(u64),
    /// The amounts with their prices.
    SetPrices(BTreeMap<u64, u64>),
}

/// `amount` is the smallest of `amounts`.
pub open spec fn is_smallest(amounts: Set<u64>, amount: u64) -> bool {
    &&& amounts.contains(amount)
    &&& forall|other: u64| amounts.contains(other) ==> amount <= other
}

/// The price of the smallest amount of a schedule of amounts with their
/// prices; zero for a schedule without amounts.
pub open spec fn spec_first_tier_price(tiers: Map<u64, u64>) -> u64 {
    if tiers.dom().len() == 0 {
        0
    } else {
        tiers[choose|amount: u64| is_smallest(tiers.dom(), amount)]
    }
}

/// The price that a schedule asks for one token.
pub open spec fn spec_min_token_price(pricing_schedule: TokenPricingSchedule) -> u64 {
    match pricing_schedule {
        TokenPricingSchedule::SinglePrice(single) => single,
        TokenPricingSchedule::SetPrices(tiers) => spec_first_tier_price(tiers@),
    }
}

/// A set of amounts has one smallest amount at most.
pub proof fn lemma_smallest_is_unique(amounts: Set<u64>, a: u64, b: u64)
    requires
        is_smallest(amounts, a),
        is_smallest(amounts, b),
    ensures
        a == b,
{
}

/// Get the minimum price for purchasing one token from a pricing schedule:
/// the one price, or the price of the smallest amount.
pub fn get_min_token_price(pricing_schedule: &TokenPricingSchedule) -> (price: u64)
    ensures
        price == spec_min_token_price(*pricing_schedule),
{
    broadcast use group_btree_axioms;
    broadcast use vstd::laws_cmp::group_laws_cmp;

    match pricing_schedule {
        TokenPricingSchedule::SinglePrice(price) => *price,
        TokenPricingSchedule::SetPrices(price_map) => {
            let values = price_map.values();
            let ghost amounts = choose|amounts: Seq<u64>|
                {
                    &&& increasing_seq(amounts)
                    &&& amounts.to_set() == price_map@.dom()
                    &&& amounts.no_duplicates()
                    &&& IteratorSpec::remaining(&values) == amounts.map(|i: int, k| &price_map@[k])
                };
            proof {
                amounts.unique_seq_to_set();
            }
            for price in it: values
                invariant
                    it.index() == 0,
                    *pricing_schedule matches TokenPricingSchedule::SetPrices(tiers) && tiers
                        == *price_map,
                    it.seq() == amounts.map(|i: int, k| &price_map@[k]),
                    increasing_seq(amounts),
                    amounts.to_set() == price_map@.dom(),
                    amounts.len() == price_map@.dom().len(),
            {
                proof {
                    let first = amounts[0];
                    assert(price == it.seq()[0]);
                    assert(*price == price_map@[first]);
                    assert(amounts.to_set().contains(first));
                    assert(price_map@.dom().len() > 0);
                    assert forall|other: u64| price_map@.dom().contains(other) implies first
                        <= other by {
                        assert(amounts.to_set().contains(other));
                        let at = choose|at: int| 0 <= at < amounts.len() && amounts[at] == other;
                        if at > 0 {
                            assert(amounts[0].cmp_spec(&amounts[at]) is Less);
                        }
                    }
                    assert(is_smallest(price_map@.dom(), first));
                    lemma_smallest_is_unique(
                        price_map@.dom(),
                        first,
                        choose|amount: u64| is_smallest(price_map@.dom(), amount),
                    );
                }
                return *price;
            }
            0
        },
    }
}

} // verus!
