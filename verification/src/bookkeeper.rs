//! Flat trade records for the persisted trade ledger, and the aggregate
//! profit-and-loss summary computed from them. Reading and writing the
//! ledger itself is plain I/O and stays outside this crate.

use vstd::prelude::*;
use crate::order::{OrderWithId, TradeResult};
use crate::trading_pair::{Coins, Side, Target, TradingPair};

verus! {

/// One completed trade, flattened for the ledger.
#[derive(Clone, Copy, Debug, PartialEq, Eq, Structural)]
pub struct Trade {
    pub id: u64,
    pub coins: Coins,
    pub side: Side,
    pub target: Target,
    pub price: u64,
    pub amount: u64,
}

impl From<crate::order::Trade> for Trade {
    fn from(trade: crate::order::Trade) -> (r: Trade) {
        match trade {
            crate::order::Trade::Market(result) => Trade {
                id: result.id,
                coins: result.trading_pair.coins,
                side: result.trading_pair.side,
                target: Target::Market,
                price: result.price,
                amount: result.amount,
            },
            crate::order::Trade::Limit(order) => Trade {
                id: order.id,
                coins: order.trading_pair.coins,
                side: order.trading_pair.side,
                target: Target::Limit,
                price: order.price,
                amount: order.amount,
            },
        }
    }
}

impl vstd::std_specs::convert::FromSpecImpl<crate::order::Trade> for Trade {
    open spec fn obeys_from_spec() -> bool {
        true
    }

    open spec fn from_spec(trade: crate::order::Trade) -> Trade {
        match trade {
            crate::order::Trade::Market(result) => Trade {
                id: result.id,
                coins: result.trading_pair.coins,
                side: result.trading_pair.side,
                target: Target::Market,
                price: result.price,
                amount: result.amount,
            },
            crate::order::Trade::Limit(order) => Trade {
                id: order.id,
                coins: order.trading_pair.coins,
                side: order.trading_pair.side,
                target: Target::Limit,
                price: order.price,
                amount: order.amount,
            },
        }
    }
}

impl From<Trade> for crate::order::Trade {
    fn from(trade: Trade) -> (r: crate::order::Trade) {
        match trade.target {
            Target::Market => crate::order::Trade::Market(
                TradeResult {
                    id: trade.id,
                    trading_pair: TradingPair {
                        coins: trade.coins,
                        side: trade.side,
                        target: Target::Market,
                    },
                    price: trade.price,
                    amount: trade.amount,
                },
            ),
            Target::Limit => crate::order::Trade::Limit(
                OrderWithId {
                    id: trade.id,
                    trading_pair: TradingPair {
                        coins: trade.coins,
                        side: trade.side,
                        target: Target::Limit,
                    },
                    price: trade.price,
                    amount: trade.amount,
                },
            ),
        }
    }
}

impl vstd::std_specs::convert::FromSpecImpl<Trade> for crate::order::Trade {
    open spec fn obeys_from_spec() -> bool {
        true
    }

    open spec fn from_spec(trade: Trade) -> crate::order::Trade {
        match trade.target {
            Target::Market => crate::order::Trade::Market(
                TradeResult {
                    id: trade.id,
                    trading_pair: TradingPair {
                        coins: trade.coins,
                        side: trade.side,
                        target: Target::Market,
                    },
                    price: trade.price,
                    amount: trade.amount,
                },
            ),
            Target::Limit => crate::order::Trade::Limit(
                OrderWithId {
                    id: trade.id,
                    trading_pair: TradingPair {
                        coins: trade.coins,
                        side: trade.side,
                        target: Target::Limit,
                    },
                    price: trade.price,
                    amount: trade.amount,
                },
            ),
        }
    }
}

/// Total amount sold across the ledger.
pub open spec fn spec_sold_sum(trades: Seq<Trade>) -> int
    decreases trades.len(),
{
    if trades.len() == 0 {
        0
    } else {
        spec_sold_sum(trades.drop_last()) + if trades.last().side is Sell {
            trades.last().amount as int
        } else {
            0
        }
    }
}

/// Total amount bought across the ledger.
pub open spec fn spec_bought_sum(trades: Seq<Trade>) -> int
    decreases trades.len(),
{
    if trades.len() == 0 {
        0
    } else {
        spec_bought_sum(trades.drop_last()) + if trades.last().side is Buy {
            trades.last().amount as int
        } else {
            0
        }
    }
}

/// Sold and bought totals aggregated over a set of ledger trades.
#[derive(Clone, Copy, Debug, PartialEq, Eq, Structural)]
pub struct TradingResult {
    pub sold: u64,
    pub bought: u64,
}

impl TradingResult {
    #[verifier::loop_isolation(false)]
    pub fn aggregate(trades: Vec<Trade>) -> (r: TradingResult)
        requires
            spec_sold_sum(trades@) <= u64::MAX,
            spec_bought_sum(trades@) <= u64::MAX,
        ensures
            r.sold == spec_sold_sum(trades@),
            r.bought == spec_bought_sum(trades@),
    {
        let mut sold: u64 = 0;
        let mut bought: u64 = 0;
        let mut i: usize = 0;
        proof {
            lemma_partial_sums_bounded(trades@, trades@.len() as int);
        }
        while i < trades.len()
            invariant
                i <= trades.len(),
                sold == spec_sold_sum(trades@.take(i as int)),
                bought == spec_bought_sum(trades@.take(i as int)),
            decreases trades.len() - i,
        {
            proof {
                assert(trades@.take(i + 1 as int).drop_last() =~= trades@.take(i as int));
                assert(trades@.take(i + 1 as int).last() == trades@[i as int]);
                lemma_partial_sums_bounded(trades@, i + 1 as int);
            }
            match trades[i].side {
                Side::Sell => {
                    sold = sold + trades[i].amount;
                },
                Side::Buy => {
                    bought = bought + trades[i].amount;
                },
            }
            i += 1;
        }
        proof {
            assert(trades@.take(trades@.len() as int) =~= trades@);
        }
        TradingResult { sold, bought }
    }
}

/// Partial sold and bought sums never exceed the totals.
proof fn lemma_partial_sums_bounded(trades: Seq<Trade>, i: int)
    requires
        0 <= i <= trades.len(),
    ensures
        spec_sold_sum(trades.take(i)) <= spec_sold_sum(trades),
        spec_bought_sum(trades.take(i)) <= spec_bought_sum(trades),
    decreases trades.len() - i,
{
    if i < trades.len() {
        lemma_partial_sums_bounded(trades, i + 1);
        assert(trades.take(i + 1).drop_last() =~= trades.take(i));
        assert(trades.take(i + 1).last() == trades[i]);
    } else {
        assert(trades.take(i) =~= trades);
    }
}

} // verus!
