//! Inventory-tracking arbitrage matcher: converts previously accepted trades
//! into held inventory and offloads it against the best profitable
//! counter-order found on any venue.
//!
//! Venue I/O stays outside this crate. The caller fetches, per venue and coin
//! pair, a [`MarketSnapshot`] (counter-side order book and spendable balance),
//! asks [`Reseller::plan_market`] for the counter-order to submit, performs
//! the submission, and hands the confirmed trade to
//! [`Reseller::commit_market_trade`], which consumes the matched inventory.

use vstd::prelude::*;
use crate::calculators::amount_calculator::{AmountCalculator, Balance};
use crate::calculators::profit_calculator::{spec_profit_fraction, ProfitCalculator};
use crate::filters::{lemma_filter_low_keeps_members, spec_filter_low, LowAmountFilter};
use crate::numeric::{mul_div_saturating, muldiv, SCALE};
use crate::order::{Order, Trade};
use crate::search::{first_match_index, lemma_first_match_index};
use crate::trading_pair::{Coin, Coins, Side, Target, TradingPair};

verus! {

/// Inventory held at one price level, accumulated from accepted trades.
#[derive(Clone, Copy, Debug, PartialEq, Eq, Structural)]
pub struct Entry {
    pub price: u64,
    pub amount: u64,
}

impl Entry {
    pub fn incremented(&mut self, amount: u64)
        requires
            old(self).amount + amount <= u64::MAX,
        ensures
            final(self).price == old(self).price,
            final(self).amount == old(self).amount + amount,
    {
        self.amount = self.amount + amount;
    }
}

/// Matches a storage slot holding the given coin pair.
pub open spec fn coins_matcher(coins: Coins) -> spec_fn((Coins, Seq<Entry>)) -> bool {
    |slot: (Coins, Seq<Entry>)| slot.0 == coins
}

/// Matches an inventory entry held at the given price.
pub open spec fn price_matcher(price: u64) -> spec_fn(Entry) -> bool {
    |entry: Entry| entry.price == price
}

/// Per-side inventory: for each coin pair, the entries held, one per price
/// level, in arrival order.
#[derive(Clone, Debug)]
pub struct Storage {
    pub items: Vec<(Coins, Vec<Entry>)>,
}

impl View for Storage {
    type V = Seq<(Coins, Seq<Entry>)>;

    open spec fn view(&self) -> Seq<(Coins, Seq<Entry>)> {
        self.items@.map_values(|slot: (Coins, Vec<Entry>)| (slot.0, slot.1@))
    }
}

impl Storage {
    pub fn new() -> (r: Storage)
        ensures
            r@.len() == 0,
    {
        Storage { items: Vec::new() }
    }

    /// The entries held for a coin pair; empty when the pair is unknown.
    pub open spec fn spec_entries_of(self, coins: Coins) -> Seq<Entry> {
        let k = first_match_index(self@, coins_matcher(coins));
        if k >= 0 {
            self@[k].1
        } else {
            Seq::empty()
        }
    }

    /// Position of the slot holding `coins`, if any.
    fn find_coins(&self, coins: Coins) -> (r: Option<usize>)
        ensures
            ({
                let k = first_match_index(self@, coins_matcher(coins));
                match r {
                    Some(i) => k == i,
                    None => k < 0,
                }
            }),
    {
        proof {
            lemma_first_match_index(self@, coins_matcher(coins));
        }
        let mut i: usize = 0;
        while i < self.items.len()
            invariant
                i <= self.items.len(),
                forall|j: int| 0 <= j < i ==> self@[j].0 != coins,
            decreases self.items.len() - i,
        {
            if self.items[i].0 == coins {
                return Some(i);
            }
            i += 1;
        }
        None
    }

    /// The coin pairs currently holding inventory, in storage order.
    pub fn coins_list(&self) -> (r: Vec<Coins>)
        ensures
            r@ == self@.map_values(|slot: (Coins, Seq<Entry>)| slot.0),
    {
        let mut result: Vec<Coins> = Vec::new();
        let mut i: usize = 0;
        while i < self.items.len()
            invariant
                i <= self.items.len(),
                result@ == self@.take(i as int).map_values(|slot: (Coins, Seq<Entry>)| slot.0),
            decreases self.items.len() - i,
        {
            result.push(self.items[i].0);
            proof {
                assert(self@.take(i + 1 as int) == self@.take(i as int).push(self@[i as int]));
            }
            i += 1;
        }
        proof {
            assert(self@.take(self.items.len() as int) == self@);
        }
        result
    }
}

/// Entries after a trade at `price` for `amount` is folded in: the first
/// entry at that price grows by the amount, or a new entry is appended.
pub open spec fn spec_accept_entries(entries: Seq<Entry>, price: u64, amount: u64) -> Seq<Entry> {
    let i = first_match_index(entries, price_matcher(price));
    if i >= 0 {
        entries.update(i, Entry { price, amount: (entries[i].amount + amount) as u64 })
    } else {
        entries.push(Entry { price, amount })
    }
}

/// Aggregating `amount` at `price` stays within the machine word.
pub open spec fn accept_fits(entries: Seq<Entry>, price: u64, amount: u64) -> bool {
    let i = first_match_index(entries, price_matcher(price));
    i >= 0 ==> entries[i].amount + amount <= u64::MAX
}

/// A storage after a trade at `price` for `amount` of `coins` is folded in.
pub open spec fn spec_accept(
    s: Seq<(Coins, Seq<Entry>)>,
    coins: Coins,
    price: u64,
    amount: u64,
) -> Seq<(Coins, Seq<Entry>)> {
    let k = first_match_index(s, coins_matcher(coins));
    if k >= 0 {
        s.update(k, (coins, spec_accept_entries(s[k].1, price, amount)))
    } else {
        s.push((coins, seq![Entry { price, amount }]))
    }
}

/// Routes a trade into a storage: aggregates into the existing entry at the
/// same price, or appends a new price level.
#[verifier::loop_isolation(false)]
fn accept_new_item(storage: &mut Storage, coins: Coins, new_price: u64, new_amount: u64)
    requires
        accept_fits(old(storage).spec_entries_of(coins), new_price, new_amount),
    ensures
        final(storage)@ == spec_accept(old(storage)@, coins, new_price, new_amount),
{
    proof {
        lemma_first_match_index(storage@, coins_matcher(coins));
    }
    let slot = storage.find_coins(coins);
    match slot {
        None => {
            let mut entries: Vec<Entry> = Vec::new();
            entries.push(Entry { price: new_price, amount: new_amount });
            storage.items.push((coins, entries));
            proof {
                assert(storage@ =~= spec_accept(old(storage)@, coins, new_price, new_amount));
            }
        },
        Some(k) => {
            let ghost pre = storage@;
            let ghost entries = pre[k as int].1;
            proof {
                lemma_first_match_index(entries, price_matcher(new_price));
            }
            let n = storage.items[k].1.len();
            let mut i: usize = 0;
            while i < n
                invariant
                    *storage == *old(storage),
                    pre == storage@,
                    k < storage.items@.len(),
                    entries == storage@[k as int].1,
                    n == entries.len(),
                    i <= n,
                    forall|j: int| 0 <= j < i ==> entries[j].price != new_price,
                decreases n - i,
            {
                if storage.items[k].1[i].price == new_price {
                    proof {
                        assert(price_matcher(new_price)(entries[i as int]));
                        assert(forall|j: int| 0 <= j < i ==> !(price_matcher(new_price)(
                            entries[j],
                        )));
                        assert(first_match_index(entries, price_matcher(new_price)) == i);
                    }
                    let current = storage.items[k].1[i].amount;
                    storage.items[k].1[i] = Entry { price: new_price, amount: current + new_amount };
                    proof {
                        assert(storage@[k as int].1 == spec_accept_entries(
                            entries,
                            new_price,
                            new_amount,
                        ));
                        assert(storage@ =~= spec_accept(pre, coins, new_price, new_amount));
                    }
                    return ;
                }
                i += 1;
            }
            proof {
                assert(first_match_index(entries, price_matcher(new_price)) < 0) by {
                    if first_match_index(entries, price_matcher(new_price)) >= 0 {
                        let m = first_match_index(entries, price_matcher(new_price));
                        assert(price_matcher(new_price)(entries[m]));
                    }
                }
            }
            storage.items[k].1.push(Entry { price: new_price, amount: new_amount });
            proof {
                assert(storage@[k as int].1 == spec_accept_entries(entries, new_price, new_amount));
                assert(storage@ =~= spec_accept(pre, coins, new_price, new_amount));
            }
        },
    }
}

/// What one venue currently shows for one coin pair: the venue's best
/// resting orders on the counter side, best first, and the venue's free
/// balance of the coin the counter-trade would spend.
#[derive(Clone, Debug)]
pub struct MarketSnapshot {
    pub orders: Vec<Order>,
    pub balance: u64,
}

/// Why a scan found no counter-order to execute. `NoProfit` and `EmptyStock`
/// are "nothing to do" outcomes; the other two carry a venue's own market-data
/// or balance-query failure and are raised by the caller doing the I/O.
#[derive(Debug, PartialEq, Eq)]
pub enum FindError {
    NoProfit,
    EmptyStock,
    SnifferError(String),
    AccountantError((Coin, String)),
}

/// A counter-order ready to submit, and the inventory entry it consumes.
#[derive(Clone, Copy, Debug, PartialEq, Eq, Structural)]
pub struct PlannedTrade {
    pub order: Order,
    pub entry_index: usize,
}

/// Converts a free balance into the equivalent amount of the pair's base
/// coin at the given price: buying spends the quote coin, so the balance is
/// divided by the price; selling spends the base coin, so the balance is
/// already in base units. Saturates at the machine word.
pub open spec fn spec_convert_to_base(side: Side, price: u64, balance: u64) -> int {
    match side {
        Side::Buy => {
            let q = muldiv(balance as int, SCALE as int, price as int);
            if q > u64::MAX {
                u64::MAX as int
            } else {
                q
            }
        },
        Side::Sell => balance as int,
    }
}

pub fn convert_to_base_coin_amount(side: Side, price: u64, balance: u64) -> (r: u64)
    requires
        side is Buy ==> price > 0,
    ensures
        r == spec_convert_to_base(side, price, balance),
{
    match side {
        Side::Buy => mul_div_saturating(balance, SCALE, price),
        Side::Sell => balance,
    }
}

/// The sell and buy legs of the profit check: buy-side inventory was bought
/// at the entry's price and is sold at the counter-order's price; sell-side
/// inventory is the reverse.
pub open spec fn spec_profit_legs(inventory_side: Side, best_price: u64, entry_price: u64) -> (
    u64,
    u64,
) {
    match inventory_side {
        Side::Buy => (best_price, entry_price),
        Side::Sell => (entry_price, best_price),
    }
}

/// Matches an inventory entry whose implied profit against the given best
/// counter-price meets the minimum. A zero sell leg never qualifies.
pub open spec fn profit_matcher(inventory_side: Side, best_price: u64, min_profit: u64) -> spec_fn(
    Entry,
) -> bool {
    |entry: Entry|
        {
            let (sell, buy) = spec_profit_legs(inventory_side, best_price, entry.price);
            &&& sell > 0
            &&& sell >= buy
            &&& spec_profit_fraction(sell as int, buy as int) >= min_profit
        }
}

/// Entries after `amount` of the entry at `i` is consumed: the entry shrinks,
/// or disappears once fully consumed.
pub open spec fn spec_consume_entry(entries: Seq<Entry>, i: int, amount: u64) -> Seq<Entry> {
    if amount >= entries[i].amount {
        entries.remove(i)
    } else {
        entries.update(
            i,
            Entry { price: entries[i].price, amount: (entries[i].amount - amount) as u64 },
        )
    }
}

/// Converts held inventory into realized profit by matching it against the
/// best profitable counter-order a venue shows, honoring that venue's
/// balance.
pub struct Reseller {
    pub buy_storage: Storage,
    pub sell_storage: Storage,
    pub low_amount_filter: LowAmountFilter,
    pub amount_calculator: AmountCalculator,
    pub min_profit: u64,
    pub auto_accept: bool,
}

impl Reseller {
    pub open spec fn wf(self) -> bool {
        self.amount_calculator.valid()
    }

    /// The inventory accumulated from trades of the given side.
    pub open spec fn spec_storage(self, inventory_side: Side) -> Storage {
        match inventory_side {
            Side::Buy => self.buy_storage,
            Side::Sell => self.sell_storage,
        }
    }

    pub fn new(
        buy_storage: Storage,
        sell_storage: Storage,
        low_amount_filter: LowAmountFilter,
        amount_calculator: AmountCalculator,
        min_profit: u64,
        auto_accept: bool,
    ) -> (r: Reseller)
        requires
            amount_calculator.valid(),
        ensures
            r == (Reseller {
                buy_storage,
                sell_storage,
                low_amount_filter,
                amount_calculator,
                min_profit,
                auto_accept,
            }),
    {
        Reseller {
            buy_storage,
            sell_storage,
            low_amount_filter,
            amount_calculator,
            min_profit,
            auto_accept,
        }
    }

    /// Routes an executed market trade into the inventory matching its side,
    /// aggregating with the entry already held at the same price. Limit fills
    /// are not supported by this path.
    pub fn accept_trade(&mut self, trade: Trade)
        requires
            trade is Market,
            accept_fits(
                old(self).spec_storage(trade.spec_trading_pair().side).spec_entries_of(
                    trade.spec_trading_pair().coins,
                ),
                trade.spec_price(),
                trade.spec_amount(),
            ),
        ensures
            trade.spec_trading_pair().side is Buy ==> final(self).buy_storage@ == spec_accept(
                old(self).buy_storage@,
                trade.spec_trading_pair().coins,
                trade.spec_price(),
                trade.spec_amount(),
            ) && final(self).sell_storage == old(self).sell_storage,
            trade.spec_trading_pair().side is Sell ==> final(self).sell_storage@ == spec_accept(
                old(self).sell_storage@,
                trade.spec_trading_pair().coins,
                trade.spec_price(),
                trade.spec_amount(),
            ) && final(self).buy_storage == old(self).buy_storage,
            final(self).low_amount_filter == old(self).low_amount_filter,
            final(self).amount_calculator == old(self).amount_calculator,
            final(self).min_profit == old(self).min_profit,
            final(self).auto_accept == old(self).auto_accept,
    {
        let coins = trade.trading_pair().coins;
        let price = trade.price();
        let amount = trade.amount();
        match trade.trading_pair().side {
            Side::Sell => accept_new_item(&mut self.sell_storage, coins, price, amount),
            Side::Buy => accept_new_item(&mut self.buy_storage, coins, price, amount),
        }
    }

    /// Scans one venue's snapshot for one coin pair: takes the best
    /// dust-filtered counter-order, selects the first inventory entry whose
    /// implied profit against it clears the minimum, sizes the trade by the
    /// venue's balance and both sizes, and returns the counter-order to
    /// submit together with the entry it will consume. `EmptyStock` when the
    /// filtered book is empty; `NoProfit` when no entry qualifies or no
    /// viable amount remains.
    #[verifier::loop_isolation(false)]
    pub fn plan_market(&self, inventory_side: Side, coins: Coins, snapshot: MarketSnapshot) -> (r:
        Result<PlannedTrade, FindError>)
        requires
            self.wf(),
            forall|j: int| 0 <= j < snapshot.orders@.len() ==> snapshot.orders@[j].price > 0,
        ensures
            ({
                let filtered = spec_filter_low(snapshot.orders@, self.low_amount_filter.low_amount);
                let entries = self.spec_storage(inventory_side).spec_entries_of(coins);
                if filtered.len() == 0 {
                    r == Err::<PlannedTrade, FindError>(FindError::EmptyStock)
                } else {
                    let best = filtered[0];
                    let i = first_match_index(
                        entries,
                        profit_matcher(inventory_side, best.price, self.min_profit),
                    );
                    if i < 0 {
                        r == Err::<PlannedTrade, FindError>(FindError::NoProfit)
                    } else {
                        let counter = inventory_side.spec_reversed();
                        let available = spec_convert_to_base(counter, best.price, snapshot.balance);
                        let constrained = if best.amount < entries[i].amount {
                            best.amount
                        } else {
                            entries[i].amount
                        };
                        match self.amount_calculator.spec_one_leg(
                            constrained as int,
                            Balance { amount: available as u64, fee: self.amount_calculator.fee },
                        ) {
                            None => r == Err::<PlannedTrade, FindError>(FindError::NoProfit),
                            Some(a) => r == Ok::<PlannedTrade, FindError>(
                                PlannedTrade {
                                    order: Order {
                                        trading_pair: TradingPair {
                                            coins,
                                            side: counter,
                                            target: Target::Market,
                                        },
                                        price: best.price,
                                        amount: a.spec_value(),
                                    },
                                    entry_index: i as usize,
                                },
                            ),
                        }
                    }
                }
            }),
    {
        let ghost orders = snapshot.orders@;
        let balance_raw = snapshot.balance;
        let filtered = self.low_amount_filter.filter(snapshot.orders);
        proof {
            lemma_filter_low_keeps_members(orders, self.low_amount_filter.low_amount);
        }
        if filtered.len() == 0 {
            return Err(FindError::EmptyStock);
        }
        let best = filtered[0];
        proof {
            let fseq = spec_filter_low(orders, self.low_amount_filter.low_amount);
            let j = choose|j: int| 0 <= j < orders.len() && orders[j] == fseq[0];
            assert(orders[j].price > 0);
        }
        let counter_side = inventory_side.reversed();
        let storage = match inventory_side {
            Side::Buy => &self.buy_storage,
            Side::Sell => &self.sell_storage,
        };
        let ghost entries = storage.spec_entries_of(coins);
        let ghost qualifier = profit_matcher(inventory_side, best.price, self.min_profit);
        proof {
            lemma_first_match_index(storage@, coins_matcher(coins));
            lemma_first_match_index(entries, qualifier);
        }
        let slot = storage.find_coins(coins);
        let k = match slot {
            Some(k) => k,
            None => {
                return Err(FindError::NoProfit);
            },
        };
        let profit_calculator = ProfitCalculator {  };
        let n = storage.items[k].1.len();
        let mut i: usize = 0;
        while i < n
            invariant
                i <= n,
                forall|j: int| 0 <= j < i ==> !(qualifier(entries[j])),
            decreases n - i,
        {
            let entry = storage.items[k].1[i];
            let (sell, buy) = match inventory_side {
                Side::Buy => (best.price, entry.price),
                Side::Sell => (entry.price, best.price),
            };
            let qualifies = if sell == 0 {
                false
            } else {
                match profit_calculator.evaluate(sell, buy) {
                    Some(p) => p >= self.min_profit,
                    None => false,
                }
            };
            proof {
                assert(qualifies == qualifier(entries[i as int]));
            }
            if qualifies {
                proof {
                    assert(first_match_index(entries, qualifier) == i);
                }
                let available = convert_to_base_coin_amount(counter_side, best.price, balance_raw);
                let constrained = if best.amount < entry.amount {
                    best.amount
                } else {
                    entry.amount
                };
                let balance = Balance { amount: available, fee: self.amount_calculator.fee };
                return match self.amount_calculator.evaluate(constrained, &balance) {
                    Some(a) => Ok(
                        PlannedTrade {
                            order: Order {
                                trading_pair: TradingPair {
                                    coins,
                                    side: counter_side,
                                    target: Target::Market,
                                },
                                price: best.price,
                                amount: a.value(),
                            },
                            entry_index: i,
                        },
                    ),
                    None => Err(FindError::NoProfit),
                };
            }
            i += 1;
        }
        proof {
            if first_match_index(entries, qualifier) >= 0 {
                let m = first_match_index(entries, qualifier);
                assert(qualifier(entries[m]));
            }
        }
        Err(FindError::NoProfit)
    }

    /// Applies a confirmed counter-trade: the matched inventory entry shrinks
    /// by the executed amount, disappearing once fully consumed; when
    /// configured to re-accept, the executed trade is fed back in as new
    /// inventory on its own side.
    pub fn commit_market_trade(
        &mut self,
        inventory_side: Side,
        coins: Coins,
        entry_index: usize,
        trade: Trade,
    )
        requires
            entry_index < old(self).spec_storage(inventory_side).spec_entries_of(coins).len(),
            trade.spec_trading_pair().side == inventory_side.spec_reversed(),
            old(self).auto_accept ==> trade is Market && accept_fits(
                old(self).spec_storage(inventory_side.spec_reversed()).spec_entries_of(
                    trade.spec_trading_pair().coins,
                ),
                trade.spec_price(),
                trade.spec_amount(),
            ),
        ensures
            ({
                let pre = old(self).spec_storage(inventory_side)@;
                let k = first_match_index(pre, coins_matcher(coins));
                let consumed = spec_consume_entry(pre[k].1, entry_index as int, trade.spec_amount());
                let inventory_after = pre.update(k, (coins, consumed));
                let counter_pre = old(self).spec_storage(inventory_side.spec_reversed())@;
                let counter_after = if old(self).auto_accept {
                    spec_accept(
                        counter_pre,
                        trade.spec_trading_pair().coins,
                        trade.spec_price(),
                        trade.spec_amount(),
                    )
                } else {
                    counter_pre
                };
                &&& final(self).spec_storage(inventory_side)@ == inventory_after
                &&& final(self).spec_storage(inventory_side.spec_reversed())@ == counter_after
            }),
            final(self).low_amount_filter == old(self).low_amount_filter,
            final(self).amount_calculator == old(self).amount_calculator,
            final(self).min_profit == old(self).min_profit,
            final(self).auto_accept == old(self).auto_accept,
    {
        let storage = match inventory_side {
            Side::Buy => &mut self.buy_storage,
            Side::Sell => &mut self.sell_storage,
        };
        let ghost pre = storage@;
        proof {
            lemma_first_match_index(pre, coins_matcher(coins));
        }
        let k = match storage.find_coins(coins) {
            Some(k) => k,
            None => {
                proof {
                    assert(false);
                }
                return ;
            },
        };
        let amount = trade.amount();
        let current = storage.items[k].1[entry_index];
        if amount >= current.amount {
            storage.items[k].1.remove(entry_index);
        } else {
            storage.items[k].1[entry_index] = Entry {
                price: current.price,
                amount: current.amount - amount,
            };
        }
        proof {
            assert(storage@ =~= pre.update(
                first_match_index(pre, coins_matcher(coins)),
                (coins, spec_consume_entry(pre[k as int].1, entry_index as int, amount)),
            ));
        }
        if self.auto_accept {
            self.accept_trade(trade);
        }
    }
}

} // verus!
