//! Cross-venue reconciliation of resting limit orders: tracks this system's
//! own quotes per venue, detects fills by diffing snapshots, and reprices
//! through a cancel-and-replace cycle under per-venue balance constraints.
//!
//! Venue I/O stays outside this crate. One cycle runs: clear the tracked
//! state while the caller cancels every resting order
//! ([`LimitMaster::begin_update`]); fetch a market snapshot and fold it with
//! [`accumulate`]; pick the side's reference order and quote price with
//! [`LimitMaster::plan_limit_order`]; size each venue's quote with
//! [`LimitMaster::size_limit_order`], stopping the side at the first venue
//! without a viable amount; and record each confirmed placement with
//! [`LimitMaster::record_placed`]. Fill detection diffs the tracked state
//! against a fresh snapshot in [`LimitMaster::check_current_orders`].

use vstd::prelude::*;
use crate::calculators::amount_calculator::{AmountCalculator, Balance};
use crate::calculators::price_calculator::PriceCalculator;
use crate::order::{Order, OrderWithId, Trade};
use crate::search::{first_match_index, lemma_first_match_index};
use crate::trading_pair::{Coins, Side, Target, TradingPair};

verus! {

/// Stable opaque identity of a venue within a process lifetime.
pub type MerchantId = u64;

/// A quote together with the venue that holds it.
#[derive(Clone, Copy, Debug)]
pub struct OrderEntity<TOrder> {
    pub merchant_id: MerchantId,
    pub order: TOrder,
}

impl<TOrder> OrderEntity<TOrder> {
    pub fn new(merchant_id: MerchantId, order: TOrder) -> (r: Self)
        ensures
            r.merchant_id == merchant_id,
            r.order == order,
    {
        OrderEntity { merchant_id, order }
    }
}

/// Two per-side collections of venue-attributed orders for one coin pair.
#[derive(Clone, Debug)]
pub struct OrdersStorage<TOrder> {
    pub coins: Coins,
    pub sell_stock: Vec<OrderEntity<TOrder>>,
    pub buy_stock: Vec<OrderEntity<TOrder>>,
}

impl<TOrder> OrdersStorage<TOrder> {
    pub fn new(coins: Coins) -> (r: Self)
        ensures
            r.coins == coins,
            r.sell_stock@.len() == 0,
            r.buy_stock@.len() == 0,
    {
        OrdersStorage { coins, sell_stock: Vec::new(), buy_stock: Vec::new() }
    }

    /// The stock a target/side combination refers to: limit quotes live on
    /// their own side, while market references cross sides (buy-side work
    /// reads sell-direction liquidity and vice versa).
    pub open spec fn spec_stock(self, target: Target, side: Side) -> Seq<OrderEntity<TOrder>> {
        match (target, side) {
            (Target::Limit, Side::Buy) => self.buy_stock@,
            (Target::Limit, Side::Sell) => self.sell_stock@,
            (Target::Market, Side::Buy) => self.sell_stock@,
            (Target::Market, Side::Sell) => self.buy_stock@,
        }
    }

    pub fn get_stock(&self, target: Target, side: Side) -> (r: &Vec<OrderEntity<TOrder>>)
        ensures
            r@ == self.spec_stock(target, side),
    {
        match (target, side) {
            (Target::Limit, Side::Buy) => &self.buy_stock,
            (Target::Limit, Side::Sell) => &self.sell_stock,
            (Target::Market, Side::Buy) => &self.sell_stock,
            (Target::Market, Side::Sell) => &self.buy_stock,
        }
    }

    pub fn clear(&mut self)
        ensures
            final(self).coins == old(self).coins,
            final(self).sell_stock@.len() == 0,
            final(self).buy_stock@.len() == 0,
    {
        self.sell_stock.clear();
        self.buy_stock.clear();
    }
}

/// The orders confirmed placed in one cancel-and-replace cycle, per quoted
/// side.
#[derive(Clone, Debug)]
pub struct Update {
    pub sell: Vec<OrderEntity<OrderWithId>>,
    pub buy: Vec<OrderEntity<OrderWithId>>,
}

/// A tracked stock across one cancel-and-replace cycle: the cancel phase
/// empties it, then each confirmed placement appends one entity.
pub open spec fn spec_stock_after_cycle(placed: Seq<OrderEntity<OrderWithId>>) -> Seq<
    OrderEntity<OrderWithId>,
>
    decreases placed.len(),
{
    if placed.len() == 0 {
        Seq::empty()
    } else {
        spec_stock_after_cycle(placed.drop_last()).push(placed.last())
    }
}

/// Law (cancel-and-replace): after a full update cycle a tracked stock holds
/// exactly the orders confirmed placed during that cycle, in placement
/// order — nothing tracked before the cycle survives it.
pub proof fn lemma_cancel_and_replace(placed: Seq<OrderEntity<OrderWithId>>)
    ensures
        spec_stock_after_cycle(placed) == placed,
    decreases placed.len(),
{
    if placed.len() > 0 {
        lemma_cancel_and_replace(placed.drop_last());
        assert(spec_stock_after_cycle(placed) =~= placed);
    }
}

/// Wraps an order as a venue-attributed entity.
pub open spec fn entity_maker<TOrder>(merchant_id: MerchantId) -> spec_fn(TOrder) -> OrderEntity<
    TOrder,
> {
    |o: TOrder| OrderEntity { merchant_id, order: o }
}

/// One side's fetched order lists flattened into venue-attributed entities,
/// in venue order.
pub open spec fn spec_flatten_entities<TOrder>(lists: Seq<(MerchantId, Seq<TOrder>)>) -> Seq<
    OrderEntity<TOrder>,
>
    decreases lists.len(),
{
    if lists.len() == 0 {
        Seq::empty()
    } else {
        spec_flatten_entities(lists.drop_last()) + lists.last().1.map_values(
            entity_maker(lists.last().0),
        )
    }
}

/// The per-venue lists as mathematical sequences.
pub open spec fn spec_lists_view<TOrder>(lists: Seq<(MerchantId, Vec<TOrder>)>) -> Seq<
    (MerchantId, Seq<TOrder>),
> {
    lists.map_values(|p: (MerchantId, Vec<TOrder>)| (p.0, p.1@))
}

/// Appends every order of every per-venue list to `out`, tagged with the
/// venue that quoted it, keeping venue order and each list's own order.
#[verifier::loop_isolation(false)]
fn flatten_entities<TOrder: Copy>(
    lists: &Vec<(MerchantId, Vec<TOrder>)>,
    out: &mut Vec<OrderEntity<TOrder>>,
)
    ensures
        final(out)@ == old(out)@ + spec_flatten_entities(spec_lists_view(lists@)),
{
    proof {
        assert(spec_lists_view(lists@).take(0) =~= Seq::<(MerchantId, Seq<TOrder>)>::empty());
        assert(out@ =~= old(out)@ + spec_flatten_entities(spec_lists_view(lists@).take(0)));
    }
    let mut i: usize = 0;
    while i < lists.len()
        invariant
            i <= lists.len(),
            out@ == old(out)@ + spec_flatten_entities(spec_lists_view(lists@).take(i as int)),
        decreases lists.len() - i,
    {
        let ghost mid_base = out@;
        let merchant_id = lists[i].0;
        let mut j: usize = 0;
        proof {
            assert(lists@[i as int].1@.take(0).map_values(entity_maker::<TOrder>(merchant_id))
                =~= Seq::<OrderEntity<TOrder>>::empty());
            assert(out@ =~= mid_base + lists@[i as int].1@.take(0).map_values(
                entity_maker::<TOrder>(merchant_id),
            ));
        }
        while j < lists[i].1.len()
            invariant
                i < lists.len(),
                j <= lists@[i as int].1@.len(),
                merchant_id == lists@[i as int].0,
                out@ == mid_base + lists@[i as int].1@.take(j as int).map_values(
                    entity_maker::<TOrder>(merchant_id),
                ),
            decreases lists@[i as int].1@.len() - j,
        {
            let order = lists[i].1[j];
            out.push(OrderEntity { merchant_id, order });
            proof {
                assert(lists@[i as int].1@.take(j + 1 as int).map_values(
                    entity_maker::<TOrder>(merchant_id),
                ) =~= lists@[i as int].1@.take(j as int).map_values(
                    entity_maker::<TOrder>(merchant_id),
                ).push(OrderEntity { merchant_id, order }));
            }
            j += 1;
        }
        proof {
            assert(lists@[i as int].1@.take(lists@[i as int].1@.len() as int) =~= lists@[i
                as int].1@);
            assert(spec_lists_view(lists@).take(i + 1 as int).drop_last() =~= spec_lists_view(
                lists@,
            ).take(i as int));
            assert(spec_lists_view(lists@).take(i + 1 as int).last() == (lists@[i as int].0, lists@[
                i as int].1@,
            ));
            assert(out@ =~= old(out)@ + spec_flatten_entities(
                spec_lists_view(lists@).take(i + 1 as int),
            ));
        }
        i += 1;
    }
    proof {
        assert(spec_lists_view(lists@).take(lists@.len() as int) =~= spec_lists_view(lists@));
    }
}

/// Folds the order lists fetched from every venue, one list per venue and
/// side, into one cross-venue storage, tagging every order with the venue
/// that quoted it.
pub fn accumulate<TOrder: Copy>(
    coins: Coins,
    sell_lists: &Vec<(MerchantId, Vec<TOrder>)>,
    buy_lists: &Vec<(MerchantId, Vec<TOrder>)>,
) -> (r: OrdersStorage<TOrder>)
    ensures
        r.coins == coins,
        r.sell_stock@ == spec_flatten_entities(spec_lists_view(sell_lists@)),
        r.buy_stock@ == spec_flatten_entities(spec_lists_view(buy_lists@)),
{
    let mut sell_stock: Vec<OrderEntity<TOrder>> = Vec::new();
    let mut buy_stock: Vec<OrderEntity<TOrder>> = Vec::new();
    flatten_entities(sell_lists, &mut sell_stock);
    flatten_entities(buy_lists, &mut buy_stock);
    proof {
        assert(sell_stock@ =~= spec_flatten_entities(spec_lists_view(sell_lists@)));
        assert(buy_stock@ =~= spec_flatten_entities(spec_lists_view(buy_lists@)));
    }
    OrdersStorage { coins, sell_stock, buy_stock }
}

/// Matches the currently resting order placed on the given venue under the
/// given venue-assigned id.
pub open spec fn id_matcher(merchant_id: MerchantId, order_id: u64) -> spec_fn(
    OrderEntity<OrderWithId>,
) -> bool {
    |e: OrderEntity<OrderWithId>| e.merchant_id == merchant_id && e.order.id == order_id
}

/// The fill one tracked order yields against a venue snapshot: the whole
/// remaining amount when the order no longer appears, the shrunk difference
/// when it appears smaller, nothing when it is unchanged or larger.
pub open spec fn spec_fill_of(
    e: OrderEntity<OrderWithId>,
    current: Seq<OrderEntity<OrderWithId>>,
) -> Seq<Trade> {
    let k = first_match_index(current, id_matcher(e.merchant_id, e.order.id));
    if k < 0 {
        seq![Trade::Limit(e.order)]
    } else if current[k].order.amount < e.order.amount {
        seq![
            Trade::Limit(
                OrderWithId {
                    id: e.order.id,
                    trading_pair: e.order.trading_pair,
                    price: e.order.price,
                    amount: (e.order.amount - current[k].order.amount) as u64,
                },
            ),
        ]
    } else {
        Seq::empty()
    }
}

/// What stays tracked of one order after a diff: dropped when it no longer
/// appears, reduced to the venue-reported amount when it shrank, kept
/// unchanged otherwise.
pub open spec fn spec_track_of(
    e: OrderEntity<OrderWithId>,
    current: Seq<OrderEntity<OrderWithId>>,
) -> Seq<OrderEntity<OrderWithId>> {
    let k = first_match_index(current, id_matcher(e.merchant_id, e.order.id));
    if k < 0 {
        Seq::empty()
    } else if current[k].order.amount < e.order.amount {
        seq![
            OrderEntity {
                merchant_id: e.merchant_id,
                order: OrderWithId {
                    id: e.order.id,
                    trading_pair: e.order.trading_pair,
                    price: e.order.price,
                    amount: current[k].order.amount,
                },
            },
        ]
    } else {
        seq![e]
    }
}

/// All fills detected by diffing a tracked stock against a venue snapshot,
/// in tracking order.
pub open spec fn spec_diff_trades(
    known: Seq<OrderEntity<OrderWithId>>,
    current: Seq<OrderEntity<OrderWithId>>,
) -> Seq<Trade>
    decreases known.len(),
{
    if known.len() == 0 {
        Seq::empty()
    } else {
        spec_fill_of(known[0], current) + spec_diff_trades(known.drop_first(), current)
    }
}

/// The tracked stock left after diffing against a venue snapshot.
pub open spec fn spec_diff_tracked(
    known: Seq<OrderEntity<OrderWithId>>,
    current: Seq<OrderEntity<OrderWithId>>,
) -> Seq<OrderEntity<OrderWithId>>
    decreases known.len(),
{
    if known.len() == 0 {
        Seq::empty()
    } else {
        spec_track_of(known[0], current) + spec_diff_tracked(known.drop_first(), current)
    }
}

/// Diffing distributes over appending one tracked order.
pub proof fn lemma_diff_push(
    known: Seq<OrderEntity<OrderWithId>>,
    x: OrderEntity<OrderWithId>,
    current: Seq<OrderEntity<OrderWithId>>,
)
    ensures
        spec_diff_trades(known.push(x), current) == spec_diff_trades(known, current)
            + spec_fill_of(x, current),
        spec_diff_tracked(known.push(x), current) == spec_diff_tracked(known, current)
            + spec_track_of(x, current),
    decreases known.len(),
{
    if known.len() == 0 {
        assert(known.push(x)[0] == x);
        assert(known.push(x).drop_first() =~= Seq::<OrderEntity<OrderWithId>>::empty());
        assert(spec_diff_trades(Seq::<OrderEntity<OrderWithId>>::empty(), current) == Seq::<
            Trade,
        >::empty());
        assert(spec_diff_tracked(Seq::<OrderEntity<OrderWithId>>::empty(), current) == Seq::<
            OrderEntity<OrderWithId>,
        >::empty());
        assert(spec_diff_trades(known.push(x), current) =~= spec_diff_trades(known, current)
            + spec_fill_of(x, current));
        assert(spec_diff_tracked(known.push(x), current) =~= spec_diff_tracked(known, current)
            + spec_track_of(x, current));
    } else {
        assert(known.push(x)[0] == known[0]);
        assert(known.push(x).drop_first() =~= known.drop_first().push(x));
        lemma_diff_push(known.drop_first(), x, current);
        assert(spec_diff_trades(known.push(x), current) =~= spec_diff_trades(known, current)
            + spec_fill_of(x, current));
        assert(spec_diff_tracked(known.push(x), current) =~= spec_diff_tracked(known, current)
            + spec_track_of(x, current));
    }
}

/// Law (no double counting): diffing a second time against the same venue
/// snapshot detects no further fills and leaves the tracked stock unchanged.
pub proof fn lemma_check_idempotent(
    known: Seq<OrderEntity<OrderWithId>>,
    current: Seq<OrderEntity<OrderWithId>>,
)
    ensures
        spec_diff_trades(spec_diff_tracked(known, current), current) == Seq::<Trade>::empty(),
        spec_diff_tracked(spec_diff_tracked(known, current), current) == spec_diff_tracked(
            known,
            current,
        ),
    decreases known.len(),
{
    if known.len() > 0 {
        let e = known[0];
        let rest = known.drop_first();
        lemma_check_idempotent(rest, current);
        let once = spec_diff_tracked(known, current);
        let rest_once = spec_diff_tracked(rest, current);
        let k = first_match_index(current, id_matcher(e.merchant_id, e.order.id));
        if k < 0 {
            assert(once =~= rest_once);
        } else {
            let e2 = spec_track_of(e, current)[0];
            assert(once[0] == e2);
            assert(once.drop_first() =~= rest_once);
            assert(first_match_index(current, id_matcher(e2.merchant_id, e2.order.id)) == k);
            assert(!(current[k].order.amount < e2.order.amount));
            assert(spec_fill_of(e2, current) =~= Seq::<Trade>::empty());
            assert(spec_track_of(e2, current) =~= seq![e2]);
            assert(spec_diff_trades(once, current) =~= Seq::<Trade>::empty());
            assert(spec_diff_tracked(once, current) =~= once);
        }
    }
}

/// Position of the first entity in a stock attributed to the given venue
/// under the given venue-assigned id.
#[verifier::loop_isolation(false)]
fn find_entity(
    stock: &Vec<OrderEntity<OrderWithId>>,
    merchant_id: MerchantId,
    order_id: u64,
) -> (r: Option<usize>)
    ensures
        ({
            let k = first_match_index(stock@, id_matcher(merchant_id, order_id));
            match r {
                Some(i) => k == i && i < stock@.len(),
                None => k < 0,
            }
        }),
{
    proof {
        lemma_first_match_index(stock@, id_matcher(merchant_id, order_id));
    }
    let mut i: usize = 0;
    while i < stock.len()
        invariant
            i <= stock.len(),
            forall|j: int|
                0 <= j < i ==> !(stock@[j].merchant_id == merchant_id && stock@[j].order.id
                    == order_id),
        decreases stock.len() - i,
    {
        if stock[i].merchant_id == merchant_id && stock[i].order.id == order_id {
            proof {
                assert(id_matcher(merchant_id, order_id)(stock@[i as int]));
            }
            return Some(i);
        }
        i += 1;
    }
    proof {
        assert(forall|j: int|
            0 <= j < stock@.len() ==> !(id_matcher(merchant_id, order_id)(stock@[j])));
    }
    None
}

/// Diffs one tracked stock against the venue's current stock: appends the
/// detected fills to `trades` and returns what stays tracked.
#[verifier::loop_isolation(false)]
fn diff_stock(
    known: &Vec<OrderEntity<OrderWithId>>,
    current: &Vec<OrderEntity<OrderWithId>>,
    trades: &mut Vec<Trade>,
) -> (r: Vec<OrderEntity<OrderWithId>>)
    ensures
        r@ == spec_diff_tracked(known@, current@),
        final(trades)@ == old(trades)@ + spec_diff_trades(known@, current@),
{
    let mut kept: Vec<OrderEntity<OrderWithId>> = Vec::new();
    let mut i: usize = 0;
    proof {
        assert(known@.take(0) =~= Seq::<OrderEntity<OrderWithId>>::empty());
        assert(trades@ =~= old(trades)@ + spec_diff_trades(known@.take(0), current@));
    }
    while i < known.len()
        invariant
            i <= known.len(),
            kept@ == spec_diff_tracked(known@.take(i as int), current@),
            trades@ == old(trades)@ + spec_diff_trades(known@.take(i as int), current@),
        decreases known.len() - i,
    {
        let e = known[i];
        let found = find_entity(current, e.merchant_id, e.order.id);
        match found {
            None => {
                trades.push(Trade::Limit(e.order));
            },
            Some(k) => {
                let cur = current[k];
                if cur.order.amount < e.order.amount {
                    trades.push(
                        Trade::Limit(
                            OrderWithId {
                                id: e.order.id,
                                trading_pair: e.order.trading_pair,
                                price: e.order.price,
                                amount: e.order.amount - cur.order.amount,
                            },
                        ),
                    );
                    kept.push(
                        OrderEntity {
                            merchant_id: e.merchant_id,
                            order: OrderWithId {
                                id: e.order.id,
                                trading_pair: e.order.trading_pair,
                                price: e.order.price,
                                amount: cur.order.amount,
                            },
                        },
                    );
                } else {
                    kept.push(e);
                }
            },
        }
        proof {
            assert(known@.take(i + 1 as int) =~= known@.take(i as int).push(
                known@[i as int],
            ));
            lemma_diff_push(known@.take(i as int), known@[i as int], current@);
            assert(kept@ =~= spec_diff_tracked(known@.take(i + 1 as int), current@));
            assert(trades@ =~= old(trades)@ + spec_diff_trades(
                known@.take(i + 1 as int),
                current@,
            ));
        }
        i += 1;
    }
    proof {
        assert(known@.take(known@.len() as int) =~= known@);
    }
    kept
}

/// The reference order for quoting one side: among market entries whose
/// amount exceeds the dust threshold, the lowest-priced for a buy-side
/// quote (the earliest kept on ties) and the highest-priced for a sell-side
/// quote (the latest kept on ties).
pub open spec fn spec_best_reference(
    stock: Seq<OrderEntity<Order>>,
    side: Side,
    threshold: u64,
) -> Option<Order>
    decreases stock.len(),
{
    if stock.len() == 0 {
        None
    } else {
        let rest = spec_best_reference(stock.drop_last(), side, threshold);
        let o = stock.last().order;
        if o.amount <= threshold {
            rest
        } else {
            match rest {
                None => Some(o),
                Some(b) => match side {
                    Side::Buy => if o.price < b.price {
                        Some(o)
                    } else {
                        Some(b)
                    },
                    Side::Sell => if o.price >= b.price {
                        Some(o)
                    } else {
                        Some(b)
                    },
                },
            }
        }
    }
}

/// A chosen reference order comes from the stock it was chosen from.
pub proof fn lemma_best_reference_member(stock: Seq<OrderEntity<Order>>, side: Side, threshold: u64)
    ensures
        spec_best_reference(stock, side, threshold) matches Some(b) ==> exists|j: int|
            0 <= j < stock.len() && stock[j].order == b,
    decreases stock.len(),
{
    if stock.len() > 0 {
        lemma_best_reference_member(stock.drop_last(), side, threshold);
        match spec_best_reference(stock, side, threshold) {
            None => {},
            Some(b) => {
                match spec_best_reference(stock.drop_last(), side, threshold) {
                    Some(r) => {
                        if r == b {
                            let j = choose|j: int|
                                0 <= j < stock.drop_last().len() && stock.drop_last()[j].order
                                    == r;
                            assert(stock[j].order == b);
                        } else {
                            assert(stock[stock.len() - 1].order == b);
                        }
                    },
                    None => {
                        assert(stock[stock.len() - 1].order == b);
                    },
                }
            },
        }
    }
}

/// Keeps one resting limit order per venue per side quoted near the live
/// market price, and detects fills against the previously known quote set.
pub struct LimitMaster {
    pub coins: Coins,
    pub my_orders_last_state: OrdersStorage<OrderWithId>,
    pub price_calculator: PriceCalculator,
    pub amount_calculator: AmountCalculator,
}

impl LimitMaster {
    pub open spec fn wf(self) -> bool {
        &&& self.price_calculator.valid()
        &&& self.amount_calculator.valid()
    }

    pub fn new(
        coins: Coins,
        price_calculator: PriceCalculator,
        amount_calculator: AmountCalculator,
    ) -> (r: LimitMaster)
        requires
            price_calculator.valid(),
            amount_calculator.valid(),
        ensures
            r.wf(),
            r.coins == coins,
            r.price_calculator == price_calculator,
            r.amount_calculator == amount_calculator,
            r.my_orders_last_state.coins == coins,
            r.my_orders_last_state.sell_stock@.len() == 0,
            r.my_orders_last_state.buy_stock@.len() == 0,
    {
        LimitMaster {
            coins,
            price_calculator,
            amount_calculator,
            my_orders_last_state: OrdersStorage::new(coins),
        }
    }

    /// Diffs every tracked resting order against the venues' current resting
    /// orders: an order that vanished fills for its whole remaining amount
    /// and leaves tracking; one that shrank fills for the difference and is
    /// tracked at the smaller amount; one unchanged or larger fills nothing.
    /// Returns all detected fills, buy stock first.
    pub fn check_current_orders(&mut self, my_current_orders: &OrdersStorage<OrderWithId>) -> (r:
        Vec<Trade>)
        ensures
            final(self).my_orders_last_state.buy_stock@ == spec_diff_tracked(
                old(self).my_orders_last_state.buy_stock@,
                my_current_orders.buy_stock@,
            ),
            final(self).my_orders_last_state.sell_stock@ == spec_diff_tracked(
                old(self).my_orders_last_state.sell_stock@,
                my_current_orders.sell_stock@,
            ),
            r@ == spec_diff_trades(
                old(self).my_orders_last_state.buy_stock@,
                my_current_orders.buy_stock@,
            ) + spec_diff_trades(
                old(self).my_orders_last_state.sell_stock@,
                my_current_orders.sell_stock@,
            ),
            final(self).coins == old(self).coins,
            final(self).price_calculator == old(self).price_calculator,
            final(self).amount_calculator == old(self).amount_calculator,
            final(self).my_orders_last_state.coins == old(self).my_orders_last_state.coins,
    {
        let mut trades: Vec<Trade> = Vec::new();
        let new_buy = diff_stock(
            &self.my_orders_last_state.buy_stock,
            &my_current_orders.buy_stock,
            &mut trades,
        );
        self.my_orders_last_state.buy_stock = new_buy;
        let new_sell = diff_stock(
            &self.my_orders_last_state.sell_stock,
            &my_current_orders.sell_stock,
            &mut trades,
        );
        self.my_orders_last_state.sell_stock = new_sell;
        proof {
            assert(trades@ =~= spec_diff_trades(
                old(self).my_orders_last_state.buy_stock@,
                my_current_orders.buy_stock@,
            ) + spec_diff_trades(
                old(self).my_orders_last_state.sell_stock@,
                my_current_orders.sell_stock@,
            ));
        }
        trades
    }

    /// Opens a cancel-and-replace cycle: the caller cancels every resting
    /// order it holds on every venue, and the tracked state is cleared so
    /// that only this cycle's confirmed placements are tracked afterwards.
    pub fn begin_update(&mut self)
        ensures
            final(self).coins == old(self).coins,
            final(self).price_calculator == old(self).price_calculator,
            final(self).amount_calculator == old(self).amount_calculator,
            final(self).my_orders_last_state.coins == old(self).my_orders_last_state.coins,
            final(self).my_orders_last_state.sell_stock@.len() == 0,
            final(self).my_orders_last_state.buy_stock@.len() == 0,
    {
        self.my_orders_last_state.clear();
    }

    /// Chooses this side's quote from the cross-venue market snapshot. The
    /// reference is the best dust-qualifying market order on the crossed
    /// direction; the quote price offsets it by the configured margin, below
    /// it for a buy-side quote and above it for a sell-side quote. The
    /// returned order carries the quote price and the reference order's
    /// amount, from which each venue's own quote is then sized. `None` means
    /// no market order qualifies and this side places no quotes.
    #[verifier::loop_isolation(false)]
    pub fn plan_limit_order(&self, side: Side, market: &OrdersStorage<Order>) -> (r: Option<Order>)
        requires
            self.wf(),
            side is Sell ==> forall|j: int|
                0 <= j < market.spec_stock(Target::Market, Side::Sell).len()
                    ==> self.price_calculator.spec_high(
                    market.spec_stock(Target::Market, Side::Sell)[j].order.price as int,
                ) <= u64::MAX,
        ensures
            ({
                let stock = market.spec_stock(Target::Market, side);
                match spec_best_reference(
                    stock,
                    side,
                    self.amount_calculator.min_amount_threshold,
                ) {
                    None => r is None,
                    Some(b) => r == Some(
                        Order {
                            trading_pair: TradingPair {
                                coins: self.coins,
                                side,
                                target: Target::Limit,
                            },
                            price: (match side {
                                Side::Buy => self.price_calculator.spec_low(b.price as int),
                                Side::Sell => self.price_calculator.spec_high(b.price as int),
                            }) as u64,
                            amount: b.amount,
                        },
                    ),
                }
            }),
    {
        let stock = market.get_stock(Target::Market, side);
        let threshold = self.amount_calculator.min_amount_threshold;
        let mut best: Option<Order> = None;
        let mut i: usize = 0;
        while i < stock.len()
            invariant
                i <= stock.len(),
                best == spec_best_reference(stock@.take(i as int), side, threshold),
            decreases stock.len() - i,
        {
            proof {
                assert(stock@.take(i + 1 as int).drop_last() =~= stock@.take(i as int));
                assert(stock@.take(i + 1 as int).last() == stock@[i as int]);
            }
            let o = stock[i].order;
            if o.amount > threshold {
                best = match best {
                    None => Some(o),
                    Some(b) => match side {
                        Side::Buy => if o.price < b.price {
                            Some(o)
                        } else {
                            Some(b)
                        },
                        Side::Sell => if o.price >= b.price {
                            Some(o)
                        } else {
                            Some(b)
                        },
                    },
                };
            }
            i += 1;
        }
        proof {
            assert(stock@.take(stock@.len() as int) =~= stock@);
        }
        match best {
            None => None,
            Some(b) => {
                proof {
                    lemma_best_reference_member(stock@, side, threshold);
                }
                let price = match side {
                    Side::Buy => self.price_calculator.low(b.price),
                    Side::Sell => self.price_calculator.high(b.price),
                };
                Some(
                    Order {
                        trading_pair: TradingPair {
                            coins: self.coins,
                            side,
                            target: Target::Limit,
                        },
                        price,
                        amount: b.amount,
                    },
                )
            },
        }
    }

    /// The orders to place on a row of venues, given their balances: each
    /// venue's quote carries the planned price and is sized by that venue's
    /// fee-adjusted balance. The first venue without a viable amount stops
    /// the whole side: no later venue is quoted, however well funded.
    pub open spec fn spec_venue_quotes(self, planned: Order, balances: Seq<u64>) -> Seq<Order>
        decreases balances.len(),
    {
        if balances.len() == 0 {
            Seq::empty()
        } else {
            match self.amount_calculator.spec_one_leg(
                planned.amount as int,
                Balance { amount: balances[0], fee: self.amount_calculator.fee },
            ) {
                None => Seq::empty(),
                Some(a) => seq![
                    Order {
                        trading_pair: planned.trading_pair,
                        price: planned.price,
                        amount: a.spec_value(),
                    },
                ] + self.spec_venue_quotes(planned, balances.drop_first()),
            }
        }
    }

    /// Sizes one side's quotes for a row of venues from the planned
    /// reference order and the venues' balances, with the strict early
    /// abort: the result covers a prefix of the venues, one order each.
    #[verifier::loop_isolation(false)]
    pub fn plan_venue_quotes(&self, planned: &Order, balances: &Vec<u64>) -> (r: Vec<Order>)
        requires
            self.wf(),
        ensures
            r@ == self.spec_venue_quotes(*planned, balances@),
            r@.len() <= balances@.len(),
    {
        let mut result: Vec<Order> = Vec::new();
        let mut i: usize = 0;
        proof {
            assert(balances@.skip(0) =~= balances@);
        }
        while i < balances.len()
            invariant
                i <= balances.len(),
                result@.len() == i,
                self.spec_venue_quotes(*planned, balances@) == result@ + self.spec_venue_quotes(
                    *planned,
                    balances@.skip(i as int),
                ),
            decreases balances.len() - i,
        {
            proof {
                assert(balances@.skip(i as int)[0] == balances@[i as int]);
                assert(balances@.skip(i as int).drop_first() =~= balances@.skip(i + 1 as int));
            }
            let amount = match self.size_limit_order(planned.amount, balances[i]) {
                Some(amount) => amount,
                None => {
                    proof {
                        assert(self.spec_venue_quotes(*planned, balances@) =~= result@);
                    }
                    return result;
                },
            };
            result.push(
                Order {
                    trading_pair: planned.trading_pair,
                    price: planned.price,
                    amount,
                },
            );
            proof {
                assert(self.spec_venue_quotes(*planned, balances@) =~= result@
                    + self.spec_venue_quotes(*planned, balances@.skip(i + 1 as int)));
            }
            i += 1;
        }
        proof {
            assert(balances@.skip(balances@.len() as int) =~= Seq::<u64>::empty());
            assert(self.spec_venue_quotes(*planned, balances@) =~= result@);
        }
        result
    }

    /// Sizes one venue's quote from the reference order's amount and that
    /// venue's free balance. `None` means the venue cannot fund a viable
    /// quote, upon which the caller stops quoting this side on the remaining
    /// venues (strict early abort).
    pub fn size_limit_order(&self, reference_amount: u64, balance_amount: u64) -> (r: Option<u64>)
        requires
            self.wf(),
        ensures
            ({
                let sized = self.amount_calculator.spec_one_leg(
                    reference_amount as int,
                    Balance { amount: balance_amount, fee: self.amount_calculator.fee },
                );
                match sized {
                    None => r is None,
                    Some(a) => r == Some(a.spec_value()),
                }
            }),
    {
        let balance = Balance { amount: balance_amount, fee: self.amount_calculator.fee };
        match self.amount_calculator.evaluate(reference_amount, &balance) {
            Some(a) => Some(a.value()),
            None => None,
        }
    }

    /// Records one confirmed placement of this cycle. A quote placed on one
    /// side is tracked under the opposite stock slot, mirroring the cross
    /// mapping used when the market reference was looked up.
    pub fn record_placed(&mut self, side: Side, entity: OrderEntity<OrderWithId>)
        ensures
            final(self).coins == old(self).coins,
            final(self).price_calculator == old(self).price_calculator,
            final(self).amount_calculator == old(self).amount_calculator,
            final(self).my_orders_last_state.coins == old(self).my_orders_last_state.coins,
            side is Buy ==> final(self).my_orders_last_state.sell_stock@
                == old(self).my_orders_last_state.sell_stock@.push(entity)
                && final(self).my_orders_last_state.buy_stock
                == old(self).my_orders_last_state.buy_stock,
            side is Sell ==> final(self).my_orders_last_state.buy_stock@
                == old(self).my_orders_last_state.buy_stock@.push(entity)
                && final(self).my_orders_last_state.sell_stock
                == old(self).my_orders_last_state.sell_stock,
    {
        match side {
            Side::Buy => self.my_orders_last_state.sell_stock.push(entity),
            Side::Sell => self.my_orders_last_state.buy_stock.push(entity),
        }
    }
}

} // verus!
