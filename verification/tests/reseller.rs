use open_midas::calculators::amount_calculator::AmountCalculator;
use open_midas::filters::LowAmountFilter;
use open_midas::numeric::SCALE;
use open_midas::order::{Order, Trade, TradeResult};
use open_midas::reseller::{
    convert_to_base_coin_amount, FindError, MarketSnapshot, Reseller, Storage,
};
use open_midas::trading_pair::{Coins, Side, Target, TradingPair};

fn units(x: u64) -> u64 {
    x * SCALE
}

fn default_reseller() -> Reseller {
    Reseller::new(
        Storage::new(),
        Storage::new(),
        LowAmountFilter { low_amount: SCALE / 10 },
        AmountCalculator { min_amount_threshold: SCALE / 10, fee: SCALE / 100 },
        SCALE / 100,
        false,
    )
}

fn market_trade(side: Side, id: u64, price: u64, amount: u64) -> Trade {
    Trade::Market(TradeResult {
        id,
        trading_pair: TradingPair { coins: Coins::TonUsdt, side, target: Target::Market },
        price,
        amount,
    })
}

/// Emulates one `iterate` pass over a single venue: buy-side inventory is
/// tried first, then sell-side; the venue confirms every submitted order in
/// full as an immediate market execution.
fn iterate_once(
    reseller: &mut Reseller,
    sell_book: &[Order],
    buy_book: &[Order],
    balance: u64,
) -> Result<Option<Trade>, FindError> {
    for side in [Side::Buy, Side::Sell] {
        let coins_list = match side {
            Side::Buy => reseller.buy_storage.coins_list(),
            Side::Sell => reseller.sell_storage.coins_list(),
        };
        // The counter-trade runs in the opposite direction, so the venue's
        // book for that direction is fetched.
        let book: &[Order] = match side {
            Side::Buy => sell_book,
            Side::Sell => buy_book,
        };
        for coins in coins_list {
            let snapshot = MarketSnapshot { orders: book.to_vec(), balance };
            match reseller.plan_market(side, coins, snapshot) {
                Ok(planned) => {
                    let trade = Trade::Market(TradeResult {
                        id: 1,
                        trading_pair: planned.order.trading_pair,
                        price: planned.order.price,
                        amount: planned.order.amount,
                    });
                    reseller.commit_market_trade(side, coins, planned.entry_index, trade.clone());
                    return Ok(Some(trade));
                }
                Err(FindError::NoProfit) => continue,
                Err(other) => return Err(other),
            }
        }
    }
    Ok(None)
}

#[test]
fn reseller_no_data_iteration() {
    let mut reseller = default_reseller();
    let result = iterate_once(&mut reseller, &[], &[], units(100));
    assert_eq!(result, Ok(None))
}

#[test]
fn reseller_with_good_orders() {
    let mut reseller = default_reseller();
    reseller.accept_trade(market_trade(Side::Buy, 1337, SCALE * 49 / 100, units(10)));
    let pair = TradingPair { coins: Coins::TonUsdt, side: Side::Sell, target: Target::Market };
    let sell_book =
        vec![Order { trading_pair: pair.clone(), price: units(1), amount: units(100) }];
    let buy_pair = pair.clone().reversed_side();
    let buy_book =
        vec![Order { trading_pair: buy_pair, price: SCALE / 2, amount: units(100) }];
    let result = iterate_once(&mut reseller, &sell_book, &buy_book, units(100));
    let trade = result.expect("iteration failed").expect("a trade was expected");
    // Held inventory bought at 0.49 sells against the venue's best
    // sell-direction quote at 1.0 for the full held amount.
    assert_eq!(trade.price(), units(1));
    assert_eq!(trade.amount(), units(10));
    let result = iterate_once(&mut reseller, &sell_book, &buy_book, units(100));
    assert_eq!(result, Ok(None));
}

#[test]
fn reseller_round_trip() {
    // Buy-side inventory: 120 units bought at price 10.
    let mut reseller = default_reseller();
    reseller.accept_trade(market_trade(Side::Buy, 7, units(10), units(120)));
    let sell_pair = TradingPair { coins: Coins::TonUsdt, side: Side::Sell, target: Target::Market };
    let sell_book =
        vec![Order { trading_pair: sell_pair.clone(), price: units(120), amount: units(100) }];
    let buy_book = vec![Order {
        trading_pair: sell_pair.reversed_side(),
        price: units(90),
        amount: units(100),
    }];
    // First pass: a sell trade at 120 for the venue's full 100.
    let trade = iterate_once(&mut reseller, &sell_book, &buy_book, units(1000))
        .expect("iteration failed")
        .expect("a trade was expected");
    assert_eq!(trade.trading_pair().side, Side::Sell);
    assert_eq!(trade.price(), units(120));
    assert_eq!(trade.amount(), units(100));
    // Second pass consumes the 20 remaining units.
    let trade = iterate_once(&mut reseller, &sell_book, &buy_book, units(1000))
        .expect("iteration failed")
        .expect("a trade was expected");
    assert_eq!(trade.price(), units(120));
    assert_eq!(trade.amount(), units(20));
    // The inventory is exhausted: nothing further matches.
    let result = iterate_once(&mut reseller, &sell_book, &buy_book, units(1000));
    assert_eq!(result, Ok(None));
}

#[test]
fn accept_trade_aggregates_per_price() {
    let mut reseller = default_reseller();
    reseller.accept_trade(market_trade(Side::Buy, 1, units(10), units(5)));
    reseller.accept_trade(market_trade(Side::Buy, 2, units(10), units(7)));
    reseller.accept_trade(market_trade(Side::Buy, 3, units(11), units(2)));
    reseller.accept_trade(market_trade(Side::Sell, 4, units(9), units(1)));
    let buy_items = &reseller.buy_storage.items;
    assert_eq!(buy_items.len(), 1);
    let (coins, entries) = &buy_items[0];
    assert_eq!(*coins, Coins::TonUsdt);
    assert_eq!(entries.len(), 2);
    assert_eq!(entries[0].price, units(10));
    assert_eq!(entries[0].amount, units(12));
    assert_eq!(entries[1].price, units(11));
    assert_eq!(entries[1].amount, units(2));
    let sell_items = &reseller.sell_storage.items;
    assert_eq!(sell_items.len(), 1);
    assert_eq!(sell_items[0].1.len(), 1);
    assert_eq!(sell_items[0].1[0].price, units(9));
}

#[test]
fn empty_stock_is_reported() {
    let mut reseller = default_reseller();
    reseller.accept_trade(market_trade(Side::Buy, 1, units(10), units(5)));
    // Only dust is on offer: the filtered book is empty.
    let pair = TradingPair { coins: Coins::TonUsdt, side: Side::Sell, target: Target::Market };
    let dust = vec![Order { trading_pair: pair, price: units(100), amount: SCALE / 100 }];
    let result = iterate_once(&mut reseller, &dust, &[], units(100));
    assert_eq!(result, Err(FindError::EmptyStock));
}

#[test]
fn unprofitable_inventory_stays() {
    let mut reseller = default_reseller();
    // Bought at 100; the venue's best counter-quote at 99 sells at a loss.
    reseller.accept_trade(market_trade(Side::Buy, 1, units(100), units(5)));
    let pair = TradingPair { coins: Coins::TonUsdt, side: Side::Sell, target: Target::Market };
    let sell_book = vec![Order { trading_pair: pair, price: units(99), amount: units(50) }];
    let result = iterate_once(&mut reseller, &sell_book, &[], units(100));
    assert_eq!(result, Ok(None));
    assert_eq!(reseller.buy_storage.items[0].1.len(), 1);
}

#[test]
fn sell_inventory_matches_buy_quotes() {
    // Sell-side inventory: 50 units sold at 100 await a cheaper buy-back.
    let mut reseller = default_reseller();
    reseller.accept_trade(market_trade(Side::Sell, 8, units(100), units(50)));
    let buy_pair = TradingPair { coins: Coins::TonUsdt, side: Side::Buy, target: Target::Market };
    let buy_book =
        vec![Order { trading_pair: buy_pair, price: units(90), amount: units(100) }];
    // The quote-coin balance of 900 converts to 10 base units at price 90,
    // and 9.9 remain after the 1% fee: the balance binds the buy-back.
    let trade = iterate_once(&mut reseller, &[], &buy_book, units(900))
        .expect("iteration failed")
        .expect("a trade was expected");
    assert_eq!(trade.trading_pair().side, Side::Buy);
    assert_eq!(trade.price(), units(90));
    assert_eq!(trade.amount(), 9_900_000);
    let entries = &reseller.sell_storage.items[0].1;
    assert_eq!(entries.len(), 1);
    assert_eq!(entries[0].amount, units(50) - 9_900_000);
}

#[test]
fn balance_conversion() {
    // Buying spends the quote coin: the balance is divided by the price.
    assert_eq!(convert_to_base_coin_amount(Side::Buy, units(2), units(100)), units(50));
    // Selling spends the base coin: the balance is already in base units.
    assert_eq!(convert_to_base_coin_amount(Side::Sell, units(2), units(100)), units(100));
}
