use open_midas::filters::LowAmountFilter;
use open_midas::numeric::SCALE;
use open_midas::order::Order;
use open_midas::trading_pair::{Coins, Side, Target, TradingPair};

fn units(x: u64) -> u64 {
    x * SCALE
}

#[test]
fn low_amount_filter() {
    let pair = TradingPair { coins: Coins::TonUsdt, side: Side::Buy, target: Target::Limit };
    let orders = vec![
        Order { trading_pair: pair.clone(), price: units(1), amount: units(1) },
        Order { trading_pair: pair.clone(), price: units(1), amount: units(1) },
    ];
    let filter = LowAmountFilter { low_amount: units(100) };
    assert_eq!(0, filter.filter(orders).len())
}

#[test]
fn filter_keeps_order_and_drops_dust() {
    let pair = TradingPair { coins: Coins::TonUsdt, side: Side::Sell, target: Target::Market };
    let orders = vec![
        Order { trading_pair: pair.clone(), price: units(3), amount: units(5) },
        Order { trading_pair: pair.clone(), price: units(1), amount: units(1) },
        Order { trading_pair: pair.clone(), price: units(2), amount: units(4) },
    ];
    let filter = LowAmountFilter { low_amount: units(1) };
    let kept = filter.filter(orders);
    assert_eq!(kept.len(), 2);
    assert_eq!(kept[0].price, units(3));
    assert_eq!(kept[1].price, units(2));
    // An amount exactly at the threshold is dust too.
    let filter = LowAmountFilter { low_amount: units(5) };
    let orders = vec![Order { trading_pair: pair.clone(), price: units(3), amount: units(5) }];
    assert_eq!(filter.filter(orders).len(), 0);
}
