use open_midas::bookkeeper::{Trade as LedgerTrade, TradingResult};
use open_midas::numeric::SCALE;
use open_midas::order::{OrderWithId, Trade, TradeResult};
use open_midas::trading_pair::{Coins, Side, Target, TradingPair};

fn units(x: u64) -> u64 {
    x * SCALE
}

fn ledger_trade(side: Side, amount: u64) -> LedgerTrade {
    LedgerTrade {
        id: 1,
        coins: Coins::TonUsdt,
        side,
        target: Target::Market,
        price: units(33),
        amount,
    }
}

#[test]
fn aggregate_sums_by_side() {
    let trades = vec![
        ledger_trade(Side::Sell, units(100)),
        ledger_trade(Side::Buy, units(40)),
        ledger_trade(Side::Sell, units(7)),
        ledger_trade(Side::Buy, units(2)),
    ];
    let result = TradingResult::aggregate(trades);
    assert_eq!(result.sold, units(107));
    assert_eq!(result.bought, units(42));
    let empty = TradingResult::aggregate(Vec::new());
    assert_eq!(empty.sold, 0);
    assert_eq!(empty.bought, 0);
}

#[test]
fn ledger_record_round_trip() {
    let market = Trade::Market(TradeResult {
        id: 1337,
        trading_pair: TradingPair {
            coins: Coins::TonUsdt,
            side: Side::Sell,
            target: Target::Market,
        },
        price: units(33),
        amount: units(100),
    });
    let flat = LedgerTrade::from(market.clone());
    assert_eq!(flat.id, 1337);
    assert_eq!(flat.side, Side::Sell);
    assert_eq!(flat.target, Target::Market);
    assert_eq!(Trade::from(flat), market);

    let limit = Trade::Limit(OrderWithId {
        id: 42,
        trading_pair: TradingPair {
            coins: Coins::TonUsdt,
            side: Side::Buy,
            target: Target::Limit,
        },
        price: units(2),
        amount: units(5),
    });
    let flat = LedgerTrade::from(limit.clone());
    assert_eq!(flat.target, Target::Limit);
    assert_eq!(Trade::from(flat), limit);
}

#[test]
fn pair_transforms() {
    let pair = TradingPair { coins: Coins::TonUsdt, side: Side::Buy, target: Target::Limit };
    let reversed = pair.clone().reversed_side();
    assert_eq!(reversed.side, Side::Sell);
    assert_eq!(reversed.coins, pair.coins);
    assert_eq!(reversed.target, pair.target);
    // Buying spends the quote currency; selling spends the base.
    assert_eq!(pair.coin_to_spend(), open_midas::trading_pair::Coin::Usdt);
    assert_eq!(reversed.coin_to_spend(), open_midas::trading_pair::Coin::Ton);
}
