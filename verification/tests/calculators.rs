use open_midas::calculators::amount_calculator::{Amount, AmountCalculator, Balance};
use open_midas::calculators::price_calculator::PriceCalculator;
use open_midas::calculators::ProfitCalculator;
use open_midas::numeric::SCALE;
use open_midas::order::Order;
use open_midas::trading_pair::{Coins, Side, Target, TradingPair};

fn default_trading_pair(side: Side) -> TradingPair {
    TradingPair { coins: Coins::TonUsdt, side, target: Target::Market }
}

/// `x` whole units in fixed point.
fn units(x: u64) -> u64 {
    x * SCALE
}

#[test]
fn prices() {
    let direct_pair = default_trading_pair(Side::Buy);
    let reversed_pair = direct_pair.clone().reversed_side();
    let mut direct_order =
        Order { trading_pair: direct_pair.clone(), amount: units(100), price: units(1) };
    let mut reversed_order =
        Order { trading_pair: reversed_pair.clone(), amount: units(110), price: units(2) };
    let amount_calculator = AmountCalculator::new(SCALE / 10, SCALE / 10).expect("Invalid fee");
    let calculated = amount_calculator.calculate(
        &direct_order,
        units(1000),
        &reversed_order,
        units(1000),
    );
    assert_eq!(calculated, Some((units(100), units(50))));
    {
        direct_order.price = units(2);
        reversed_order.price = units(1);
        let calculated = amount_calculator.calculate(
            &direct_order,
            units(1000),
            &reversed_order,
            units(1000),
        );
        assert_eq!(calculated, Some((units(50), units(100))));
        direct_order.price = units(1);
        reversed_order.price = units(2);
    }
}

#[test]
fn amount_calculator() {
    let direct_pair = default_trading_pair(Side::Buy);
    let mut direct_order =
        Order { trading_pair: direct_pair.clone(), amount: units(100), price: units(1) };
    let revesed_pair = direct_pair.clone().reversed_side();
    let mut revesed_order =
        Order { trading_pair: revesed_pair.clone(), amount: units(100), price: units(1) };
    let calculator = AmountCalculator::new(SCALE / 10, SCALE / 10).unwrap();
    let amount = calculator.calculate(&direct_order, units(100), &revesed_order, units(100));
    assert_eq!(amount, Some((units(90), units(90))));
    direct_order.amount = SCALE / 10;
    let amount = calculator.calculate(&direct_order, units(100), &revesed_order, units(100));
    assert_eq!(amount, None);
    direct_order.amount = units(100);
    revesed_order.amount = 0;
    let amount = calculator.calculate(&direct_order, units(100), &revesed_order, units(100));
    assert_eq!(amount, None);
    revesed_order.amount = units(100);
    let amount = calculator.calculate(&direct_order, units(10), &revesed_order, units(20));
    assert_eq!(amount, Some((units(9), units(9))));
}

#[test]
fn one_order_test() {
    let calculator = AmountCalculator::new(SCALE / 10, SCALE / 10).unwrap();
    let amount = calculator
        .calculate_from_one_order(units(100), Balance { amount: units(100), fee: calculator.fee });
    assert_eq!(amount, Some(Amount::BalanceBased(units(90))))
}

#[test]
fn invalid_fee_is_rejected() {
    assert!(AmountCalculator::new(units(1), SCALE).is_none());
    assert!(AmountCalculator::new(units(1), SCALE + 1).is_none());
    assert!(AmountCalculator::new(units(1), SCALE - 1).is_some());
}

#[test]
fn one_order_below_threshold() {
    let calculator = AmountCalculator::new(units(1), SCALE / 10).unwrap();
    // Order size binds but sits below the dust threshold.
    let amount = calculator
        .calculate_from_one_order(SCALE / 2, Balance { amount: units(100), fee: calculator.fee });
    assert_eq!(amount, None);
    // Balance binds but its fee-adjusted value sits below the threshold.
    let amount = calculator
        .calculate_from_one_order(units(100), Balance { amount: SCALE, fee: calculator.fee });
    assert_eq!(amount, None);
    // Order size binds and clears the threshold.
    let amount = calculator
        .calculate_from_one_order(units(2), Balance { amount: units(100), fee: calculator.fee });
    assert_eq!(amount, Some(Amount::PriceBased(units(2))));
}

#[test]
fn low() {
    let calculator = PriceCalculator { profit: SCALE / 10 };
    let price = units(100);
    let expected_price = units(90);
    assert_eq!(calculator.low(price), expected_price)
}

#[test]
fn high() {
    let calculator = PriceCalculator { profit: SCALE / 10 };
    let price = units(100);
    let expected_price = units(110);
    assert_eq!(calculator.high(price), expected_price)
}

#[test]
fn profit_calculator() {
    let direct_pair = default_trading_pair(Side::Buy);
    let mut direct_order =
        Order { trading_pair: direct_pair.clone(), amount: units(100), price: units(1) };
    let revesed_pair = direct_pair.clone().reversed_side();
    let mut revesed_order =
        Order { trading_pair: revesed_pair.clone(), amount: units(100), price: units(1) };
    let calculator = ProfitCalculator::default();
    let amount = calculator.calculate(&direct_order, &revesed_order);
    assert_eq!(amount, Some(0));
    revesed_order.price = units(2);
    let amount = calculator.calculate(&direct_order, &revesed_order);
    assert_eq!(amount, None);
    revesed_order.price = units(1);
    direct_order.price = units(2);
    let amount = calculator.calculate(&direct_order, &revesed_order);
    assert_eq!(amount, Some(SCALE / 2));
    direct_order.price = units(1);
}

#[test]
fn two_leg_notional_values_agree() {
    // With unequal prices the allocation equalizes the legs' notional value:
    // the cheaper leg takes the cap, the dearer leg takes it scaled down.
    let pair = default_trading_pair(Side::Buy);
    let direct = Order { trading_pair: pair.clone(), amount: units(100), price: units(3) };
    let reversed =
        Order { trading_pair: pair.reversed_side(), amount: units(100), price: units(2) };
    let calculator = AmountCalculator::new(0, 0).unwrap();
    let (direct_amount, reversed_amount) = calculator
        .calculate(&direct, units(60), &reversed, units(60))
        .expect("allocation expected");
    assert_eq!(reversed_amount, units(60));
    assert_eq!(direct_amount, units(40));
    assert_eq!(direct_amount * 3, reversed_amount * 2);
}
