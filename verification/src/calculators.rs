//! Pure calculators that turn order-book prices and account balances into
//! tradable prices and quantities.

pub mod amount_calculator;
pub mod price_calculator;
pub mod profit_calculator;

pub use amount_calculator::AmountCalculator;
pub use profit_calculator::ProfitCalculator;
