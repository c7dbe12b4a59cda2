//! What the token monitor knows of a coin and of its notifications, and the
//! trading strategies an operator can describe.
use vstd::prelude::*;
use crate::ratio::Ratio;

verus! {

/// How a trade's trigger is set.
#[derive(Clone, Copy, Debug, PartialEq, Eq, Structural)]
pub enum ConfigBuyOrSell {
    OrderBook,
    PercentageOf(PercentageOf),
    Grid(Ratio),
}

/// A move of `percentage` relative to the price `price_of`.
#[derive(Clone, Copy, Debug, PartialEq, Eq, Structural)]
pub struct PercentageOf {
    pub percentage: Ratio,
    /// The reference price; the actual price when unset.
    pub price_of: Ratio,
}

/// How much a trade moves.
#[derive(Clone, Copy, Debug, PartialEq, Eq, Structural)]
pub enum Amount {
    All,
    Amount(Ratio),
    Percentage(Ratio),
}

/// A sale strategy.
#[derive(Clone, Copy, Debug, PartialEq, Eq, Structural)]
pub struct Sell {
    config: ConfigBuyOrSell,
    amount: Amount,
    pub slippage: Ratio,
}

/// A buy strategy.
#[derive(Clone, Copy, Debug, PartialEq, Eq, Structural)]
pub struct Buy {
    pub config: ConfigBuyOrSell,
    pub amount: Amount,
    pub slippage: Ratio,
}

/// What a monitored coin is set to do.
#[derive(Clone, Copy, Debug, PartialEq, Eq, Structural)]
pub enum Strategy {
    Nothing,
    Sell(Sell),
    Buy(Buy),
}

/// A price observation kept in a coin's history, with the time it was made
/// (seconds and nanoseconds since the Unix epoch).
#[derive(Clone, Copy, Debug, PartialEq, Eq, Structural)]
pub struct CoinHistory {
    pub price: Ratio,
    pub price_sol: Ratio,
    pub time_secs: u64,
    pub time_nanos: u32,
}

/// A monitored coin.
#[derive(Clone, Debug, PartialEq, Eq)]
pub struct Coin {
    pub mint_address: String,
    pub mint_symbol: String,
    pub token_amount: u64,
    pub price: Ratio,
    pub price_sol: Ratio,
    pub history: Vec<CoinHistory>,
}

/// Where a coin's notifications go, and whether they are muted.
#[derive(Clone, Debug, PartialEq, Eq)]
pub struct DiscordSettings {
    pub chanel_id: String,
    pub muted: bool,
}

} // verus!
