//! A grid trading bot for Solana tokens: the configuration, the strategy's
//! decisions, the bookkeeping of trades and the bot's cycles, with the price
//! arithmetic done exactly on ratios.
pub mod wide;
pub mod ratio;
pub mod json_config;
pub mod api_jupiter;
pub mod grid;
pub mod trade;
pub mod engine;
pub mod types;
pub mod bot;
