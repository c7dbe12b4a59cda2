use gridbot::api_jupiter::{
    prepare_quote_payload, quote_price, AddressError, CreateQuote, PayloadError, Quote, SwapLeg,
    NATIVE_MINT, USDC_MINT,
};
use gridbot::grid::{buy_condition, grid_function, sell_condition};
use gridbot::json_config::{AppStateType, BotGridConfigType, BuyOrSell, StrategyType};
use gridbot::ratio::Ratio;
use std::str::FromStr;

const USDC: &str = "EPjFWdd5AufqSSqeM2qN1xzybapC8G4wEGGkZwyTDt1v";

fn entry(name: &str, side: BuyOrSell, range: Ratio) -> BotGridConfigType {
    BotGridConfigType {
        is_valid: Some(true),
        name: name.to_string(),
        decimals: Some(6),
        token_amount: Some(1_000_000),
        sol_amount: Some(2_000_000_000),
        contract_address: USDC.to_string(),
        strategy: StrategyType::Grid,
        buy_or_sell: side,
        range,
        state: None,
    }
}

fn quote(in_amount: u64, out_amount: u64) -> Quote {
    Quote {
        in_amount,
        out_amount,
        slippage_bps: 100,
        price_impact_pct: "0".to_string(),
        route_plan: vec![SwapLeg { in_amount, out_amount, fee_amount: 10 }],
    }
}

fn r(num: u64, den: u64) -> Ratio {
    Ratio { negative: false, num, den }
}

fn state(lowest: Ratio, highest: Ratio, current: Ratio) -> AppStateType {
    AppStateType { lowest, highest, current_price: current, nb_output_if_i_sell: current }
}

#[test]
fn mint_constants_are_the_decoded_addresses() {
    let native = solana_program::pubkey::Pubkey::from_str(
        "So11111111111111111111111111111111111111112",
    )
    .unwrap();
    assert_eq!(NATIVE_MINT, native.to_bytes());
    let usdc = solana_program::pubkey::Pubkey::from_str(USDC).unwrap();
    assert_eq!(USDC_MINT, usdc.to_bytes());
}

#[test]
fn buy_payload_spends_sol_on_the_token() {
    let c = entry("usdc", BuyOrSell::Buy, r(5, 100));
    let p = prepare_quote_payload(&c).unwrap();
    assert_eq!(
        p,
        CreateQuote {
            amount: 2_000_000_000,
            input_address: NATIVE_MINT,
            output_address: USDC_MINT,
            slippage_bps: 100,
        }
    );
}

#[test]
fn sell_payload_sells_the_token_for_sol() {
    let c = entry("usdc", BuyOrSell::Sell, r(5, 100));
    let p = prepare_quote_payload(&c).unwrap();
    assert_eq!(p.amount, 1_000_000);
    assert_eq!(p.input_address, USDC_MINT);
    assert_eq!(p.output_address, NATIVE_MINT);
    assert_eq!(p.slippage_bps, 100);
}

#[test]
fn payload_reports_a_missing_amount_before_a_bad_address() {
    let mut c = entry("usdc", BuyOrSell::Buy, r(5, 100));
    c.sol_amount = None;
    c.contract_address = "not an address".to_string();
    assert_eq!(prepare_quote_payload(&c), Err(PayloadError::MissingSolAmount));
    let mut s = entry("usdc", BuyOrSell::Sell, r(5, 100));
    s.token_amount = None;
    assert_eq!(prepare_quote_payload(&s), Err(PayloadError::MissingTokenAmount));
}

#[test]
fn payload_refuses_addresses_that_do_not_decode() {
    let mut c = entry("usdc", BuyOrSell::Buy, r(5, 100));
    c.contract_address = "0OIl".to_string();
    assert_eq!(
        prepare_quote_payload(&c),
        Err(PayloadError::InvalidContractAddress(AddressError::Invalid))
    );
    c.contract_address = "1".repeat(45);
    assert_eq!(
        prepare_quote_payload(&c),
        Err(PayloadError::InvalidContractAddress(AddressError::WrongSize))
    );
}

#[test]
fn quote_price_is_sol_per_token_on_both_sides() {
    // selling 4 tokens for 10 lamports: 10/4
    assert_eq!(quote_price(&quote(4, 10), BuyOrSell::Sell), Some(r(10, 4)));
    // buying 4 tokens with 10 lamports: 10/4
    assert_eq!(quote_price(&quote(10, 4), BuyOrSell::Buy), Some(r(10, 4)));
    assert_eq!(quote_price(&quote(0, 4), BuyOrSell::Buy), None);
    assert_eq!(quote_price(&quote(4, 0), BuyOrSell::Sell), None);
}

#[test]
fn first_quote_sets_every_remembered_price() {
    let mut c = entry("usdc", BuyOrSell::Sell, r(5, 100));
    let signal = grid_function(&quote(100, 50), &mut c);
    assert!(!signal);
    assert_eq!(c.state, Some(state(r(50, 100), r(50, 100), r(50, 100))));
}

#[test]
fn quote_without_price_changes_nothing() {
    let mut c = entry("usdc", BuyOrSell::Sell, r(5, 100));
    c.state = Some(state(r(1, 1), r(2, 1), r(3, 2)));
    let before = c.clone();
    assert!(!grid_function(&quote(0, 50), &mut c));
    assert_eq!(c, before);
}

#[test]
fn quotes_widen_the_extremes() {
    let mut c = entry("usdc", BuyOrSell::Sell, r(50, 100));
    c.state = Some(state(r(1, 1), r(2, 1), r(3, 2)));
    grid_function(&quote(1, 3), &mut c);
    assert_eq!(c.state, Some(state(r(1, 1), r(3, 1), r(3, 1))));
    grid_function(&quote(2, 1), &mut c);
    assert_eq!(c.state, Some(state(r(1, 2), r(3, 1), r(1, 2))));
    // a price equal in value to the lowest keeps the lowest as written
    grid_function(&quote(4, 2), &mut c);
    assert_eq!(c.state, Some(state(r(1, 2), r(3, 1), r(2, 4))));
}

#[test]
fn sale_is_due_after_a_fall_beyond_the_range() {
    let mut c = entry("usdc", BuyOrSell::Sell, r(10, 100));
    assert!(!grid_function(&quote(100, 100), &mut c)); // price 1
    assert!(!grid_function(&quote(100, 90), &mut c)); // 0.9 is not below 1 * 0.9
    assert!(grid_function(&quote(100, 89), &mut c)); // 0.89 is
}

#[test]
fn buy_is_due_after_a_rise_beyond_the_range() {
    let mut c = entry("usdc", BuyOrSell::Buy, r(10, 100));
    // buying: price is what is paid over what is received
    assert!(!grid_function(&quote(100, 100), &mut c)); // price 1
    assert!(!grid_function(&quote(110, 100), &mut c)); // 1.1 is not above 1 * 1.1
    assert!(grid_function(&quote(111, 100), &mut c)); // 1.11 is
}

#[test]
fn invalid_entries_never_trade() {
    let mut c = entry("usdc", BuyOrSell::Sell, r(10, 100));
    c.is_valid = None;
    c.state = Some(state(r(1, 1), r(1, 1), r(1, 1)));
    assert!(!grid_function(&quote(100, 10), &mut c));
    c.is_valid = Some(false);
    assert!(!grid_function(&quote(100, 5), &mut c));
    assert!(sell_condition(&c));
}

#[test]
fn named_entries_follow_their_own_rules() {
    let mut happy = entry("sol-happy", BuyOrSell::Buy, r(1, 100));
    happy.state = Some(state(r(1, 1000), r(1, 1000), r(1, 1)));
    assert!(!buy_condition(&happy));
    let mut hammi = entry("sol-hammi", BuyOrSell::Buy, r(50, 100));
    hammi.state = happy.state;
    assert!(!buy_condition(&hammi));
    let mut other = entry("other", BuyOrSell::Buy, r(1, 100));
    other.state = happy.state;
    assert!(buy_condition(&other));

    // "sol-happy" sells as soon as its highest price passes 0.025
    happy.state = Some(state(r(26, 1000), r(26, 1000), r(26, 1000)));
    assert!(sell_condition(&happy));
    happy.state = Some(state(r(25, 1000), r(25, 1000), r(25, 1000)));
    assert!(!sell_condition(&happy));

    // "sol-hammi" past 0.00282 sells on a 5% fall ...
    hammi.state = Some(state(r(1, 1000), r(4, 1000), r(37, 10000)));
    assert!(sell_condition(&hammi));
    hammi.state = Some(state(r(1, 1000), r(4, 1000), r(39, 10000)));
    assert!(!sell_condition(&hammi));
    // ... or when the price drops below 0.00282
    hammi.state = Some(state(r(1, 1000), r(283, 100000), r(281, 100000)));
    assert!(sell_condition(&hammi));
    // and never before its highest price passed 0.00282, within its range
    hammi.state = Some(state(r(1, 1000), r(282, 100000), r(280, 100000)));
    assert!(!sell_condition(&hammi));
    // a fall of exactly 5% is not enough
    hammi.state = Some(state(r(1, 1000), r(4, 1000), r(38, 10000)));
    assert!(!sell_condition(&hammi));
}

#[test]
fn negative_range_buys_before_the_price_rises() {
    let mut c = entry("usdc", BuyOrSell::Buy, Ratio { negative: true, num: 10, den: 100 });
    // the first price sets the lowest to 1, and 1 is above 1 * (1 - 0.1)
    assert!(grid_function(&quote(100, 100), &mut c));
}

#[test]
fn negative_remembered_prices_are_kept_and_compared() {
    let mut c = entry("usdc", BuyOrSell::Sell, r(10, 100));
    let minus_one = Ratio { negative: true, num: 1, den: 1 };
    c.state = Some(state(minus_one, minus_one, minus_one));
    // price 0.5 is above the highest (-1): it becomes the highest, no sale
    assert!(!grid_function(&quote(100, 50), &mut c));
    assert_eq!(c.state, Some(state(minus_one, r(50, 100), r(50, 100))));
}
