use gridbot::api_jupiter::{Quote, SwapLeg};
use gridbot::engine::{
    wants_priority_fee, CoinAction, CoinCycle, CoinError, CoinEvent, CoinPhase, RunAction,
    RunState,
};
use gridbot::json_config::{AppStateType, BotGridConfigType, BuyOrSell, StrategyType};
use gridbot::ratio::Ratio;
use gridbot::trade::{apply_successful_trade, can_settle, settle_failed_trade};

const USDC: &str = "EPjFWdd5AufqSSqeM2qN1xzybapC8G4wEGGkZwyTDt1v";

fn entry(side: BuyOrSell) -> BotGridConfigType {
    BotGridConfigType {
        is_valid: Some(true),
        name: "usdc".to_string(),
        decimals: Some(6),
        token_amount: Some(1_000_000),
        sol_amount: Some(2_000_000_000),
        contract_address: USDC.to_string(),
        strategy: StrategyType::Grid,
        buy_or_sell: side,
        range: Ratio { negative: false, num: 10, den: 100 },
        state: None,
    }
}

fn quote(in_amount: u64, out_amount: u64) -> Quote {
    Quote {
        in_amount,
        out_amount,
        slippage_bps: 100,
        price_impact_pct: "0".to_string(),
        route_plan: vec![SwapLeg { in_amount, out_amount: out_amount + 1, fee_amount: 10 }],
    }
}

fn step(cycle: &mut CoinCycle, c: &mut BotGridConfigType, e: CoinEvent) -> CoinAction {
    assert!(cycle.can_take(c, &e));
    cycle.step(c, e).action
}

#[test]
fn successful_buy_turns_the_entry_to_selling() {
    let mut c = entry(BuyOrSell::Buy);
    c.state = Some(AppStateType {
        lowest: Ratio { negative: false, num: 1, den: 1 },
        highest: Ratio { negative: false, num: 1, den: 1 },
        current_price: Ratio { negative: false, num: 1, den: 1 },
        nb_output_if_i_sell: Ratio { negative: false, num: 1, den: 1 },
    });
    apply_successful_trade(&mut c, &quote(2_000_000_000, 777));
    assert_eq!(c.buy_or_sell, BuyOrSell::Sell);
    assert_eq!(c.sol_amount, Some(0));
    assert_eq!(c.token_amount, Some(777));
    assert_eq!(c.state, None);
}

#[test]
fn successful_sale_keeps_back_the_fee_reserve() {
    let mut c = entry(BuyOrSell::Sell);
    apply_successful_trade(&mut c, &quote(1_000_000, 3_000_000));
    assert_eq!(c.buy_or_sell, BuyOrSell::Buy);
    assert_eq!(c.sol_amount, Some(3_000_000 - 105_000));
    assert_eq!(c.token_amount, Some(0));
}

#[test]
fn failed_buy_without_tokens_keeps_buying_with_less_sol() {
    let mut c = entry(BuyOrSell::Buy);
    c.token_amount = Some(0);
    let q = quote(2_000_000_000, 5);
    assert!(can_settle(&c, &q));
    settle_failed_trade(&mut c, &q);
    assert_eq!(c.buy_or_sell, BuyOrSell::Buy);
    assert_eq!(c.sol_amount, Some(2_000_000_000 - 155_000));
}

#[test]
fn failed_buy_with_tokens_is_taken_as_done() {
    let mut c = entry(BuyOrSell::Buy);
    settle_failed_trade(&mut c, &quote(2_000_000_000, 5));
    assert_eq!(c.buy_or_sell, BuyOrSell::Sell);
    assert_eq!(c.sol_amount, Some(0));
    assert_eq!(c.token_amount, Some(1_000_000));
}

#[test]
fn failed_sale_settles_only_when_nothing_is_held() {
    let mut c = entry(BuyOrSell::Sell);
    let before = c.clone();
    settle_failed_trade(&mut c, &quote(1_000_000, 3_000_000));
    assert_eq!(c, before);
    c.token_amount = None;
    c.sol_amount = Some(0);
    settle_failed_trade(&mut c, &quote(1_000_000, 3_000_000));
    assert_eq!(c.buy_or_sell, BuyOrSell::Buy);
    assert_eq!(c.sol_amount, Some(3_000_001 - 105_000));
}

#[test]
fn settlement_that_would_underflow_is_refused() {
    let mut c = entry(BuyOrSell::Buy);
    c.token_amount = None;
    assert!(!can_settle(&c, &quote(100, 5)));
    let mut s = entry(BuyOrSell::Sell);
    s.token_amount = Some(0);
    s.sol_amount = None;
    let mut q = quote(1, 2);
    q.route_plan.clear();
    assert!(!can_settle(&s, &q));
}

#[test]
fn priority_fee_on_sales_and_retries() {
    assert!(!wants_priority_fee(BuyOrSell::Buy, 0));
    assert!(wants_priority_fee(BuyOrSell::Buy, 1));
    assert!(wants_priority_fee(BuyOrSell::Sell, 0));
}

#[test]
fn cycle_without_signal_ends_untraded_and_records_the_price() {
    let mut c = entry(BuyOrSell::Sell);
    let (mut cycle, first) = CoinCycle::start(&c);
    assert_eq!(first, CoinAction::FetchQuote { delay_ms: 0 });
    let s = cycle.step(&mut c, CoinEvent::QuoteReceived(quote(100, 50)));
    assert_eq!(s.action, CoinAction::Finish(Ok(false)));
    assert_eq!(s.record_price, Some(Ratio { negative: false, num: 50, den: 100 }));
    assert_eq!(cycle.phase, CoinPhase::Done);
}

#[test]
fn cycle_without_payload_ends_at_once() {
    let mut c = entry(BuyOrSell::Sell);
    c.token_amount = None;
    let (cycle, first) = CoinCycle::start(&c);
    assert_eq!(
        first,
        CoinAction::Finish(Err(CoinError::Payload(
            gridbot::api_jupiter::PayloadError::MissingTokenAmount
        )))
    );
    assert_eq!(cycle.phase, CoinPhase::Done);
}

#[test]
fn first_quote_failure_ends_the_cycle() {
    let mut c = entry(BuyOrSell::Sell);
    let (mut cycle, _) = CoinCycle::start(&c);
    assert_eq!(
        step(&mut cycle, &mut c, CoinEvent::QuoteFailed),
        CoinAction::Finish(Err(CoinError::QuoteFailed))
    );
}

/// Brings a selling entry to the point where its trade is sent.
fn to_trading(c: &mut BotGridConfigType) -> CoinCycle {
    c.state = Some(AppStateType {
        lowest: Ratio { negative: false, num: 1, den: 1 },
        highest: Ratio { negative: false, num: 1, den: 1 },
        current_price: Ratio { negative: false, num: 1, den: 1 },
        nb_output_if_i_sell: Ratio { negative: false, num: 1, den: 1 },
    });
    let (mut cycle, _) = CoinCycle::start(c);
    // 0.5 is below 1 * 0.9: a sale is due
    let s = cycle.step(c, CoinEvent::QuoteReceived(quote(1_000_000, 500_000)));
    assert_eq!(s.action, CoinAction::FetchQuote { delay_ms: 2000 });
    assert_eq!(s.record_price, Some(Ratio { negative: false, num: 500_000, den: 1_000_000 }));
    assert_eq!(step(&mut cycle, c, CoinEvent::QuoteFailed), CoinAction::FetchQuote { delay_ms: 2000 });
    assert_eq!(
        step(&mut cycle, c, CoinEvent::QuoteReceived(quote(1_000_000, 400_000))),
        CoinAction::Trade { attempt: 0, priority_fee: true }
    );
    cycle
}

#[test]
fn confirmed_signal_trades_and_books_the_sale() {
    let mut c = entry(BuyOrSell::Sell);
    let mut cycle = to_trading(&mut c);
    assert_eq!(step(&mut cycle, &mut c, CoinEvent::TradeSucceeded), CoinAction::Finish(Ok(true)));
    assert_eq!(c.buy_or_sell, BuyOrSell::Buy);
    assert_eq!(c.sol_amount, Some(400_000 - 105_000));
    assert_eq!(c.token_amount, Some(0));
    assert_eq!(c.state, None);
}

#[test]
fn unconfirmed_signal_does_not_trade() {
    let mut c = entry(BuyOrSell::Sell);
    c.state = Some(AppStateType {
        lowest: Ratio { negative: false, num: 1, den: 1 },
        highest: Ratio { negative: false, num: 1, den: 1 },
        current_price: Ratio { negative: false, num: 1, den: 1 },
        nb_output_if_i_sell: Ratio { negative: false, num: 1, den: 1 },
    });
    let (mut cycle, _) = CoinCycle::start(&c);
    step(&mut cycle, &mut c, CoinEvent::QuoteReceived(quote(1_000_000, 500_000)));
    // the highest price is still 1 and 0.95 is not below 0.9
    assert_eq!(
        step(&mut cycle, &mut c, CoinEvent::QuoteReceived(quote(1_000_000, 950_000))),
        CoinAction::Finish(Ok(false))
    );
    assert_eq!(c.buy_or_sell, BuyOrSell::Sell);
}

#[test]
fn five_failed_trades_lead_to_settlement() {
    let mut c = entry(BuyOrSell::Sell);
    let mut cycle = to_trading(&mut c);
    for attempt in 1..5u8 {
        assert_eq!(
            step(&mut cycle, &mut c, CoinEvent::TradeFailed),
            CoinAction::FetchQuote { delay_ms: 0 }
        );
        assert_eq!(
            step(&mut cycle, &mut c, CoinEvent::QuoteReceived(quote(1_000_000, 400_000))),
            CoinAction::Trade { attempt, priority_fee: true }
        );
    }
    assert_eq!(step(&mut cycle, &mut c, CoinEvent::TradeFailed), CoinAction::RefreshBalances);
    assert!(!cycle.can_take(&c, &CoinEvent::TradeFailed));
    // the balances now show no tokens and no SOL for this entry
    c.token_amount = Some(0);
    c.sol_amount = None;
    assert_eq!(
        step(&mut cycle, &mut c, CoinEvent::BalancesRefreshed),
        CoinAction::Finish(Err(CoinError::TradeFailed))
    );
    assert_eq!(c.buy_or_sell, BuyOrSell::Buy);
    assert_eq!(c.sol_amount, Some(400_001 - 105_000));
}

#[test]
fn failing_quotes_exhaust_the_attempts() {
    let mut c = entry(BuyOrSell::Sell);
    let mut cycle = to_trading(&mut c);
    assert_eq!(step(&mut cycle, &mut c, CoinEvent::TradeFailed), CoinAction::FetchQuote { delay_ms: 0 });
    for _ in 0..4 {
        assert_eq!(
            step(&mut cycle, &mut c, CoinEvent::QuoteFailed),
            CoinAction::FetchQuote { delay_ms: 500 }
        );
    }
    assert_eq!(cycle.phase, CoinPhase::GivingUp);
    assert_eq!(
        step(&mut cycle, &mut c, CoinEvent::QuoteReceived(quote(1, 1))),
        CoinAction::Finish(Err(CoinError::AttemptsExhausted))
    );
    assert_eq!(c.buy_or_sell, BuyOrSell::Sell);
}

#[test]
fn run_visits_every_entry_then_ends_the_pass() {
    let mut run = RunState::new();
    let bought = {
        let mut c = entry(BuyOrSell::Sell);
        c.is_valid = Some(true);
        c
    };
    assert_eq!(run.next_action(2), RunAction::ProcessCoin(0));
    run.coin_finished(&bought, &Err(CoinError::QuoteFailed));
    assert_eq!(run.next_action(2), RunAction::ProcessCoin(1));
    run.coin_finished(&bought, &Ok(true));
    assert_eq!(run.next_action(2), RunAction::EndPass { refresh_balances: true });
    run.pass_finished();
    assert_eq!(run.next_action(2), RunAction::ProcessCoin(0));
    run.coin_finished(&entry(BuyOrSell::Buy), &Ok(true));
    run.coin_finished(&bought, &Ok(false));
    assert_eq!(run.next_action(2), RunAction::EndPass { refresh_balances: false });
}
