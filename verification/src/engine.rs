//! The bot's decisions, as state machines that the program around the library
//! drives: it performs each action they ask for (a quote, a trade, a balance
//! read, a wait) and hands back what came of it.
use vstd::prelude::*;
use crate::api_jupiter::{
    CreateQuote,
    PayloadError,
    Quote,
    payload_error,
    payload_for,
    prepare_quote_payload,
    quote_price_of,
};
use crate::grid::{after_quote, grid_function, priced_at, quote_signals};
use crate::json_config::{BotGridConfigType, BuyOrSell};
use crate::ratio::Ratio;
use crate::trade::{
    after_failure,
    after_success,
    apply_successful_trade,
    failure_bookable,
    settle_failed_trade,
    success_bookable,
};
use vstd::pervasive::{arbitrary, unreached};

verus! {

/// How many times a trade is tried before the bot gives up on it.
pub const MAX_TRADE_ATTEMPTS: u8 = 5;

/// Wait before the quote that confirms a signal, and between confirmation quotes, in ms.
pub const CONFIRM_DELAY_MS: u64 = 2000;

/// Wait after a failed trade before anything else, in ms.
pub const RETRY_AFTER_TRADE_DELAY_MS: u64 = 200;

/// Wait after a failed quote before quoting again while trading, in ms.
pub const RETRY_AFTER_QUOTE_DELAY_MS: u64 = 500;

/// Where an entry's cycle stands.
#[derive(Clone, Copy, Debug, PartialEq, Eq, Structural)]
pub enum CoinPhase {
    /// Waiting for the first quote of the cycle.
    AwaitingQuote,
    /// The first quote called for a trade; waiting for a quote that confirms it.
    Confirming,
    /// A trade was sent; `attempt` trades failed before it.
    Trading { attempt: u8 },
    /// A trade failed; waiting for a fresh quote. `attempt` trades or quotes failed so far.
    Requoting { attempt: u8 },
    /// Quotes kept failing; the quote already asked for is awaited only to end the cycle.
    GivingUp,
    /// Trades kept failing; waiting for the wallet's balances to be read again.
    Settling,
    /// The cycle is over.
    Done,
}

/// What came of the last action.
#[derive(Clone, Debug, PartialEq, Eq)]
pub enum CoinEvent {
    /// A quote arrived.
    QuoteReceived(Quote),
    /// The quote could not be had.
    QuoteFailed,
    /// The trade went through.
    TradeSucceeded,
    /// The trade failed.
    TradeFailed,
    /// The wallet's balances were read again, applied to the configuration and saved.
    BalancesRefreshed,
}

/// Why an entry's cycle ended in an error.
#[derive(Clone, Copy, Debug, PartialEq, Eq, Structural)]
pub enum CoinError {
    /// No quote request could be made for the entry.
    Payload(PayloadError),
    /// The first quote of the cycle could not be had.
    QuoteFailed,
    /// Every trade attempt failed.
    TradeFailed,
    /// Quotes kept failing while a trade was being retried.
    AttemptsExhausted,
}

/// What the program is to do next.
#[derive(Clone, Copy, Debug, PartialEq, Eq)]
pub enum CoinAction {
    /// Wait `delay_ms`, then ask for a quote for the cycle's payload.
    FetchQuote { delay_ms: u64 },
    /// Send a trade on the last quote received; `attempt` trades failed before
    /// it, and `priority_fee` asks for an automatic priority fee. When the
    /// trade fails, wait `RETRY_AFTER_TRADE_DELAY_MS` before answering.
    Trade { attempt: u8, priority_fee: bool },
    /// Read the wallet's token balances again, apply them to the configuration
    /// and save the configuration.
    RefreshBalances,
    /// The cycle is over; `Ok(true)` when the entry traded.
    Finish(Result<bool, CoinError>),
}

/// One step's outcome: the next action, and the price to record in the price
/// history, if any.
#[derive(Clone, Copy, Debug, PartialEq, Eq)]
pub struct CoinStep {
    pub action: CoinAction,
    pub record_price: Option<Ratio>,
}

/// One entry's cycle: a quote; when it calls for a trade, confirmation quotes
/// until one answers; when that one calls for a trade too, up to five trades,
/// each after a fresh quote.
#[derive(Clone, Debug)]
pub struct CoinCycle {
    pub phase: CoinPhase,
    /// The quote request of the cycle (`None` when none could be made).
    pub payload: Option<CreateQuote>,
    /// The last quote received.
    pub last_quote: Option<Quote>,
}

/// Whether the trade sent as attempt `attempt` asks for a priority fee: every
/// retry does, and so does every sale.
pub open spec fn priority_fee_for(side: BuyOrSell, attempt: u8) -> bool {
    attempt > 0 || side == BuyOrSell::Sell
}

/// Whether a trade asks for a priority fee (see `priority_fee_for`).
pub fn wants_priority_fee(side: BuyOrSell, attempt: u8) -> (r: bool)
    ensures
        r == priority_fee_for(side, attempt),
{
    if attempt > 0 {
        true
    } else {
        match side {
            BuyOrSell::Sell => true,
            BuyOrSell::Buy => false,
        }
    }
}

/// Whether `e` is an answer to the action the cycle asked for last.
pub open spec fn expects(phase: CoinPhase, e: CoinEvent) -> bool {
    match phase {
        CoinPhase::AwaitingQuote | CoinPhase::Confirming | CoinPhase::Requoting { .. }
        | CoinPhase::GivingUp => e is QuoteReceived || e is QuoteFailed,
        CoinPhase::Trading { .. } => e is TradeSucceeded || e is TradeFailed,
        CoinPhase::Settling => e is BalancesRefreshed,
        CoinPhase::Done => false,
    }
}

/// Whether event `e` can be taken by cycle `m` on entry `c` without an
/// arithmetic fault: it answers the last action, and the amounts it books can
/// be computed.
pub open spec fn takes(m: CoinCycle, c: BotGridConfigType, e: CoinEvent) -> bool {
    &&& expects(m.phase, e)
    &&& (m.phase is Trading && e is TradeSucceeded ==> success_bookable(c, m.last_quote->0))
    &&& (m.phase is Settling ==> failure_bookable(c, m.last_quote->0))
}

/// A step that only sets the next action.
pub open spec fn act(a: CoinAction) -> CoinStep {
    CoinStep { action: a, record_price: None }
}

/// The cycle's transitions: from cycle `m` on entry `c`, event `e` leads to the
/// returned cycle, entry and step.
pub open spec fn coin_next(m: CoinCycle, c: BotGridConfigType, e: CoinEvent) -> (
    CoinCycle,
    BotGridConfigType,
    CoinStep,
) {
    match (m.phase, e) {
        (CoinPhase::AwaitingQuote, CoinEvent::QuoteReceived(q)) => {
            let record = quote_price_of(q, c.buy_or_sell);
            if quote_signals(c, q) {
                (
                    CoinCycle { phase: CoinPhase::Confirming, ..m },
                    after_quote(c, q),
                    CoinStep {
                        action: CoinAction::FetchQuote { delay_ms: CONFIRM_DELAY_MS },
                        record_price: record,
                    },
                )
            } else {
                (
                    CoinCycle { phase: CoinPhase::Done, ..m },
                    after_quote(c, q),
                    CoinStep { action: CoinAction::Finish(Ok(false)), record_price: record },
                )
            }
        },
        (CoinPhase::AwaitingQuote, CoinEvent::QuoteFailed) => (
            CoinCycle { phase: CoinPhase::Done, ..m },
            c,
            act(CoinAction::Finish(Err(CoinError::QuoteFailed))),
        ),
        (CoinPhase::Confirming, CoinEvent::QuoteReceived(q)) => {
            if !quote_signals(c, q) {
                (
                    CoinCycle { phase: CoinPhase::Done, ..m },
                    after_quote(c, q),
                    act(CoinAction::Finish(Ok(false))),
                )
            } else if after_quote(c, q).is_valid == Some(false) {
                (
                    CoinCycle { phase: CoinPhase::Done, ..m },
                    after_quote(c, q),
                    act(CoinAction::Finish(Ok(true))),
                )
            } else {
                (
                    CoinCycle {
                        phase: CoinPhase::Trading { attempt: 0 },
                        last_quote: Some(q),
                        ..m
                    },
                    after_quote(c, q),
                    act(
                        CoinAction::Trade {
                            attempt: 0,
                            priority_fee: priority_fee_for(c.buy_or_sell, 0),
                        },
                    ),
                )
            }
        },
        (CoinPhase::Confirming, CoinEvent::QuoteFailed) => (
            m,
            c,
            act(CoinAction::FetchQuote { delay_ms: CONFIRM_DELAY_MS }),
        ),
        (CoinPhase::Trading { .. }, CoinEvent::TradeSucceeded) => (
            CoinCycle { phase: CoinPhase::Done, ..m },
            after_success(c, m.last_quote->0),
            act(CoinAction::Finish(Ok(true))),
        ),
        (CoinPhase::Trading { attempt }, CoinEvent::TradeFailed) => {
            if attempt + 1 >= MAX_TRADE_ATTEMPTS {
                (CoinCycle { phase: CoinPhase::Settling, ..m }, c, act(CoinAction::RefreshBalances))
            } else {
                (
                    CoinCycle { phase: CoinPhase::Requoting { attempt: (attempt + 1) as u8 }, ..m },
                    c,
                    act(CoinAction::FetchQuote { delay_ms: 0 }),
                )
            }
        },
        (CoinPhase::Requoting { attempt }, CoinEvent::QuoteReceived(q)) => (
            CoinCycle { phase: CoinPhase::Trading { attempt }, last_quote: Some(q), ..m },
            c,
            act(
                CoinAction::Trade {
                    attempt,
                    priority_fee: priority_fee_for(c.buy_or_sell, attempt),
                },
            ),
        ),
        (CoinPhase::Requoting { attempt }, CoinEvent::QuoteFailed) => {
            if attempt + 1 >= MAX_TRADE_ATTEMPTS {
                (
                    CoinCycle { phase: CoinPhase::GivingUp, ..m },
                    c,
                    act(CoinAction::FetchQuote { delay_ms: RETRY_AFTER_QUOTE_DELAY_MS }),
                )
            } else {
                (
                    CoinCycle { phase: CoinPhase::Requoting { attempt: (attempt + 1) as u8 }, ..m },
                    c,
                    act(CoinAction::FetchQuote { delay_ms: RETRY_AFTER_QUOTE_DELAY_MS }),
                )
            }
        },
        (CoinPhase::GivingUp, _) => (
            CoinCycle { phase: CoinPhase::Done, ..m },
            c,
            act(CoinAction::Finish(Err(CoinError::AttemptsExhausted))),
        ),
        (CoinPhase::Settling, CoinEvent::BalancesRefreshed) => (
            CoinCycle { phase: CoinPhase::Done, ..m },
            after_failure(c, m.last_quote->0),
            act(CoinAction::Finish(Err(CoinError::TradeFailed))),
        ),
        _ => (m, c, arbitrary()),
    }
}

impl CoinCycle {
    /// The cycle's own invariant: a trade or a settlement always has the quote
    /// it is about, fewer than five attempts have failed while trading or
    /// requoting, and a cycle without a quote request is over.
    pub open spec fn wf(self) -> bool {
        &&& (self.phase is Trading || self.phase is Settling) ==> self.last_quote is Some
        &&& (self.phase matches CoinPhase::Trading { attempt } ==> attempt < MAX_TRADE_ATTEMPTS)
        &&& (self.phase matches CoinPhase::Requoting { attempt } ==> 0 < attempt
            < MAX_TRADE_ATTEMPTS)
        &&& (self.payload is None ==> self.phase is Done)
    }

    /// Starts an entry's cycle: with the entry's quote request, the first
    /// action is to ask for a quote right away; without one (see
    /// `prepare_quote_payload`), the cycle ends at once with the reason.
    pub fn start(coin_info: &BotGridConfigType) -> (r: (CoinCycle, CoinAction))
        ensures
            r.0.wf(),
            r.0.last_quote is None,
            match payload_error(*coin_info) {
                None => r.0.phase == CoinPhase::AwaitingQuote && r.1 == (CoinAction::FetchQuote {
                    delay_ms: 0,
                }) && (r.0.payload matches Some(p) && payload_for(*coin_info, p)),
                Some(e) => r.0.phase == CoinPhase::Done && r.0.payload is None && r.1 == (
                CoinAction::Finish(Err(CoinError::Payload(e)))),
            },
    {
        match prepare_quote_payload(coin_info) {
            Ok(p) => (
                CoinCycle { phase: CoinPhase::AwaitingQuote, payload: Some(p), last_quote: None },
                CoinAction::FetchQuote { delay_ms: 0 },
            ),
            Err(e) => (
                CoinCycle { phase: CoinPhase::Done, payload: None, last_quote: None },
                CoinAction::Finish(Err(CoinError::Payload(e))),
            ),
        }
    }

    /// Whether the cycle can take `event` (see `takes`); the program checks
    /// this before each step.
    pub fn can_take(&self, coin_info: &BotGridConfigType, event: &CoinEvent) -> (r: bool)
        requires
            self.wf(),
        ensures
            r == takes(*self, *coin_info, *event),
    {
        let expected = match self.phase {
            CoinPhase::AwaitingQuote | CoinPhase::Confirming | CoinPhase::Requoting { .. }
            | CoinPhase::GivingUp => match event {
                CoinEvent::QuoteReceived(_) | CoinEvent::QuoteFailed => true,
                _ => false,
            },
            CoinPhase::Trading { .. } => match event {
                CoinEvent::TradeSucceeded | CoinEvent::TradeFailed => true,
                _ => false,
            },
            CoinPhase::Settling => match event {
                CoinEvent::BalancesRefreshed => true,
                _ => false,
            },
            CoinPhase::Done => false,
        };
        if !expected {
            return false;
        }
        match (self.phase, event) {
            (CoinPhase::Trading { .. }, CoinEvent::TradeSucceeded) => match &self.last_quote {
                Some(q) => match coin_info.buy_or_sell {
                    BuyOrSell::Sell => q.out_amount >= crate::trade::SALE_FEE_RESERVE,
                    BuyOrSell::Buy => true,
                },
                None => false,
            },
            (CoinPhase::Settling, _) => match &self.last_quote {
                Some(q) => crate::trade::can_settle(coin_info, q),
                None => false,
            },
            _ => true,
        }
    }

    /// Takes the answer to the last action (see `coin_next`).
    pub fn step(&mut self, coin_info: &mut BotGridConfigType, event: CoinEvent) -> (s: CoinStep)
        requires
            old(self).wf(),
            takes(*old(self), *old(coin_info), event),
        ensures
            final(self).wf(),
            *final(self) == coin_next(*old(self), *old(coin_info), event).0,
            *final(coin_info) == coin_next(*old(self), *old(coin_info), event).1,
            s == coin_next(*old(self), *old(coin_info), event).2,
    {
        let side = coin_info.buy_or_sell;
        match self.phase {
            CoinPhase::AwaitingQuote => match event {
                CoinEvent::QuoteReceived(q) => {
                    let record = crate::api_jupiter::quote_price(&q, side);
                    if grid_function(&q, coin_info) {
                        self.phase = CoinPhase::Confirming;
                        CoinStep {
                            action: CoinAction::FetchQuote { delay_ms: CONFIRM_DELAY_MS },
                            record_price: record,
                        }
                    } else {
                        self.phase = CoinPhase::Done;
                        CoinStep { action: CoinAction::Finish(Ok(false)), record_price: record }
                    }
                },
                _ => {
                    self.phase = CoinPhase::Done;
                    CoinStep {
                        action: CoinAction::Finish(Err(CoinError::QuoteFailed)),
                        record_price: None,
                    }
                },
            },
            CoinPhase::Confirming => match event {
                CoinEvent::QuoteReceived(q) => {
                    if !grid_function(&q, coin_info) {
                        self.phase = CoinPhase::Done;
                        return CoinStep { action: CoinAction::Finish(Ok(false)), record_price: None };
                    }
                    let invalid = match coin_info.is_valid {
                        Some(v) => !v,
                        None => false,
                    };
                    if invalid {
                        self.phase = CoinPhase::Done;
                        return CoinStep { action: CoinAction::Finish(Ok(true)), record_price: None };
                    }
                    self.phase = CoinPhase::Trading { attempt: 0 };
                    self.last_quote = Some(q);
                    CoinStep {
                        action: CoinAction::Trade {
                            attempt: 0,
                            priority_fee: wants_priority_fee(side, 0),
                        },
                        record_price: None,
                    }
                },
                _ => CoinStep {
                    action: CoinAction::FetchQuote { delay_ms: CONFIRM_DELAY_MS },
                    record_price: None,
                },
            },
            CoinPhase::Trading { attempt } => match event {
                CoinEvent::TradeSucceeded => {
                    match &self.last_quote {
                        Some(q) => apply_successful_trade(coin_info, q),
                        None => unreached(),
                    }
                    self.phase = CoinPhase::Done;
                    CoinStep { action: CoinAction::Finish(Ok(true)), record_price: None }
                },
                _ => {
                    if attempt + 1 >= MAX_TRADE_ATTEMPTS {
                        self.phase = CoinPhase::Settling;
                        CoinStep { action: CoinAction::RefreshBalances, record_price: None }
                    } else {
                        self.phase = CoinPhase::Requoting { attempt: attempt + 1 };
                        CoinStep { action: CoinAction::FetchQuote { delay_ms: 0 }, record_price: None }
                    }
                },
            },
            CoinPhase::Requoting { attempt } => match event {
                CoinEvent::QuoteReceived(q) => {
                    self.phase = CoinPhase::Trading { attempt };
                    self.last_quote = Some(q);
                    CoinStep {
                        action: CoinAction::Trade {
                            attempt,
                            priority_fee: wants_priority_fee(side, attempt),
                        },
                        record_price: None,
                    }
                },
                _ => {
                    if attempt + 1 >= MAX_TRADE_ATTEMPTS {
                        self.phase = CoinPhase::GivingUp;
                    } else {
                        self.phase = CoinPhase::Requoting { attempt: attempt + 1 };
                    }
                    CoinStep {
                        action: CoinAction::FetchQuote { delay_ms: RETRY_AFTER_QUOTE_DELAY_MS },
                        record_price: None,
                    }
                },
            },
            CoinPhase::GivingUp => {
                self.phase = CoinPhase::Done;
                CoinStep {
                    action: CoinAction::Finish(Err(CoinError::AttemptsExhausted)),
                    record_price: None,
                }
            },
            CoinPhase::Settling => {
                match &self.last_quote {
                    Some(q) => settle_failed_trade(coin_info, q),
                    None => unreached(),
                }
                self.phase = CoinPhase::Done;
                CoinStep {
                    action: CoinAction::Finish(Err(CoinError::TradeFailed)),
                    record_price: None,
                }
            },
            CoinPhase::Done => unreached(),
        }
    }
}

/// Where the main loop stands in its pass over the entries.
#[derive(Clone, Copy, Debug, PartialEq, Eq, Structural)]
pub struct RunState {
    /// The entry whose cycle comes next.
    pub index_config: usize,
    /// Whether the wallet's balances are to be read again at the end of the pass.
    pub refresh_coin_balance: bool,
}

/// What the main loop is to do next.
#[derive(Clone, Copy, Debug, PartialEq, Eq, Structural)]
pub enum RunAction {
    /// Run the cycle of the entry with this index.
    ProcessCoin(usize),
    /// The pass is over: read the wallet's balances again when `refresh_balances`
    /// is set, save the configuration, wait the configured interval, and start
    /// the next pass.
    EndPass { refresh_balances: bool },
}

/// Whether a finished cycle calls for the balances to be read again at the end
/// of the pass: the entry traded, is valid, and now waits to sell, having just bought.
pub open spec fn calls_for_refresh(c: BotGridConfigType, outcome: Result<bool, CoinError>) -> bool {
    outcome == Ok::<bool, CoinError>(true) && c.is_valid == Some(true) && c.buy_or_sell
        == BuyOrSell::Sell
}

/// The state once an entry's cycle has ended with `outcome`, leaving the entry as `c`.
pub open spec fn run_after(s: RunState, c: BotGridConfigType, outcome: Result<bool, CoinError>) -> RunState {
    RunState {
        index_config: (s.index_config + 1) as usize,
        refresh_coin_balance: s.refresh_coin_balance || calls_for_refresh(c, outcome),
    }
}

/// The next action of a pass over `entries` entries from state `s`.
pub open spec fn run_next(s: RunState, entries: usize) -> RunAction {
    if s.index_config < entries {
        RunAction::ProcessCoin(s.index_config)
    } else {
        RunAction::EndPass { refresh_balances: s.refresh_coin_balance }
    }
}

/// The state of a pass that started from `s`, once the cycles `done` (each
/// entry as its cycle left it, and the cycle's outcome) have ended, in order.
pub open spec fn pass_after(s: RunState, done: Seq<(BotGridConfigType, Result<bool, CoinError>)>) -> RunState
    decreases done.len(),
{
    if done.len() == 0 {
        s
    } else {
        run_after(pass_after(s, done.drop_last()), done.last().0, done.last().1)
    }
}

/// Whether one of the cycles `done` calls for the balances to be read again.
pub open spec fn some_cycle_calls_for_refresh(done: Seq<(BotGridConfigType, Result<bool, CoinError>)>) -> bool {
    exists|i: int| 0 <= i < done.len() && calls_for_refresh(#[trigger] done[i].0, done[i].1)
}

impl RunState {
    /// The state at the start of the first pass.
    pub fn new() -> (r: RunState)
        ensures
            r.index_config == 0,
            !r.refresh_coin_balance,
    {
        RunState { index_config: 0, refresh_coin_balance: false }
    }

    /// The next action of a pass over `entries` entries: the entries in order,
    /// then the end of the pass.
    pub fn next_action(&self, entries: usize) -> (r: RunAction)
        ensures
            r == run_next(*self, entries),
    {
        if self.index_config < entries {
            RunAction::ProcessCoin(self.index_config)
        } else {
            RunAction::EndPass { refresh_balances: self.refresh_coin_balance }
        }
    }

    /// Notes that the current entry's cycle ended with `outcome`, leaving the
    /// entry as `coin_info`, and moves on to the next entry.
    pub fn coin_finished(&mut self, coin_info: &BotGridConfigType, outcome: &Result<bool, CoinError>)
        requires
            old(self).index_config < usize::MAX,
        ensures
            *final(self) == run_after(*old(self), *coin_info, *outcome),
    {
        let traded = match outcome {
            Ok(t) => *t,
            Err(_) => false,
        };
        let valid = match coin_info.is_valid {
            Some(v) => v,
            None => false,
        };
        let selling = match coin_info.buy_or_sell {
            BuyOrSell::Sell => true,
            BuyOrSell::Buy => false,
        };
        if traded && valid && selling {
            self.refresh_coin_balance = true;
        }
        self.index_config = self.index_config + 1;
    }

    /// Starts the next pass, once the end of the pass has been handled.
    pub fn pass_finished(&mut self)
        ensures
            final(self).index_config == 0,
            !final(self).refresh_coin_balance,
    {
        self.index_config = 0;
        self.refresh_coin_balance = false;
    }
}

/// Law: every step keeps the cycle's invariant.
pub proof fn lemma_steps_keep_invariant(m: CoinCycle, c: BotGridConfigType, e: CoinEvent)
    requires
        m.wf(),
        takes(m, c, e),
    ensures
        coin_next(m, c, e).0.wf(),
{
}

/// Law: a cycle only starts confirming after a first quote that called for a
/// trade, and only sends its first trade after a confirming quote that called
/// for one too; later trades are retries of that one.
pub proof fn lemma_trades_need_two_signals(m: CoinCycle, c: BotGridConfigType, e: CoinEvent)
    requires
        m.wf(),
        takes(m, c, e),
    ensures
        coin_next(m, c, e).0.phase is Confirming ==> (m.phase is Confirming || (
        m.phase is AwaitingQuote && (e matches CoinEvent::QuoteReceived(q) && quote_signals(c, q)))),
        coin_next(m, c, e).2.action is Trade ==> (m.phase is Requoting || (m.phase is Confirming
            && (e matches CoinEvent::QuoteReceived(q) && quote_signals(c, q)))),
{
}

/// Law: no trade is sent after five have failed.
pub proof fn lemma_at_most_five_trades(m: CoinCycle, c: BotGridConfigType, e: CoinEvent)
    requires
        m.wf(),
        takes(m, c, e),
    ensures
        coin_next(m, c, e).2.action matches CoinAction::Trade { attempt, .. } ==> attempt
            < MAX_TRADE_ATTEMPTS,
{
}

/// Law: a cycle reports that the entry traded exactly when a trade went
/// through, and the entry is then booked as `after_success` says.
pub proof fn lemma_traded_means_booked(m: CoinCycle, c: BotGridConfigType, e: CoinEvent)
    requires
        m.wf(),
        takes(m, c, e),
    ensures
        coin_next(m, c, e).2.action == CoinAction::Finish(Ok(true)) <==> (m.phase is Trading
            && e is TradeSucceeded),
        coin_next(m, c, e).2.action == CoinAction::Finish(Ok(true)) ==> coin_next(m, c, e).1
            == after_success(c, m.last_quote->0),
{
    if m.phase is Confirming {
        if let CoinEvent::QuoteReceived(q) = e {
            if quote_signals(c, q) {
                assert(after_quote(c, q).is_valid == Some(true));
            }
        }
    }
}

/// Law: within a cycle the entry changes only when a quote updates its
/// remembered prices, or when a trade is booked or settled.
pub proof fn lemma_entry_changes_only_on_quotes_and_outcomes(
    m: CoinCycle,
    c: BotGridConfigType,
    e: CoinEvent,
)
    requires
        m.wf(),
        takes(m, c, e),
    ensures
        coin_next(m, c, e).1 != c ==> (e is QuoteReceived || e is TradeSucceeded
            || e is BalancesRefreshed),
        e matches CoinEvent::QuoteReceived(q) ==> (coin_next(m, c, e).1 == c
            || coin_next(m, c, e).1 == after_quote(c, q)),
{
}

/// Law: a pass over `entries` entries, started afresh, runs the entries'
/// cycles once each, in order, and then ends; at its end the balances are read
/// again exactly when one of its cycles traded a valid entry that now waits to
/// sell.
pub proof fn lemma_pass_visits_entries_in_order(
    entries: usize,
    done: Seq<(BotGridConfigType, Result<bool, CoinError>)>,
)
    requires
        done.len() <= entries,
    ensures
        pass_after(RunState { index_config: 0, refresh_coin_balance: false }, done)
            == (RunState {
            index_config: done.len() as usize,
            refresh_coin_balance: some_cycle_calls_for_refresh(done),
        }),
        done.len() < entries ==> run_next(
            pass_after(RunState { index_config: 0, refresh_coin_balance: false }, done),
            entries,
        ) == RunAction::ProcessCoin(done.len() as usize),
        done.len() == entries ==> run_next(
            pass_after(RunState { index_config: 0, refresh_coin_balance: false }, done),
            entries,
        ) == (RunAction::EndPass { refresh_balances: some_cycle_calls_for_refresh(done) }),
    decreases done.len(),
{
    if done.len() > 0 {
        let prev = done.drop_last();
        lemma_pass_visits_entries_in_order(entries, prev);
        let last = done.last();
        if some_cycle_calls_for_refresh(done) {
            let i = choose|i: int|
                0 <= i < done.len() && calls_for_refresh(#[trigger] done[i].0, done[i].1);
            if i < done.len() - 1 {
                assert(prev[i] == done[i]);
            }
        }
        if some_cycle_calls_for_refresh(prev) {
            let i = choose|i: int|
                0 <= i < prev.len() && calls_for_refresh(#[trigger] prev[i].0, prev[i].1);
            assert(prev[i] == done[i]);
        }
        if calls_for_refresh(last.0, last.1) {
            assert(done[done.len() - 1] == last);
        }
    }
}

/// Whether the events `es`, fed in order to cycle `m` on entry `c`, each
/// answer the action before them.
pub open spec fn run_taken(m: CoinCycle, c: BotGridConfigType, es: Seq<CoinEvent>) -> bool
    decreases es.len(),
{
    if es.len() == 0 {
        true
    } else {
        let n = coin_next(m, c, es[0]);
        takes(m, c, es[0]) && run_taken(n.0, n.1, es.drop_first())
    }
}

/// The number of trades a cycle `m` on entry `c` sends while it takes the events `es`.
pub open spec fn trades_sent(m: CoinCycle, c: BotGridConfigType, es: Seq<CoinEvent>) -> nat
    decreases es.len(),
{
    if es.len() == 0 {
        0
    } else {
        let n = coin_next(m, c, es[0]);
        (if n.2.action is Trade {
            1nat
        } else {
            0nat
        }) + trades_sent(n.0, n.1, es.drop_first())
    }
}

/// How many more trades a cycle in phase `p` may still send.
pub open spec fn trades_left(p: CoinPhase) -> int {
    match p {
        CoinPhase::AwaitingQuote | CoinPhase::Confirming => MAX_TRADE_ATTEMPTS as int,
        CoinPhase::Trading { attempt } => MAX_TRADE_ATTEMPTS - 1 - attempt,
        CoinPhase::Requoting { attempt } => MAX_TRADE_ATTEMPTS - attempt,
        _ => 0,
    }
}

/// Law: over a whole cycle, whatever answers the program gives, no more than
/// five trades are sent.
pub proof fn lemma_cycle_sends_at_most_five_trades(
    m: CoinCycle,
    c: BotGridConfigType,
    es: Seq<CoinEvent>,
)
    requires
        m.wf(),
        run_taken(m, c, es),
    ensures
        trades_sent(m, c, es) <= trades_left(m.phase) <= MAX_TRADE_ATTEMPTS,
    decreases es.len(),
{
    if es.len() > 0 {
        let n = coin_next(m, c, es[0]);
        lemma_steps_keep_invariant(m, c, es[0]);
        lemma_cycle_sends_at_most_five_trades(n.0, n.1, es.drop_first());
    }
}

/// Law: a quote that a cycle receives while awaiting its first quote or a
/// confirming one is remembered in the entry whether or not it calls for a
/// trade: the entry becomes `after_quote` of it, and when the quote's amounts
/// are not zero its price becomes the entry's current price. The first
/// quote's price is the one recorded in the price history, and a first quote
/// that calls for no trade ends the cycle, reporting no trade.
pub proof fn lemma_cycle_remembers_quotes(m: CoinCycle, c: BotGridConfigType, q: Quote)
    requires
        m.phase is AwaitingQuote || m.phase is Confirming,
    ensures
        coin_next(m, c, CoinEvent::QuoteReceived(q)).1 == after_quote(c, q),
        (q.in_amount > 0 && q.out_amount > 0) ==> (coin_next(m, c, CoinEvent::QuoteReceived(q)).1.state
            matches Some(s) && s.current_price == priced_at(q, c.buy_or_sell)),
        (m.phase is AwaitingQuote && q.in_amount > 0 && q.out_amount > 0) ==> coin_next(
            m,
            c,
            CoinEvent::QuoteReceived(q),
        ).2.record_price == Some(priced_at(q, c.buy_or_sell)),
        m.phase is AwaitingQuote ==> (coin_next(m, c, CoinEvent::QuoteReceived(q)).2.action
            == CoinAction::Finish(Ok(false)) <==> !quote_signals(c, q)),
{
    crate::grid::lemma_quote_is_remembered(c, q);
}

/// Law: every sale asks for a priority fee, and so does every retry; only the
/// first attempt of a buy goes without one.
pub proof fn lemma_priority_fee_on_sales_and_retries(side: BuyOrSell, attempt: u8)
    ensures
        side == BuyOrSell::Sell ==> priority_fee_for(side, attempt),
        attempt > 0 ==> priority_fee_for(side, attempt),
        !priority_fee_for(BuyOrSell::Buy, 0),
{
}

/// Law: every trade is sent on the quote that came just before it, and a
/// trade that failed for good is settled on that quote once the balances have
/// been read again: a failed trade is retried after a fresh quote until five
/// have failed, then the balances are read again, the entry is settled as
/// `after_failure` says, and the cycle ends in an error.
pub proof fn lemma_failed_trades_are_retried_then_settled(
    m: CoinCycle,
    c: BotGridConfigType,
    e: CoinEvent,
)
    requires
        m.wf(),
        takes(m, c, e),
    ensures
        m.phase matches CoinPhase::Trading { attempt } ==> (e is TradeFailed ==> if attempt + 1
            < MAX_TRADE_ATTEMPTS {
            coin_next(m, c, e).2.action == (CoinAction::FetchQuote { delay_ms: 0 })
                && coin_next(m, c, e).1 == c
        } else {
            coin_next(m, c, e).2.action == CoinAction::RefreshBalances && coin_next(m, c, e).1 == c
                && coin_next(m, c, e).0.phase is Settling
        }),
        e matches CoinEvent::QuoteReceived(q) ==> (coin_next(m, c, e).2.action is Trade
            ==> coin_next(m, c, e).0.last_quote == Some(q)),
        m.phase is Settling ==> coin_next(m, c, e).1 == after_failure(c, m.last_quote->0)
            && coin_next(m, c, e).2.action == CoinAction::Finish(Err(CoinError::TradeFailed)),
{
}

} // verus!
