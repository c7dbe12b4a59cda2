//! What a trade does to an entry: the side it waits for, the amounts it holds
//! and the prices it remembers.
use vstd::prelude::*;
use crate::api_jupiter::Quote;
use crate::json_config::{BotGridConfigType, BuyOrSell};

verus! {

/// Lamports kept back from the SOL a sale brings in, to pay for fees.
pub const SALE_FEE_RESERVE: u64 = 105000;

/// Lamports kept back from the SOL of a buy that failed, to pay for fees.
pub const BUY_FEE_RESERVE: u64 = 155000;

/// Whether a held amount counts as nothing: absent or zero.
pub open spec fn holds_nothing(a: Option<u64>) -> bool {
    a is None || a == Some(0u64)
}

/// Whether a trade of entry `c` on quote `q` can be booked: a sale books the
/// SOL received less the fee reserve, so it must bring in at least that much.
pub open spec fn success_bookable(c: BotGridConfigType, q: Quote) -> bool {
    c.buy_or_sell == BuyOrSell::Sell ==> q.out_amount >= SALE_FEE_RESERVE
}

/// The entry after a trade on quote `q` went through: a buy leaves it holding
/// the tokens received and no SOL, a sale leaves it holding the SOL received
/// less the fee reserve and no tokens; either way it forgets the prices it
/// remembered and waits for the opposite trade.
pub open spec fn after_success(c: BotGridConfigType, q: Quote) -> BotGridConfigType {
    match c.buy_or_sell {
        BuyOrSell::Buy => BotGridConfigType {
            sol_amount: Some(0u64),
            token_amount: Some(q.out_amount),
            state: None,
            buy_or_sell: BuyOrSell::Sell,
            ..c
        },
        BuyOrSell::Sell => BotGridConfigType {
            sol_amount: Some((q.out_amount - SALE_FEE_RESERVE) as u64),
            token_amount: Some(0u64),
            state: None,
            buy_or_sell: BuyOrSell::Buy,
            ..c
        },
    }
}

/// Books a trade that went through on quote `quote` (see `after_success`).
pub fn apply_successful_trade(coin_info: &mut BotGridConfigType, quote: &Quote)
    requires
        success_bookable(*old(coin_info), *quote),
    ensures
        *final(coin_info) == after_success(*old(coin_info), *quote),
{
    match coin_info.buy_or_sell {
        BuyOrSell::Buy => {
            coin_info.sol_amount = Some(0);
            coin_info.token_amount = Some(quote.out_amount);
            coin_info.state = None;
            coin_info.buy_or_sell = BuyOrSell::Sell;
        },
        BuyOrSell::Sell => {
            coin_info.sol_amount = Some(quote.out_amount - SALE_FEE_RESERVE);
            coin_info.token_amount = Some(0);
            coin_info.state = None;
            coin_info.buy_or_sell = BuyOrSell::Buy;
        },
    }
}

/// Whether the amounts that settling a failed trade books can be computed:
/// a buy whose entry holds no tokens keeps the quote's input less the buy fee
/// reserve; a sale whose entry holds neither tokens nor SOL keeps the first
/// route leg's output less the sale fee reserve.
pub open spec fn failure_bookable(c: BotGridConfigType, q: Quote) -> bool {
    match c.buy_or_sell {
        BuyOrSell::Buy => holds_nothing(c.token_amount) ==> q.in_amount >= BUY_FEE_RESERVE,
        BuyOrSell::Sell => holds_nothing(c.token_amount) && holds_nothing(c.sol_amount) ==> (
        q.route_plan.len() > 0 && q.route_plan[0].out_amount >= SALE_FEE_RESERVE),
    }
}

/// The entry once its trade on quote `q` has failed for good and its token
/// balance has been read again. A buy is taken as done when the entry now holds
/// tokens (it then waits to sell, with no SOL and no remembered prices), and as
/// not done otherwise (it keeps waiting to buy with the quoted SOL less the buy
/// fee reserve). A sale is taken as done only when the entry holds neither
/// tokens nor SOL (it then waits to buy with the first leg's SOL less the sale
/// fee reserve, forgetting its prices); otherwise nothing changes.
pub open spec fn after_failure(c: BotGridConfigType, q: Quote) -> BotGridConfigType {
    match c.buy_or_sell {
        BuyOrSell::Buy => if holds_nothing(c.token_amount) {
            BotGridConfigType { sol_amount: Some((q.in_amount - BUY_FEE_RESERVE) as u64), ..c }
        } else {
            BotGridConfigType {
                sol_amount: Some(0u64),
                state: None,
                buy_or_sell: BuyOrSell::Sell,
                ..c
            }
        },
        BuyOrSell::Sell => if holds_nothing(c.token_amount) && holds_nothing(c.sol_amount) {
            BotGridConfigType {
                sol_amount: Some((q.route_plan[0].out_amount - SALE_FEE_RESERVE) as u64),
                state: None,
                buy_or_sell: BuyOrSell::Buy,
                ..c
            }
        } else {
            c
        },
    }
}

fn is_nothing(a: Option<u64>) -> (r: bool)
    ensures
        r == holds_nothing(a),
{
    match a {
        None => true,
        Some(v) => v == 0,
    }
}

/// Whether a failed trade of the entry on `quote` can be settled (see `failure_bookable`).
pub fn can_settle(coin_info: &BotGridConfigType, quote: &Quote) -> (r: bool)
    ensures
        r == failure_bookable(*coin_info, *quote),
{
    match coin_info.buy_or_sell {
        BuyOrSell::Buy => !is_nothing(coin_info.token_amount) || quote.in_amount >= BUY_FEE_RESERVE,
        BuyOrSell::Sell => {
            if is_nothing(coin_info.token_amount) && is_nothing(coin_info.sol_amount) {
                quote.route_plan.len() > 0 && quote.route_plan[0].out_amount >= SALE_FEE_RESERVE
            } else {
                true
            }
        },
    }
}

/// Settles an entry whose trade on quote `quote` failed for good (see `after_failure`).
pub fn settle_failed_trade(coin_info: &mut BotGridConfigType, quote: &Quote)
    requires
        failure_bookable(*old(coin_info), *quote),
    ensures
        *final(coin_info) == after_failure(*old(coin_info), *quote),
{
    match coin_info.buy_or_sell {
        BuyOrSell::Buy => {
            if is_nothing(coin_info.token_amount) {
                coin_info.sol_amount = Some(quote.in_amount - BUY_FEE_RESERVE);
            } else {
                coin_info.sol_amount = Some(0);
                coin_info.state = None;
                coin_info.buy_or_sell = BuyOrSell::Sell;
            }
        },
        BuyOrSell::Sell => {
            if is_nothing(coin_info.token_amount) && is_nothing(coin_info.sol_amount) {
                coin_info.sol_amount = Some(quote.route_plan[0].out_amount - SALE_FEE_RESERVE);
                coin_info.state = None;
                coin_info.buy_or_sell = BuyOrSell::Buy;
            }
        },
    }
}

/// Law: a trade that goes through turns the entry to the opposite side and
/// clears the prices it remembered.
pub proof fn lemma_success_flips_side(c: BotGridConfigType, q: Quote)
    ensures
        after_success(c, q).buy_or_sell != c.buy_or_sell,
        after_success(c, q).state is None,
        after_success(c, q).name == c.name,
        after_success(c, q).contract_address == c.contract_address,
        after_success(c, q).range == c.range,
        after_success(c, q).is_valid == c.is_valid,
{
}

/// Law: after a trade goes through, the entry holds an amount of exactly the
/// kind its next trade spends, and none of the other.
pub proof fn lemma_success_funds_next_trade(c: BotGridConfigType, q: Quote)
    ensures
        after_success(c, q).buy_or_sell == BuyOrSell::Sell ==> after_success(c, q).token_amount
            == Some(q.out_amount) && after_success(c, q).sol_amount == Some(0u64),
        after_success(c, q).buy_or_sell == BuyOrSell::Buy ==> after_success(c, q).sol_amount
            is Some && after_success(c, q).token_amount == Some(0u64),
{
}

/// Law: settling a sale that failed for good changes nothing while the entry
/// still holds tokens or SOL: the sale is only taken as done when the re-read
/// balances show neither, and the entry then waits to buy with the first
/// route leg's SOL less the sale fee reserve, keeping its token amount and
/// forgetting its prices.
pub proof fn lemma_failed_sale_settles_only_when_empty(c: BotGridConfigType, q: Quote)
    requires
        c.buy_or_sell == BuyOrSell::Sell,
    ensures
        (c.token_amount matches Some(n) && n > 0) ==> after_failure(c, q) == c,
        (c.sol_amount matches Some(n) && n > 0) ==> after_failure(c, q) == c,
        after_failure(c, q).buy_or_sell == BuyOrSell::Sell ==> after_failure(c, q) == c,
        ((c.token_amount is None || c.token_amount == Some(0u64)) && (c.sol_amount is None
            || c.sol_amount == Some(0u64)) && q.route_plan.len() > 0
            && q.route_plan[0].out_amount >= SALE_FEE_RESERVE) ==> after_failure(c, q)
            == (BotGridConfigType {
            sol_amount: Some((q.route_plan[0].out_amount - SALE_FEE_RESERVE) as u64),
            state: None,
            buy_or_sell: BuyOrSell::Buy,
            ..c
        }),
{
}

/// Law: settling a buy that failed for good takes the buy as done exactly when
/// the re-read balances show tokens: the entry then waits to sell with no SOL
/// and no remembered prices. Otherwise it keeps waiting to buy, with the
/// quoted SOL less the buy fee reserve, and its prices.
pub proof fn lemma_failed_buy_settles_on_tokens_held(c: BotGridConfigType, q: Quote)
    requires
        c.buy_or_sell == BuyOrSell::Buy,
    ensures
        (c.token_amount matches Some(n) && n > 0) ==> after_failure(c, q) == (BotGridConfigType {
            sol_amount: Some(0u64),
            state: None,
            buy_or_sell: BuyOrSell::Sell,
            ..c
        }),
        ((c.token_amount is None || c.token_amount == Some(0u64)) && q.in_amount
            >= BUY_FEE_RESERVE) ==> after_failure(c, q) == (BotGridConfigType {
            sol_amount: Some((q.in_amount - BUY_FEE_RESERVE) as u64),
            ..c
        }),
{
}

/// Law: a trade that went through is booked exactly: a buy holds the tokens
/// received and no SOL, a sale holds the SOL received less the sale fee
/// reserve and no tokens; the side turns, the prices are forgotten, and
/// nothing else changes.
pub proof fn lemma_success_books_the_quote(c: BotGridConfigType, q: Quote)
    requires
        c.buy_or_sell == BuyOrSell::Sell ==> q.out_amount >= SALE_FEE_RESERVE,
    ensures
        c.buy_or_sell == BuyOrSell::Buy ==> after_success(c, q) == (BotGridConfigType {
            sol_amount: Some(0u64),
            token_amount: Some(q.out_amount),
            state: None,
            buy_or_sell: BuyOrSell::Sell,
            ..c
        }),
        c.buy_or_sell == BuyOrSell::Sell ==> after_success(c, q) == (BotGridConfigType {
            sol_amount: Some((q.out_amount - SALE_FEE_RESERVE) as u64),
            token_amount: Some(0u64),
            state: None,
            buy_or_sell: BuyOrSell::Buy,
            ..c
        }),
{
}

} // verus!
