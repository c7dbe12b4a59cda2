//! The grid strategy: what an entry remembers of the prices it sees, and
//! when a price calls for a trade.
use vstd::prelude::*;
use crate::api_jupiter::{Quote, quote_price, quote_price_of};
use crate::json_config::{AppStateType, BotGridConfigType, BuyOrSell};
use crate::ratio::{Ratio, above_raised, below_lowered, ratio_le, ratio_lt};

verus! {

/// Above this highest price (0.025 SOL) the entry named "sol-happy" sells at once.
pub open spec fn happy_floor() -> Ratio {
    Ratio { negative: false, num: 25, den: 1000 }
}

/// The price mark (0.00282 SOL) of the entry named "sol-hammi".
pub open spec fn hammi_floor() -> Ratio {
    Ratio { negative: false, num: 282, den: 100000 }
}

/// The fixed fall (5%) from the highest price at which the named entries sell.
pub open spec fn fixed_drop() -> Ratio {
    Ratio { negative: false, num: 5, den: 100 }
}

/// The remembered prices once price `p` has been seen: the first price seen
/// sets all four; after that the highest and lowest move out to `p` when `p`
/// lies beyond them, and `p` becomes the current price.
pub open spec fn tracked_state(prev: Option<AppStateType>, p: Ratio) -> AppStateType {
    match prev {
        None => AppStateType { lowest: p, highest: p, current_price: p, nb_output_if_i_sell: p },
        Some(s) => AppStateType {
            lowest: if ratio_lt(p, s.lowest) {
                p
            } else {
                s.lowest
            },
            highest: if ratio_lt(s.highest, p) {
                p
            } else {
                s.highest
            },
            current_price: p,
            nb_output_if_i_sell: p,
        },
    }
}

/// When a buy is due: the current price has risen above the lowest price by
/// more than the entry's range. The entries named "sol-happy" and "sol-hammi"
/// never buy.
pub open spec fn buy_due(c: BotGridConfigType) -> bool {
    match c.state {
        None => false,
        Some(s) => c.name@ != "sol-happy"@ && c.name@ != "sol-hammi"@ && above_raised(
            s.current_price,
            s.lowest,
            c.range,
        ),
    }
}

/// When a sale is due: the current price has fallen below the highest price by
/// more than the entry's range. Besides, "sol-happy" sells as soon as its highest
/// price passes 0.025, and "sol-hammi", once its highest price has passed 0.00282,
/// sells on a 5% fall from the highest price or when the price drops below 0.00282.
pub open spec fn sell_due(c: BotGridConfigType) -> bool {
    match c.state {
        None => false,
        Some(s) => {
            ||| (c.name@ == "sol-happy"@ && ratio_lt(happy_floor(), s.highest) && below_lowered(
                s.current_price,
                s.highest,
                fixed_drop(),
            ))
            ||| (c.name@ == "sol-happy"@ && ratio_lt(happy_floor(), s.highest))
            ||| (c.name@ == "sol-hammi"@ && ratio_lt(hammi_floor(), s.highest) && below_lowered(
                s.current_price,
                s.highest,
                fixed_drop(),
            ))
            ||| (c.name@ == "sol-hammi"@ && ratio_lt(hammi_floor(), s.highest) && ratio_lt(
                s.current_price,
                hammi_floor(),
            ))
            ||| below_lowered(s.current_price, s.highest, c.range)
        },
    }
}

/// Whether an entry calls for its next trade: only valid entries trade, and a
/// buy or a sale is due according to the side the entry is on.
pub open spec fn trade_due(c: BotGridConfigType) -> bool {
    c.is_valid == Some(true) && match c.buy_or_sell {
        BuyOrSell::Buy => buy_due(c),
        BuyOrSell::Sell => sell_due(c),
    }
}

/// The entry once quote `q` has been seen: a quote with a price updates the
/// remembered prices; one without leaves the entry as it was.
pub open spec fn after_quote(c: BotGridConfigType, q: Quote) -> BotGridConfigType {
    match quote_price_of(q, c.buy_or_sell) {
        None => c,
        Some(p) => BotGridConfigType { state: Some(tracked_state(c.state, p)), ..c },
    }
}

/// Whether quote `q` calls for a trade of entry `c`.
pub open spec fn quote_signals(c: BotGridConfigType, q: Quote) -> bool {
    quote_price_of(q, c.buy_or_sell) is Some && trade_due(after_quote(c, q))
}

fn name_is(name: &String, literal: &str) -> (r: bool)
    ensures
        r == (name@ == literal@),
{
    let owned: String = literal.to_owned();
    *name == owned
}

/// Whether a buy is due for the entry (see `buy_due`).
pub fn buy_condition(config_coin: &BotGridConfigType) -> (r: bool)
    ensures
        r == buy_due(*config_coin),
{
    match &config_coin.state {
        None => false,
        Some(state) => {
            if name_is(&config_coin.name, "sol-happy") {
                return false;
            }
            if name_is(&config_coin.name, "sol-hammi") {
                return false;
            }
            state.current_price.is_above_raised(&state.lowest, &config_coin.range)
        },
    }
}

/// Whether a sale is due for the entry (see `sell_due`).
pub fn sell_condition(config_coin: &BotGridConfigType) -> (r: bool)
    ensures
        r == sell_due(*config_coin),
{
    match &config_coin.state {
        None => false,
        Some(state) => {
            let happy_floor = Ratio { negative: false, num: 25, den: 1000 };
            let hammi_floor = Ratio { negative: false, num: 282, den: 100000 };
            let fixed_drop = Ratio { negative: false, num: 5, den: 100 };
            let happy = name_is(&config_coin.name, "sol-happy");
            let hammi = name_is(&config_coin.name, "sol-hammi");
            if happy && happy_floor.less_than(&state.highest)
                && state.current_price.is_below_lowered(&state.highest, &fixed_drop) {
                return true;
            }
            if happy && happy_floor.less_than(&state.highest) {
                return true;
            }
            if hammi && hammi_floor.less_than(&state.highest)
                && state.current_price.is_below_lowered(&state.highest, &fixed_drop) {
                return true;
            }
            if hammi && hammi_floor.less_than(&state.highest) && state.current_price.less_than(
                &hammi_floor,
            ) {
                return true;
            }
            state.current_price.is_below_lowered(&state.highest, &config_coin.range)
        },
    }
}

/// Feeds one quote to an entry: a quote with a price (see `quote_price_of`)
/// updates the remembered prices (see `tracked_state`), and the result tells
/// whether the updated entry calls for a trade (see `trade_due`). A quote
/// without a price changes nothing and calls for nothing.
pub fn grid_function(response: &Quote, config_coin: &mut BotGridConfigType) -> (r: bool)
    ensures
        *final(config_coin) == after_quote(*old(config_coin), *response),
        r == quote_signals(*old(config_coin), *response),
{
    let side = config_coin.buy_or_sell;
    let current_price = match quote_price(response, side) {
        None => return false,
        Some(p) => p,
    };
    let new_state = match &config_coin.state {
        None => AppStateType {
            lowest: current_price,
            highest: current_price,
            current_price,
            nb_output_if_i_sell: current_price,
        },
        Some(state) => AppStateType {
            lowest: if current_price.less_than(&state.lowest) {
                current_price
            } else {
                state.lowest
            },
            highest: if state.highest.less_than(&current_price) {
                current_price
            } else {
                state.highest
            },
            current_price,
            nb_output_if_i_sell: current_price,
        },
    };
    config_coin.state = Some(new_state);
    let valid = match config_coin.is_valid {
        Some(v) => v,
        None => false,
    };
    if !valid {
        return false;
    }
    match side {
        BuyOrSell::Buy => buy_condition(config_coin),
        BuyOrSell::Sell => sell_condition(config_coin),
    }
}

/// Law: once an entry has seen a priced quote, its current price lies between
/// its lowest and highest prices, whatever it remembered before.
pub proof fn lemma_current_within_extremes(prev: Option<AppStateType>, p: Ratio)
    ensures
        ratio_le(tracked_state(prev, p).lowest, tracked_state(prev, p).current_price),
        ratio_le(tracked_state(prev, p).current_price, tracked_state(prev, p).highest),
{
}

/// Law: the highest price never falls and the lowest price never rises as
/// quotes come in.
pub proof fn lemma_extremes_widen(s: AppStateType, p: Ratio)
    ensures
        ratio_le(s.highest, tracked_state(Some(s), p).highest),
        ratio_le(tracked_state(Some(s), p).lowest, s.lowest),
{
}

/// Law: an entry that is not marked valid never calls for a trade.
pub proof fn lemma_only_valid_entries_trade(c: BotGridConfigType, q: Quote)
    requires
        c.is_valid != Some(true),
    ensures
        !quote_signals(c, q),
{
}

/// Law: a quote changes nothing of an entry but its remembered prices.
pub proof fn lemma_quote_touches_only_state(c: BotGridConfigType, q: Quote)
    ensures
        after_quote(c, q).is_valid == c.is_valid,
        after_quote(c, q).name == c.name,
        after_quote(c, q).decimals == c.decimals,
        after_quote(c, q).token_amount == c.token_amount,
        after_quote(c, q).sol_amount == c.sol_amount,
        after_quote(c, q).contract_address == c.contract_address,
        after_quote(c, q).strategy == c.strategy,
        after_quote(c, q).buy_or_sell == c.buy_or_sell,
        after_quote(c, q).range == c.range,
{
}

/// Law: with a nonnegative range and nonnegative remembered prices, a buy is
/// only due once the current price is above the lowest price, and a sale
/// called for by the entry's range only once the current price is below the
/// highest price.
pub proof fn lemma_signals_follow_moves(c: BotGridConfigType)
    requires
        c.range.valid(),
        c.state is Some,
        c.state->0.lowest.valid(),
        c.state->0.highest.valid(),
        c.state->0.current_price.valid(),
        c.range.numer() >= 0,
        c.state->0.lowest.numer() >= 0,
        c.state->0.highest.numer() >= 0,
    ensures
        buy_due(c) ==> ratio_lt(c.state->0.lowest, c.state->0.current_price),
        below_lowered(c.state->0.current_price, c.state->0.highest, c.range) ==> ratio_lt(
            c.state->0.current_price,
            c.state->0.highest,
        ),
{
    let s = c.state->0;
    crate::ratio::lemma_moves_are_away_from_base(s.current_price, s.lowest, c.range);
    crate::ratio::lemma_moves_are_away_from_base(s.current_price, s.highest, c.range);
}

/// The price of a quote with nonzero amounts, written out: SOL over tokens,
/// whichever side of the quote the SOL is on.
pub open spec fn priced_at(q: Quote, side: BuyOrSell) -> Ratio {
    match side {
        BuyOrSell::Sell => Ratio { negative: false, num: q.out_amount, den: q.in_amount },
        BuyOrSell::Buy => Ratio { negative: false, num: q.in_amount, den: q.out_amount },
    }
}

/// Law: a quote with nonzero amounts is always remembered, whether or not it
/// calls for a trade: it becomes the current price; the first price seen also
/// becomes the lowest and highest prices; after that the lowest price is the
/// smaller of the old lowest and the new price, and the highest the larger of
/// the old highest and the new price. Nothing else of the entry changes. A
/// quote with a zero amount changes nothing.
pub proof fn lemma_quote_is_remembered(c: BotGridConfigType, q: Quote)
    ensures
        (q.in_amount == 0 || q.out_amount == 0) ==> after_quote(c, q) == c,
        (q.in_amount > 0 && q.out_amount > 0) ==> ({
            let p = priced_at(q, c.buy_or_sell);
            let e = after_quote(c, q);
            &&& e == BotGridConfigType { state: e.state, ..c }
            &&& e.state matches Some(s2) && {
                &&& s2.current_price == p
                &&& s2.nb_output_if_i_sell == p
                &&& (c.state is None ==> s2.lowest == p && s2.highest == p)
                &&& (c.state matches Some(s) ==> {
                    &&& (s2.lowest == s.lowest || s2.lowest == p)
                    &&& ratio_le(s2.lowest, s.lowest)
                    &&& ratio_le(s2.lowest, p)
                    &&& (s2.highest == s.highest || s2.highest == p)
                    &&& ratio_le(s.highest, s2.highest)
                    &&& ratio_le(p, s2.highest)
                })
            }
        }),
{
}

/// Law: an entry with remembered prices and a name other than "sol-happy" and
/// "sol-hammi" is due to buy exactly when its current price is above its
/// lowest price raised by its range; its highest price plays no part.
pub proof fn lemma_buy_due_exactly_when_risen(c: BotGridConfigType, other_highest: Ratio)
    requires
        c.state is Some,
        c.name@ != "sol-happy"@,
        c.name@ != "sol-hammi"@,
    ensures
        buy_due(c) <==> above_raised(c.state->0.current_price, c.state->0.lowest, c.range),
        buy_due(c) == buy_due(
            BotGridConfigType {
                state: Some(AppStateType { highest: other_highest, ..c.state->0 }),
                ..c
            },
        ),
{
}

/// Law: an entry without remembered prices, or named "sol-happy" or
/// "sol-hammi", never buys.
pub proof fn lemma_buy_never_due(c: BotGridConfigType)
    requires
        c.state is None || c.name@ == "sol-happy"@ || c.name@ == "sol-hammi"@,
    ensures
        !buy_due(c),
{
}

/// Law: a sale is due whenever the current price is below the highest price
/// lowered by the entry's range, whatever the entry's name and its lowest
/// price. For names other than "sol-happy" and "sol-hammi" that is the only
/// way a sale becomes due; "sol-happy" also sells once its highest price is
/// above 0.025, and "sol-hammi", once its highest price is above 0.00282,
/// also sells on a 5% fall from it or below 0.00282. The lowest price plays no
/// part, and nothing sells without remembered prices.
pub proof fn lemma_sell_due_exactly_when_fallen(c: BotGridConfigType, other_lowest: Ratio)
    ensures
        c.state is None ==> !sell_due(c),
        c.state matches Some(s) ==> {
            let fell = below_lowered(s.current_price, s.highest, c.range);
            let five = Ratio { negative: false, num: 5, den: 100 };
            let happy = Ratio { negative: false, num: 25, den: 1000 };
            let hammi = Ratio { negative: false, num: 282, den: 100000 };
            &&& fell ==> sell_due(c)
            &&& (c.name@ != "sol-happy"@ && c.name@ != "sol-hammi"@) ==> (sell_due(c) <==> fell)
            &&& c.name@ == "sol-happy"@ ==> (sell_due(c) <==> (fell || ratio_lt(happy, s.highest)))
            &&& c.name@ == "sol-hammi"@ ==> (sell_due(c) <==> (fell || (ratio_lt(hammi, s.highest)
                && (below_lowered(s.current_price, s.highest, five) || ratio_lt(
                s.current_price,
                hammi,
            )))))
            &&& sell_due(c) == sell_due(
                BotGridConfigType { state: Some(AppStateType { lowest: other_lowest, ..s }), ..c },
            )
        },
{
    reveal_strlit("sol-happy");
    reveal_strlit("sol-hammi");
    assert("sol-happy"@[6] != "sol-hammi"@[6]);
}

} // verus!
