//! The token monitor: it watches a coin's price every minute until its
//! notifications are muted, keeps the prices seen in a time window in the
//! coin's history, and tells when the price jumps.
use vstd::prelude::*;
use crate::ratio::{Ratio, rose_by_at_least};
use crate::types::{Coin, CoinHistory, DiscordSettings};

verus! {

/// Seconds between two observations.
pub const MONITOR_INTERVAL_SECS: u64 = 60;

/// Start of the window (seconds since monitoring began) whose prices are kept.
pub const HISTORY_WINDOW_START_SECS: u64 = 300;

/// End of the window (seconds since monitoring began) whose prices are kept.
pub const HISTORY_WINDOW_END_SECS: u64 = 350;

/// A rise of the price by at least this much between two observations is news.
pub const ALERT_RISE: u64 = 500;

/// The token monitor.
#[derive(Clone, Copy, Debug, PartialEq, Eq, Structural)]
pub struct Bot {}

/// Whether an observation made `elapsed` seconds after monitoring began goes
/// into the history (`None` when the clock went backwards).
pub open spec fn in_history_window(elapsed: Option<u64>) -> bool {
    elapsed matches Some(e) && HISTORY_WINDOW_START_SECS <= e <= HISTORY_WINDOW_END_SECS
}

impl Bot {
    /// Whether monitoring goes on: until the coin's notifications are muted.
    pub fn keeps_monitoring(&self, settings: &DiscordSettings) -> (r: bool)
        ensures
            r == !settings.muted,
    {
        !settings.muted
    }

    /// Takes one observation of `current` (the price before it was `previous`),
    /// made at `now_secs`/`now_nanos`, `elapsed_secs` seconds after monitoring
    /// began: inside the history window the price is appended to the coin's
    /// history, with no SOL price. The result tells whether the price rose by
    /// at least `ALERT_RISE` since the previous observation.
    pub fn observe(
        &self,
        coin: &mut Coin,
        elapsed_secs: Option<u64>,
        now_secs: u64,
        now_nanos: u32,
        previous: &Ratio,
        current: &Ratio,
    ) -> (alert: bool)
        ensures
            final(coin).mint_address == old(coin).mint_address,
            final(coin).mint_symbol == old(coin).mint_symbol,
            final(coin).token_amount == old(coin).token_amount,
            final(coin).price == old(coin).price,
            final(coin).price_sol == old(coin).price_sol,
            in_history_window(elapsed_secs) ==> final(coin).history@ == old(coin).history@.push(
                CoinHistory {
                    price: *current,
                    price_sol: Ratio { negative: false, num: 0, den: 1 },
                    time_secs: now_secs,
                    time_nanos: now_nanos,
                },
            ),
            !in_history_window(elapsed_secs) ==> final(coin).history@ == old(coin).history@,
            alert == rose_by_at_least(*current, *previous, ALERT_RISE as int),
    {
        match elapsed_secs {
            Some(seconds) => {
                if HISTORY_WINDOW_START_SECS <= seconds && seconds <= HISTORY_WINDOW_END_SECS {
                    coin.history.push(
                        CoinHistory {
                            price: *current,
                            price_sol: Ratio { negative: false, num: 0, den: 1 },
                            time_secs: now_secs,
                            time_nanos: now_nanos,
                        },
                    );
                }
            },
            None => {},
        }
        current.rose_by_at_least(previous, ALERT_RISE)
    }
}

} // verus!
