//! The bot's configuration: one entry per traded token, as the JSON
//! configuration file holds it, with prices and ranges kept as exact ratios.
use vstd::prelude::*;
use crate::ratio::Ratio;
use vstd::arithmetic::power::pow;

verus! {

/// Which strategy an entry follows.
#[derive(Clone, Copy, Debug, PartialEq, Eq, Structural)]
pub enum StrategyType {
    Grid,
    MeanReversion,
    Momentum,
}

/// The next trade an entry waits for: buy the token with SOL, or sell it for SOL.
#[derive(Clone, Copy, Debug, PartialEq, Eq, Structural)]
pub enum BuyOrSell {
    Buy,
    Sell,
}

/// A limit expressed as a ratio.
#[derive(Clone, Copy, Debug, PartialEq, Eq, Structural)]
pub struct RangeLimitType {
    pub limit: Ratio,
}

/// What the grid strategy remembers of the prices it has seen since the last trade.
#[derive(Clone, Copy, Debug, PartialEq, Eq, Structural)]
pub struct AppStateType {
    /// The lowest price seen.
    pub lowest: Ratio,
    /// The highest price seen.
    pub highest: Ratio,
    /// The last price seen.
    pub current_price: Ratio,
    /// The last price seen, kept a second time.
    pub nb_output_if_i_sell: Ratio,
}

/// One traded token.
#[derive(Clone, Debug, PartialEq, Eq)]
pub struct BotGridConfigType {
    /// Only entries with `Some(true)` ever trade.
    pub is_valid: Option<bool>,
    pub name: String,
    pub decimals: Option<u8>,
    /// Tokens held, in the token's smallest unit.
    pub token_amount: Option<u64>,
    /// SOL held for this entry, in lamports.
    pub sol_amount: Option<u64>,
    /// The token's mint address, in base58.
    pub contract_address: String,
    pub strategy: StrategyType,
    pub buy_or_sell: BuyOrSell,
    /// The relative move that triggers a trade.
    pub range: Ratio,
    pub state: Option<AppStateType>,
}

/// The whole configuration file.
#[derive(Clone, Debug, PartialEq, Eq)]
pub struct MainConfig {
    pub config: Vec<BotGridConfigType>,
    pub interval_second_main_loop: u64,
}

/// What happens to the configuration file when the bot saves its configuration.
#[derive(Clone, Copy, Debug, PartialEq, Eq, Structural)]
pub enum ConfigFileUpdate {
    /// The current configuration is written to the file.
    Write,
    /// The file already holds the current configuration; it is left alone.
    Unchanged,
    /// The file could not be read back as a configuration; it is left alone.
    Unreadable,
}

/// Decides whether the configuration file is rewritten. `existing` is the
/// configuration read back from the file, serialized again (`None` when the
/// file could not be read as a configuration); `current` is the configuration
/// in memory, serialized the same way. The file is rewritten when it could be
/// read and either `force_update` is set or the two serializations differ.
pub fn update_config_file_compare_to_main_config(
    existing: &Option<String>,
    current: &String,
    force_update: bool,
) -> (r: ConfigFileUpdate)
    ensures
        existing is None ==> r == ConfigFileUpdate::Unreadable,
        existing matches Some(e) ==> (r == ConfigFileUpdate::Write <==> (force_update || e@
            != current@)),
        existing matches Some(e) ==> (r == ConfigFileUpdate::Unchanged <==> (!force_update
            && e@ == current@)),
{
    match existing {
        None => ConfigFileUpdate::Unreadable,
        Some(e) => {
            if force_update || *e != *current {
                ConfigFileUpdate::Write
            } else {
                ConfigFileUpdate::Unchanged
            }
        },
    }
}

/// A token account of the wallet: its mint, its decimals, and the amount it
/// holds in the token's smallest unit.
#[derive(Clone, Debug, PartialEq, Eq)]
pub struct TokenBalance {
    pub mint: String,
    pub decimals: u8,
    pub amount: u64,
}

/// Whether entry `i` is the first entry of `cfgs` for the token `mint`.
pub open spec fn first_entry_for(cfgs: Seq<BotGridConfigType>, mint: Seq<char>, i: int) -> bool {
    &&& 0 <= i < cfgs.len()
    &&& cfgs[i].contract_address@ == mint
    &&& forall|j: int| 0 <= j < i ==> cfgs[j].contract_address@ != mint
}

/// The last balance of `bs` for the token `mint`, if any.
pub open spec fn last_balance(bs: Seq<TokenBalance>, mint: Seq<char>) -> Option<TokenBalance>
    decreases bs.len(),
{
    if bs.len() == 0 {
        None
    } else if bs.last().mint@ == mint {
        Some(bs.last())
    } else {
        last_balance(bs.drop_last(), mint)
    }
}

/// An entry once it has taken the decimals and the amount of a balance.
pub open spec fn with_balance(c: BotGridConfigType, b: TokenBalance) -> BotGridConfigType {
    BotGridConfigType { decimals: Some(b.decimals), token_amount: Some(b.amount), ..c }
}

/// Entry `i` of `cfgs` once the balances `bs` have been applied: the first entry
/// for a token takes the last balance for that token; every other entry is left
/// as it was.
pub open spec fn entry_after_balances(
    cfgs: Seq<BotGridConfigType>,
    bs: Seq<TokenBalance>,
    i: int,
) -> BotGridConfigType {
    if first_entry_for(cfgs, cfgs[i].contract_address@, i) {
        match last_balance(bs, cfgs[i].contract_address@) {
            Some(b) => with_balance(cfgs[i], b),
            None => cfgs[i],
        }
    } else {
        cfgs[i]
    }
}

/// The index of the first entry whose contract address is `mint`, if any.
fn find_first_entry(cfgs: &Vec<BotGridConfigType>, mint: &String) -> (r: Option<usize>)
    ensures
        r matches Some(i) ==> first_entry_for(cfgs@, mint@, i as int),
        r is None ==> forall|i: int| 0 <= i < cfgs@.len() ==> cfgs@[i].contract_address@ != mint@,
{
    for j in 0..cfgs.len()
        invariant
            forall|i: int| 0 <= i < j ==> cfgs@[i].contract_address@ != mint@,
    {
        if cfgs[j].contract_address == *mint {
            return Some(j);
        }
    }
    None
}

/// Applies the wallet's token balances to the configuration, in order: each
/// balance goes to the first entry whose contract address is the balance's
/// mint (see `entry_after_balances`).
pub fn apply_token_balances(main: &mut MainConfig, balances: &Vec<TokenBalance>)
    ensures
        final(main).interval_second_main_loop == old(main).interval_second_main_loop,
        final(main).config.len() == old(main).config.len(),
        forall|i: int|
            0 <= i < old(main).config.len() ==> #[trigger] final(main).config@[i]
                == entry_after_balances(old(main).config@, balances@, i),
{
    let ghost cfgs0 = main.config@;
    let n = main.config.len();
    proof {
        assert forall|i: int| 0 <= i < n implies #[trigger] main.config@[i] == entry_after_balances(
            cfgs0,
            balances@.take(0),
            i,
        ) by {
            assert(last_balance(balances@.take(0), cfgs0[i].contract_address@) is None);
        }
    }
    for k in 0..balances.len()
        invariant
            n == main.config.len(),
            n == cfgs0.len(),
            main.interval_second_main_loop == old(main).interval_second_main_loop,
            cfgs0 == old(main).config@,
            forall|i: int|
                0 <= i < n ==> #[trigger] main.config@[i] == entry_after_balances(
                    cfgs0,
                    balances@.take(k as int),
                    i,
                ),
    {
        let b = &balances[k];
        let ghost before = main.config@;
        let ghost prefix = balances@.take(k as int);
        let ghost next = balances@.take(k + 1);
        proof {
            assert(next.drop_last() =~= prefix);
            assert(next.last() == *b);
            assert forall|i: int| 0 <= i < n implies #[trigger] before[i].contract_address
                == cfgs0[i].contract_address by {
                assert(before[i] == entry_after_balances(cfgs0, prefix, i));
            }
        }
        let found = find_first_entry(&main.config, &b.mint);
        match found {
            Some(j) => {
                main.config[j].decimals = Some(b.decimals);
                main.config[j].token_amount = Some(b.amount);
            },
            None => {},
        }
        proof {
            assert forall|i: int| 0 <= i < n implies #[trigger] main.config@[i]
                == entry_after_balances(cfgs0, next, i) by {
                let addr = cfgs0[i].contract_address@;
                assert(before[i] == entry_after_balances(cfgs0, prefix, i));
                if addr == b.mint@ {
                    assert(last_balance(next, addr) == Some(*b));
                    if first_entry_for(cfgs0, addr, i) {
                        assert(first_entry_for(before, b.mint@, i));
                        if let Some(j) = found {
                            assert(j == i) by {
                                if (j as int) < i {
                                } else if i < j {
                                    assert(before[i].contract_address@ == b.mint@);
                                }
                            }
                        }
                    } else {
                        if let Some(j) = found {
                            assert(j != i) by {
                                if j == i {
                                    assert forall|jj: int| 0 <= jj < i implies cfgs0[jj].contract_address@
                                        != addr by {
                                        assert(before[jj].contract_address
                                            == cfgs0[jj].contract_address);
                                    }
                                    assert(first_entry_for(cfgs0, addr, i));
                                }
                            }
                        }
                    }
                } else {
                    assert(last_balance(next, addr) == last_balance(prefix, addr));
                    if let Some(j) = found {
                        assert(j != i);
                    }
                }
            }
        }
    }
    proof {
        assert(balances@.take(balances.len() as int) =~= balances@);
    }
}

/// The number of smallest units in one whole token of `decimals` decimals,
/// `10^decimals`, or `None` when it does not fit in 64 bits (from 20 decimals on).
pub fn unit_multiplier(decimals: u8) -> (r: Option<u64>)
    ensures
        decimals <= 19 ==> r == Some(pow(10, decimals as nat) as u64),
        decimals > 19 ==> r is None,
{
    if decimals > 19 {
        return None;
    }
    let mut m: u64 = 1;
    let mut i: u8 = 0;
    proof {
        vstd::arithmetic::power::lemma_pow0(10);
    }
    while i < decimals
        invariant
            i <= decimals <= 19,
            m as int == pow(10, i as nat),
        decreases decimals - i,
    {
        proof {
            vstd::arithmetic::power::lemma_pow_increases(10, i as nat, 19);
            assert(pow(10, 19) == 10000000000000000000) by {
                vstd::arithmetic::power::lemma_pow_positive(10, 19);
                reveal_with_fuel(pow, 20);
            }
            vstd::arithmetic::power::lemma_pow_adds(10, i as nat, 1);
            assert(pow(10, 1) == 10) by {
                reveal_with_fuel(pow, 2);
            }
            if (i as int) < 19 {
                vstd::arithmetic::power::lemma_pow_increases(10, (i + 1) as nat, 19);
            }
        }
        m = m * 10;
        i = i + 1;
    }
    Some(m)
}

/// Law: applying balances changes nothing of an entry but its decimals and
/// its token amount, and an entry that takes a balance takes it whole.
pub proof fn lemma_balances_touch_only_amounts(
    cfgs: Seq<BotGridConfigType>,
    bs: Seq<TokenBalance>,
    i: int,
)
    requires
        0 <= i < cfgs.len(),
    ensures
        ({
            let e = entry_after_balances(cfgs, bs, i);
            &&& e.is_valid == cfgs[i].is_valid
            &&& e.name == cfgs[i].name
            &&& e.sol_amount == cfgs[i].sol_amount
            &&& e.contract_address == cfgs[i].contract_address
            &&& e.strategy == cfgs[i].strategy
            &&& e.buy_or_sell == cfgs[i].buy_or_sell
            &&& e.range == cfgs[i].range
            &&& e.state == cfgs[i].state
            &&& (e == cfgs[i] || exists|b: TokenBalance|
                b.mint@ == cfgs[i].contract_address@ && e == with_balance(cfgs[i], b))
        }),
{
    let addr = cfgs[i].contract_address@;
    if first_entry_for(cfgs, addr, i) {
        if let Some(b) = last_balance(bs, addr) {
            lemma_last_balance_is_for(bs, addr);
            assert(b.mint@ == addr && entry_after_balances(cfgs, bs, i) == with_balance(cfgs[i], b));
        }
    }
}

/// The last balance for a token is a balance for that token.
proof fn lemma_last_balance_is_for(bs: Seq<TokenBalance>, mint: Seq<char>)
    ensures
        last_balance(bs, mint) matches Some(b) ==> b.mint@ == mint,
    decreases bs.len(),
{
    if bs.len() > 0 && bs.last().mint@ != mint {
        lemma_last_balance_is_for(bs.drop_last(), mint);
    }
}

/// The last balance for a token is the one at the last index for that token.
proof fn lemma_last_balance_at(bs: Seq<TokenBalance>, mint: Seq<char>, k: int)
    requires
        0 <= k < bs.len(),
        bs[k].mint@ == mint,
        forall|j: int| k < j < bs.len() ==> bs[j].mint@ != mint,
    ensures
        last_balance(bs, mint) == Some(bs[k]),
    decreases bs.len(),
{
    if k < bs.len() - 1 {
        lemma_last_balance_at(bs.drop_last(), mint, k);
    }
}

/// With no balance for a token there is no last balance for it.
proof fn lemma_no_last_balance(bs: Seq<TokenBalance>, mint: Seq<char>)
    requires
        forall|j: int| 0 <= j < bs.len() ==> bs[j].mint@ != mint,
    ensures
        last_balance(bs, mint) is None,
    decreases bs.len(),
{
    if bs.len() > 0 {
        lemma_no_last_balance(bs.drop_last(), mint);
    }
}

/// Law: after the balances are applied, the first entry for a token holds the
/// decimals and the amount of the last balance for that token, whatever that
/// amount is, zero included; with no balance for its token, and for any entry
/// after the first one for its token, an entry is left as it was.
pub proof fn lemma_first_entry_takes_last_balance(
    cfgs: Seq<BotGridConfigType>,
    bs: Seq<TokenBalance>,
    i: int,
    k: int,
)
    requires
        0 <= i < cfgs.len(),
    ensures
        (exists|j: int| 0 <= j < i && cfgs[j].contract_address@ == cfgs[i].contract_address@)
            ==> entry_after_balances(cfgs, bs, i) == cfgs[i],
        (forall|j: int| 0 <= j < bs.len() ==> bs[j].mint@ != cfgs[i].contract_address@)
            ==> entry_after_balances(cfgs, bs, i) == cfgs[i],
        ((forall|j: int| 0 <= j < i ==> cfgs[j].contract_address@ != cfgs[i].contract_address@)
            && 0 <= k < bs.len() && bs[k].mint@ == cfgs[i].contract_address@ && (forall|j: int|
            k < j < bs.len() ==> bs[j].mint@ != cfgs[i].contract_address@)) ==> ({
            let e = entry_after_balances(cfgs, bs, i);
            &&& e.token_amount == Some(bs[k].amount)
            &&& e.decimals == Some(bs[k].decimals)
            &&& e == (BotGridConfigType { token_amount: e.token_amount, decimals: e.decimals, ..cfgs[i] })
        }),
{
    let addr = cfgs[i].contract_address@;
    if forall|j: int| 0 <= j < bs.len() ==> bs[j].mint@ != addr {
        lemma_no_last_balance(bs, addr);
    }
    if 0 <= k < bs.len() && bs[k].mint@ == addr && (forall|j: int| k < j < bs.len() ==> bs[j].mint@ != addr) {
        lemma_last_balance_at(bs, addr, k);
    }
}

} // verus!
