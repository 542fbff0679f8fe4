//! The ledger of pending trades: sizing and recording of opportunities, and
//! the settlement of trades whose markets have both closed.

use crate::config::TradingConfig;
use crate::decimal::{
    checked_add, checked_div, checked_mul, checked_sub, decimal_difference, decimal_product,
    decimal_quotient, decimal_sum, decimal_text, decimal_text_fixed, difference_is_exact,
    less_than, pow10, product_is_exact, sum_is_exact, to_text, to_text_fixed, Decimal,
};
use crate::models::{
    ArbitrageOpportunity, MarketDetails, MarketToken, OrderRequest, PendingTrade,
};
use crate::text::{contains_text, listed, no_repeats};
use vstd::prelude::*;

verus! {

/// Why an opportunity was not recorded.
#[derive(Debug, Clone, Copy, PartialEq, Eq, Structural)]
pub enum TradeError {
    /// No position size or unit count exists for the opportunity's cost.
    Unsizable,
    /// The totals of the pair's entry cannot take the new amounts.
    Overflow,
}

/// The dollars put into one opportunity: what the largest position buys in
/// whole and fractional units, priced again, and never more than the largest
/// position. Nothing where the decimal division or multiplication has no
/// result.
pub open spec fn spec_position_size(max_size: Decimal, cost_per_unit: Decimal) -> Option<Decimal> {
    match decimal_quotient(max_size, cost_per_unit) {
        None => None,
        Some(affordable) => match decimal_product(affordable, cost_per_unit) {
            None => None,
            Some(spend) => Some(spec_capped(max_size, spend)),
        },
    }
}

/// The smaller of the largest position and what the affordable units cost;
/// the latter where both are the same number.
pub open spec fn spec_capped(max_size: Decimal, spend: Decimal) -> Decimal {
    if max_size.units() < spend.units() {
        max_size
    } else {
        spend
    }
}

/// The smaller of two integers.
pub open spec fn smaller(x: int, y: int) -> int {
    if x < y {
        x
    } else {
        y
    }
}

/// Decimal places of the size of an order.
pub const ORDER_SIZE_PLACES: usize = 6;

/// The position size and the units bought for an opportunity's cost.
pub open spec fn spec_sizing(max_size: Decimal, cost_per_unit: Decimal) -> Option<
    (Decimal, Decimal),
> {
    match spec_position_size(max_size, cost_per_unit) {
        None => None,
        Some(position) => match decimal_quotient(position, cost_per_unit) {
            None => None,
            Some(units) => Some((position, units)),
        },
    }
}

/// The pair of condition identifiers that a trade is kept under.
pub open spec fn trade_key(trade: PendingTrade) -> (Seq<char>, Seq<char>) {
    (trade.sol_condition_id@, trade.btc_condition_id@)
}

/// No two trades are kept under the same pair.
pub open spec fn distinct_keys(trades: Seq<PendingTrade>) -> bool {
    forall|i: int, j: int|
        0 <= i < j < trades.len() ==> trade_key(#[trigger] trades[i]) != trade_key(
            #[trigger] trades[j],
        )
}

/// The place of the trade kept under a pair, if there is one.
pub open spec fn has_key_at(trades: Seq<PendingTrade>, key: (Seq<char>, Seq<char>), i: int) -> bool {
    0 <= i < trades.len() && trade_key(trades[i]) == key
}

/// An order as the text of its five fields.
pub open spec fn order_view(order: OrderRequest) -> (
    Seq<char>,
    Seq<char>,
    Seq<char>,
    Seq<char>,
    Seq<char>,
) {
    (order.token_id@, order.side@, order.size@, order.price@, order.order_type@)
}

/// Orders as the texts of their fields.
pub open spec fn order_views(orders: Seq<OrderRequest>) -> Seq<
    (Seq<char>, Seq<char>, Seq<char>, Seq<char>, Seq<char>),
> {
    orders.map_values(|o: OrderRequest| order_view(o))
}

/// What brings the text of a decimal of at most three places to six places:
/// the point after a whole number, and zeros.
pub open spec fn size_padding(scale: u32) -> Seq<char> {
    if scale == 0 {
        ".000000"@
    } else if scale == 1 {
        "00000"@
    } else if scale == 2 {
        "0000"@
    } else {
        "000"@
    }
}

/// The size of an order as text with six decimal places. A whole part of up
/// to 25 digits is printed at six places as it is. A longer one comes with
/// at most three places, which are all printed and filled up with zeros.
pub open spec fn spec_size_text(size: Decimal) -> Seq<char> {
    if size.printable() {
        decimal_text_fixed(size, ORDER_SIZE_PLACES as nat)
    } else {
        decimal_text(size) + size_padding(size.scale)
    }
}

/// A limit buy of one leg.
pub open spec fn spec_buy_order(token_id: Seq<char>, position: Decimal, price: Decimal) -> (
    Seq<char>,
    Seq<char>,
    Seq<char>,
    Seq<char>,
    Seq<char>,
) {
    (token_id, "BUY"@, spec_size_text(position), decimal_text(price), "LIMIT"@)
}

/// The buy orders for an opportunity: none in simulation, else one per leg,
/// the SOL leg first.
pub open spec fn spec_buy_orders(
    simulation: bool,
    opportunity: ArbitrageOpportunity,
    position: Decimal,
) -> Seq<(Seq<char>, Seq<char>, Seq<char>, Seq<char>, Seq<char>)> {
    if simulation {
        Seq::empty()
    } else {
        seq![
            spec_buy_order(opportunity.sol_up_token_id@, position, opportunity.sol_up_price),
            spec_buy_order(opportunity.btc_down_token_id@, position, opportunity.btc_down_price),
        ]
    }
}

/// The trade opened by the first opportunity of a pair.
pub open spec fn fresh_trade(
    opportunity: ArbitrageOpportunity,
    position: Decimal,
    units: Decimal,
    now: u64,
) -> PendingTrade {
    PendingTrade {
        sol_token_id: opportunity.sol_up_token_id,
        btc_token_id: opportunity.btc_down_token_id,
        sol_condition_id: opportunity.sol_condition_id,
        btc_condition_id: opportunity.btc_condition_id,
        investment_amount: position,
        units,
        timestamp: now,
    }
}

/// A pending trade with further units and dollars added to its totals by
/// decimal addition; nothing where either addition has no result.
pub open spec fn accumulated(trade: PendingTrade, position: Decimal, units: Decimal) -> Option<
    PendingTrade,
> {
    match (decimal_sum(trade.units, units), decimal_sum(trade.investment_amount, position)) {
        (Some(total_units), Some(total_invested)) => Some(
            PendingTrade { units: total_units, investment_amount: total_invested, ..trade },
        ),
        _ => None,
    }
}

/// The pair of condition identifiers that an opportunity is recorded under.
pub open spec fn opportunity_key(opportunity: ArbitrageOpportunity) -> (Seq<char>, Seq<char>) {
    (opportunity.sol_condition_id@, opportunity.btc_condition_id@)
}

/// Some trade is pending for the pair.
pub open spec fn has_key(trades: Seq<PendingTrade>, key: (Seq<char>, Seq<char>)) -> bool {
    exists|i: int| has_key_at(trades, key, i)
}

/// The ledger after an amount is recorded for an opportunity: added to the
/// pair's pending trade where there is one, else a new trade at the end.
pub open spec fn spec_recorded(
    trades: Seq<PendingTrade>,
    opportunity: ArbitrageOpportunity,
    position: Decimal,
    units: Decimal,
    now: u64,
) -> Result<Seq<PendingTrade>, TradeError> {
    let key = opportunity_key(opportunity);
    if has_key(trades, key) {
        let i = choose|i: int| has_key_at(trades, key, i);
        match accumulated(trades[i], position, units) {
            Some(trade) => Ok(trades.update(i, trade)),
            None => Err(TradeError::Overflow),
        }
    } else {
        Ok(trades.push(fresh_trade(opportunity, position, units, now)))
    }
}

/// The outcome of recording an opportunity: the new ledger with the
/// position size and the units, or the reason why nothing was recorded.
pub open spec fn spec_execute(
    trades: Seq<PendingTrade>,
    max_size: Decimal,
    opportunity: ArbitrageOpportunity,
    now: u64,
) -> Result<(Seq<PendingTrade>, Decimal, Decimal), TradeError> {
    match spec_sizing(max_size, opportunity.total_cost) {
        None => Err(TradeError::Unsizable),
        Some((position, units)) => match spec_recorded(trades, opportunity, position, units, now) {
            Ok(ledger) => Ok((ledger, position, units)),
            Err(e) => Err(e),
        },
    }
}

/// Two opportunities recorded for one pair of condition identifiers share
/// one trade: the second recording opens none, leaves every other trade as
/// it was, and puts into the pair's trade the decimal sums of the units and
/// of the dollars. Where the pair had no trade before, the sums are those of
/// the two recordings.
pub proof fn lemma_recorded_twice(
    trades: Seq<PendingTrade>,
    max_size: Decimal,
    first: ArbitrageOpportunity,
    second: ArbitrageOpportunity,
    now1: u64,
    now2: u64,
)
    requires
        distinct_keys(trades),
        opportunity_key(first) == opportunity_key(second),
        spec_execute(trades, max_size, first, now1) is Ok,
        spec_execute(spec_execute(trades, max_size, first, now1)->Ok_0.0, max_size, second, now2)
            is Ok,
    ensures
        ({
            let (once, position1, units1) = spec_execute(trades, max_size, first, now1)->Ok_0;
            let (twice, position2, units2) = spec_execute(once, max_size, second, now2)->Ok_0;
            let key = opportunity_key(first);
            &&& distinct_keys(once)
            &&& distinct_keys(twice)
            &&& twice.len() == once.len()
            &&& exists|i: int|
                {
                    &&& has_key_at(once, key, i)
                    &&& #[trigger] has_key_at(twice, key, i)
                    &&& Some(twice[i].units) == decimal_sum(once[i].units, units2)
                    &&& Some(twice[i].investment_amount) == decimal_sum(
                        once[i].investment_amount,
                        position2,
                    )
                    &&& forall|j: int| 0 <= j < once.len() && j != i ==> twice[j] == once[j]
                    &&& !has_key(trades, key) ==> once[i].units == units1
                        && once[i].investment_amount == position1
                }
        }),
{
    let key = opportunity_key(first);
    let (once, position1, units1) = spec_execute(trades, max_size, first, now1)->Ok_0;
    let (twice, position2, units2) = spec_execute(once, max_size, second, now2)->Ok_0;
    lemma_recorded_keeps_keys(trades, first, position1, units1, now1);
    lemma_recorded_keeps_keys(once, second, position2, units2, now2);
    if has_key(trades, key) {
        let c = choose|c: int| has_key_at(trades, key, c);
        assert(has_key_at(once, key, c));
    } else {
        assert(has_key_at(once, key, trades.len() as int));
    }
    assert(has_key(once, key));
    let i = choose|i: int| has_key_at(once, key, i);
    assert(has_key_at(twice, key, i));
}

/// Recording keeps the pairs of the ledger distinct.
pub proof fn lemma_recorded_keeps_keys(
    trades: Seq<PendingTrade>,
    opportunity: ArbitrageOpportunity,
    position: Decimal,
    units: Decimal,
    now: u64,
)
    requires
        distinct_keys(trades),
        spec_recorded(trades, opportunity, position, units, now) is Ok,
    ensures
        distinct_keys(spec_recorded(trades, opportunity, position, units, now)->Ok_0),
{
    let key = opportunity_key(opportunity);
    let after = spec_recorded(trades, opportunity, position, units, now)->Ok_0;
    if has_key(trades, key) {
        let c = choose|c: int| has_key_at(trades, key, c);
        assert forall|a: int, b: int| 0 <= a < b < after.len() implies trade_key(
            #[trigger] after[a],
        ) != trade_key(#[trigger] after[b]) by {
            assert(trade_key(after[a]) == trade_key(trades[a]));
            assert(trade_key(after[b]) == trade_key(trades[b]));
        }
    } else {
        assert forall|a: int, b: int| 0 <= a < b < after.len() implies trade_key(
            #[trigger] after[a],
        ) != trade_key(#[trigger] after[b]) by {
            if b == trades.len() {
                assert(!has_key_at(trades, key, a));
            } else {
                assert(trade_key(trades[a]) != trade_key(trades[b]));
            }
        }
    }
}

/// The trade at `i` took the amounts: the ledger kept its length, and each
/// of the trade's two totals is the old total plus the amount wherever that
/// sum is an exact decimal.
pub open spec fn added_at(
    before: Seq<PendingTrade>,
    after: Seq<PendingTrade>,
    i: int,
    position: Decimal,
    units: Decimal,
) -> bool {
    &&& after.len() == before.len()
    &&& sum_is_exact(before[i].units, units) ==> after[i].units.units() == before[i].units.units()
        + units.units()
    &&& sum_is_exact(before[i].investment_amount, position)
        ==> after[i].investment_amount.units() == before[i].investment_amount.units()
        + position.units()
}

/// A count one higher, held at the largest value.
pub open spec fn counted(n: u64) -> u64 {
    if n < u64::MAX {
        (n + 1) as u64
    } else {
        n
    }
}

/// Seconds before which a pending trade is not looked at: the markets close
/// after fifteen minutes.
pub const MIN_SETTLEMENT_AGE_SECS: u64 = 840;

/// Seconds for which fetched market metadata is used again.
pub const CACHE_TTL_SECS: u64 = 60;

/// The seconds from `since` to `now`, zero where `now` is the earlier.
pub open spec fn age(now: u64, since: u64) -> int {
    if now >= since {
        now - since
    } else {
        0
    }
}

/// A trade is old enough to be looked at.
pub open spec fn eligible(trade: PendingTrade, now: u64) -> bool {
    age(now, trade.timestamp) >= MIN_SETTLEMENT_AGE_SECS
}

/// The token at `i` is the first with the given identifier.
pub open spec fn first_token_at(tokens: Seq<MarketToken>, token_id: Seq<char>, i: int) -> bool {
    &&& 0 <= i < tokens.len()
    &&& tokens[i].token_id@ == token_id
    &&& forall|j: int| 0 <= j < i ==> (#[trigger] tokens[j]).token_id@ != token_id
}

/// The winner flag of the first token with the given identifier, false
/// where there is no such token.
pub open spec fn spec_winner(tokens: Seq<MarketToken>, token_id: Seq<char>) -> bool {
    exists|i: int| first_token_at(tokens, token_id, i) && (#[trigger] tokens[i]).winner
}

/// Whether a market is closed, and whether the token won in it: never in an
/// open market.
pub open spec fn spec_market_result(market: MarketDetails, token_id: Seq<char>) -> (bool, bool) {
    if market.closed {
        (true, spec_winner(market.tokens@, token_id))
    } else {
        (false, false)
    }
}

/// The entry at `i` holds the metadata of the condition identifier and is
/// younger than the time to live.
pub open spec fn fresh_entry_at(
    cache: Seq<CachedMarketData>,
    condition_id: Seq<char>,
    now: u64,
    i: int,
) -> bool {
    &&& 0 <= i < cache.len()
    &&& cache[i].condition_id@ == condition_id
    &&& age(now, cache[i].cached_at) < CACHE_TTL_SECS
}

/// Metadata of the condition identifier is held and younger than the time
/// to live.
pub open spec fn has_fresh_entry(cache: Seq<CachedMarketData>, condition_id: Seq<char>, now: u64) -> bool {
    exists|i: int| fresh_entry_at(cache, condition_id, now, i)
}

/// What is known of one leg: the result of its market where fresh metadata
/// is held, else not closed and no winner.
pub open spec fn spec_leg_result(
    cache: Seq<CachedMarketData>,
    condition_id: Seq<char>,
    token_id: Seq<char>,
    now: u64,
) -> (bool, bool) {
    if has_fresh_entry(cache, condition_id, now) {
        let i = choose|i: int| fresh_entry_at(cache, condition_id, now, i);
        spec_market_result(cache[i].market, token_id)
    } else {
        (false, false)
    }
}

/// What is known of a trade's SOL leg.
pub open spec fn sol_result(trade: PendingTrade, cache: Seq<CachedMarketData>, now: u64) -> (
    bool,
    bool,
) {
    spec_leg_result(cache, trade.sol_condition_id@, trade.sol_token_id@, now)
}

/// What is known of a trade's BTC leg.
pub open spec fn btc_result(trade: PendingTrade, cache: Seq<CachedMarketData>, now: u64) -> (
    bool,
    bool,
) {
    spec_leg_result(cache, trade.btc_condition_id@, trade.btc_token_id@, now)
}

/// A trade settles: it is old enough and both its markets are closed.
pub open spec fn settles(trade: PendingTrade, cache: Seq<CachedMarketData>, now: u64) -> bool {
    eligible(trade, now) && sol_result(trade, cache, now).0 && btc_result(trade, cache, now).0
}

/// The trades that settle.
pub open spec fn settling(cache: Seq<CachedMarketData>, now: u64) -> spec_fn(PendingTrade) -> bool {
    |trade: PendingTrade| settles(trade, cache, now)
}

/// The trades that stay pending.
pub open spec fn staying(cache: Seq<CachedMarketData>, now: u64) -> spec_fn(PendingTrade) -> bool {
    |trade: PendingTrade| !settles(trade, cache, now)
}

/// What the winning legs pay: each pays one dollar per unit. Two winners pay
/// what decimal addition gives for the units taken twice.
pub open spec fn spec_payout(units: Decimal, sol_winner: bool, btc_winner: bool) -> Option<Decimal> {
    if sol_winner && btc_winner {
        decimal_sum(units, units)
    } else if sol_winner || btc_winner {
        Some(units)
    } else {
        Some(Decimal { mantissa: 0, scale: 0 })
    }
}

/// The number of winning legs.
pub open spec fn winners(sol_winner: bool, btc_winner: bool) -> int {
    (if sol_winner {
        1int
    } else {
        0int
    }) + (if btc_winner {
        1int
    } else {
        0int
    })
}

/// What a settled trade made: the payout less the investment, by decimal
/// subtraction. Nothing where the payout or the difference has no result.
pub open spec fn spec_actual_profit(trade: PendingTrade, sol_winner: bool, btc_winner: bool) -> Option<
    Decimal,
> {
    match spec_payout(trade.units, sol_winner, btc_winner) {
        Some(payout) => decimal_difference(payout, trade.investment_amount),
        None => None,
    }
}

/// The payout and the profit of a trade are exact decimal results.
pub open spec fn profit_is_exact(trade: PendingTrade, sol_winner: bool, btc_winner: bool) -> bool {
    &&& sol_winner && btc_winner ==> sum_is_exact(trade.units, trade.units)
    &&& spec_payout(trade.units, sol_winner, btc_winner) matches Some(payout)
        ==> difference_is_exact(payout, trade.investment_amount)
}

/// The running profit with a settled trade's profit added, unchanged where
/// the trade's profit or the sum has no result.
pub open spec fn profit_with(total: Decimal, realized: Option<Decimal>) -> Decimal {
    match realized {
        Some(p) => match decimal_sum(total, p) {
            Some(sum) => sum,
            None => total,
        },
        None => total,
    }
}

/// The running profit after a sweep over `trades`, taken in order.
pub open spec fn swept_profit(
    trades: Seq<PendingTrade>,
    cache: Seq<CachedMarketData>,
    now: u64,
    start: Decimal,
) -> Decimal
    decreases trades.len(),
{
    if trades.len() == 0 {
        start
    } else {
        let before = swept_profit(trades.drop_last(), cache, now, start);
        let trade = trades.last();
        if settles(trade, cache, now) {
            profit_with(
                before,
                spec_actual_profit(
                    trade,
                    sol_result(trade, cache, now).1,
                    btc_result(trade, cache, now).1,
                ),
            )
        } else {
            before
        }
    }
}

/// What a settled trade made, in units of `10^-28`: one dollar per unit for
/// each winning leg, less the investment.
pub open spec fn exact_profit(trade: PendingTrade, sol_winner: bool, btc_winner: bool) -> int {
    winners(sol_winner, btc_winner) * trade.units.units() - trade.investment_amount.units()
}

/// The running profit after a sweep over `trades`, in units of `10^-28`: the
/// profit before it plus what each settled trade made.
pub open spec fn swept_units(
    trades: Seq<PendingTrade>,
    cache: Seq<CachedMarketData>,
    now: u64,
    start: int,
) -> int
    decreases trades.len(),
{
    if trades.len() == 0 {
        start
    } else {
        let before = swept_units(trades.drop_last(), cache, now, start);
        let trade = trades.last();
        if settles(trade, cache, now) {
            before + exact_profit(
                trade,
                sol_result(trade, cache, now).1,
                btc_result(trade, cache, now).1,
            )
        } else {
            before
        }
    }
}

/// Every step of a sweep over `trades` is an exact decimal result: the
/// profit of each settled trade, and its sum with the running profit.
pub open spec fn sweep_is_exact(
    trades: Seq<PendingTrade>,
    cache: Seq<CachedMarketData>,
    now: u64,
    start: Decimal,
) -> bool
    decreases trades.len(),
{
    if trades.len() == 0 {
        true
    } else {
        let trade = trades.last();
        let sol_winner = sol_result(trade, cache, now).1;
        let btc_winner = btc_result(trade, cache, now).1;
        &&& sweep_is_exact(trades.drop_last(), cache, now, start)
        &&& settles(trade, cache, now) ==> {
            &&& profit_is_exact(trade, sol_winner, btc_winner)
            &&& spec_actual_profit(trade, sol_winner, btc_winner) matches Some(p)
                ==> sum_is_exact(swept_profit(trades.drop_last(), cache, now, start), p)
        }
    }
}

/// A limit sell of a winning leg at one dollar.
pub open spec fn spec_sell_order(token_id: Seq<char>, units: Decimal) -> (
    Seq<char>,
    Seq<char>,
    Seq<char>,
    Seq<char>,
    Seq<char>,
) {
    (token_id, "SELL"@, spec_size_text(units), "1.0"@, "LIMIT"@)
}

/// The sell orders for a settled trade: one per winning leg, the SOL leg
/// first.
pub open spec fn spec_sell_orders(trade: PendingTrade, sol_winner: bool, btc_winner: bool) -> Seq<
    (Seq<char>, Seq<char>, Seq<char>, Seq<char>, Seq<char>),
> {
    (if sol_winner {
        seq![spec_sell_order(trade.sol_token_id@, trade.units)]
    } else {
        Seq::empty()
    }) + (if btc_winner {
        seq![spec_sell_order(trade.btc_token_id@, trade.units)]
    } else {
        Seq::empty()
    })
}

/// A trade that left the ledger in a sweep.
#[derive(Debug, Clone)]
pub struct Settlement {
    pub trade: PendingTrade,
    pub sol_winner: bool,
    pub btc_winner: bool,
    /// The realized profit, absent where it is no decimal.
    pub profit: Option<Decimal>,
    /// The sell orders to place: none in simulation mode.
    pub orders: Vec<OrderRequest>,
}

/// The trades of a sequence of settlements.
pub open spec fn settled_trades(settlements: Seq<Settlement>) -> Seq<PendingTrade> {
    settlements.map_values(|s: Settlement| s.trade)
}

/// A settlement reports its trade as the cache shows it at `now`.
pub open spec fn settlement_of(
    settlement: Settlement,
    cache: Seq<CachedMarketData>,
    now: u64,
    simulation: bool,
) -> bool {
    let trade = settlement.trade;
    &&& settlement.sol_winner == sol_result(trade, cache, now).1
    &&& settlement.btc_winner == btc_result(trade, cache, now).1
    &&& settlement.profit == spec_actual_profit(
        trade,
        settlement.sol_winner,
        settlement.btc_winner,
    )
    &&& order_views(settlement.orders@) == if simulation {
        Seq::empty()
    } else {
        spec_sell_orders(trade, settlement.sol_winner, settlement.btc_winner)
    }
}

/// The cache after metadata fetched at `now` is stored for a condition
/// identifier: in place of what was held for it, else at the end.
pub open spec fn spec_cached(
    cache: Seq<CachedMarketData>,
    condition_id: String,
    market: MarketDetails,
    now: u64,
) -> Seq<CachedMarketData> {
    let entry = CachedMarketData { condition_id, market, cached_at: now };
    if exists|i: int| held_at(cache, condition_id@, i) {
        cache.update(choose|i: int| held_at(cache, condition_id@, i), entry)
    } else {
        cache.push(entry)
    }
}

/// The entry at `i` holds the metadata of the condition identifier.
pub open spec fn held_at(cache: Seq<CachedMarketData>, condition_id: Seq<char>, i: int) -> bool {
    0 <= i < cache.len() && cache[i].condition_id@ == condition_id
}

/// A condition identifier is a leg of a trade old enough to be looked at,
/// and no fresh metadata is held for it.
pub open spec fn needs_refresh(
    trades: Seq<PendingTrade>,
    cache: Seq<CachedMarketData>,
    now: u64,
    condition_id: Seq<char>,
) -> bool {
    &&& !has_fresh_entry(cache, condition_id, now)
    &&& exists|i: int| leg_of_eligible(trades, now, condition_id, i)
}

/// The trade at `i` is old enough to be looked at and has the condition
/// identifier as one of its legs.
pub open spec fn leg_of_eligible(
    trades: Seq<PendingTrade>,
    now: u64,
    condition_id: Seq<char>,
    i: int,
) -> bool {
    &&& 0 <= i < trades.len()
    &&& eligible(trades[i], now)
    &&& (trades[i].sol_condition_id@ == condition_id || trades[i].btc_condition_id@
        == condition_id)
}

/// What recording an opportunity did.
#[derive(Debug, Clone)]
pub struct TradeReceipt {
    /// The dollars invested.
    pub position_size: Decimal,
    /// The units bought.
    pub units: Decimal,
    /// The orders to place: none in simulation mode.
    pub orders: Vec<OrderRequest>,
}

/// A market's metadata and when it was fetched.
#[derive(Debug, Clone)]
pub struct CachedMarketData {
    /// The condition identifier that the metadata was asked for.
    pub condition_id: String,
    pub market: MarketDetails,
    /// When the metadata was fetched, in seconds.
    pub cached_at: u64,
}

/// The ledger of pending trades with its running totals.
pub struct Trader {
    config: TradingConfig,
    simulation_mode: bool,
    total_profit: Decimal,
    trades_executed: u64,
    pending_trades: Vec<PendingTrade>,
    market_cache: Vec<CachedMarketData>,
}

impl Trader {
    /// The pending trades, in the order in which their pairs were first
    /// recorded.
    pub closed spec fn pending(self) -> Seq<PendingTrade> {
        self.pending_trades@
    }

    /// The market metadata held, one entry per condition identifier.
    pub closed spec fn cache(self) -> Seq<CachedMarketData> {
        self.market_cache@
    }

    /// The profit realized so far.
    pub closed spec fn profit(self) -> Decimal {
        self.total_profit
    }

    /// The number of opportunities recorded so far.
    pub closed spec fn executed(self) -> u64 {
        self.trades_executed
    }

    /// Whether orders are only computed, never meant to be placed.
    pub closed spec fn simulation(self) -> bool {
        self.simulation_mode
    }

    /// The largest position in dollars.
    pub closed spec fn max_position(self) -> Decimal {
        self.config.max_position_size
    }

    /// The amounts are well-formed decimals, at most one trade is pending
    /// per pair of condition identifiers, and at most one set of metadata is
    /// held per condition identifier.
    pub open spec fn wf(self) -> bool {
        &&& self.max_position().wf()
        &&& self.profit().wf()
        &&& forall|i: int| 0 <= i < self.pending().len() ==> (#[trigger] self.pending()[i]).wf()
        &&& distinct_keys(self.pending())
        &&& forall|i: int, j: int|
            0 <= i < j < self.cache().len() ==> (#[trigger] self.cache()[i]).condition_id@ != (
            #[trigger] self.cache()[j]).condition_id@
    }

    /// A ledger with nothing pending, nothing cached and no profit.
    pub fn new(config: TradingConfig, simulation_mode: bool) -> (r: Self)
        requires
            config.wf(),
        ensures
            r.wf(),
            r.pending() == Seq::<PendingTrade>::empty(),
            r.cache() == Seq::<CachedMarketData>::empty(),
            r.profit() == (Decimal { mantissa: 0, scale: 0 }),
            r.executed() == 0,
            r.simulation() == simulation_mode,
            r.max_position() == config.max_position_size,
    {
        Trader {
            config,
            simulation_mode,
            total_profit: Decimal::zero(),
            trades_executed: 0,
            pending_trades: Vec::new(),
            market_cache: Vec::new(),
        }
    }

    /// The pending trades, in the order in which their pairs were first
    /// recorded.
    pub fn pending_trades(&self) -> (r: &Vec<PendingTrade>)
        ensures
            r@ == self.pending(),
    {
        &self.pending_trades
    }

    /// The realized profit and the number of opportunities recorded.
    pub fn get_stats(&self) -> (r: (Decimal, u64))
        ensures
            r.0 == self.profit(),
            r.1 == self.executed(),
    {
        (self.total_profit, self.trades_executed)
    }

    /// The dollars to put into an opportunity.
    pub fn calculate_position_size(&self, opportunity: &ArbitrageOpportunity) -> (r: Option<
        Decimal,
    >)
        requires
            self.wf(),
            opportunity.wf(),
        ensures
            r == spec_position_size(self.max_position(), opportunity.total_cost),
            r matches Some(p) ==> p.wf(),
            r matches Some(p) ==> p.units() <= self.max_position().units(),
            decimal_quotient(self.max_position(), opportunity.total_cost) matches Some(affordable)
                ==> (product_is_exact(affordable, opportunity.total_cost) ==> r.is_some()
                && r.unwrap().units() * pow10(28) == smaller(
                self.max_position().units() * pow10(28),
                affordable.units() * opportunity.total_cost.units(),
            )),
    {
        let max_size = self.config.max_position_size;
        let cost_per_unit = opportunity.total_cost;
        let affordable = match checked_div(max_size, cost_per_unit) {
            Some(u) => u,
            None => {
                return None;
            },
        };
        let spend = match checked_mul(affordable, cost_per_unit) {
            Some(s) => s,
            None => {
                return None;
            },
        };
        proof {
            let p = pow10(28);
            let m = max_size.units();
            let v = spend.units();
            assert(p > 0);
            assert((m < v) == (m * p < v * p)) by (nonlinear_arith)
                requires
                    p > 0,
            ;
        }
        Some(cap_position(max_size, spend))
    }

    /// Sizes an opportunity and records it: its units and dollars are added
    /// to the trade pending for its pair of condition identifiers, or open a
    /// new trade stamped `now` where none is pending. In live mode the
    /// receipt carries the two buy orders to place. On an error nothing
    /// changes.
    pub fn execute_arbitrage(&mut self, opportunity: &ArbitrageOpportunity, now: u64) -> (r:
        Result<TradeReceipt, TradeError>)
        requires
            old(self).wf(),
            opportunity.wf(),
        ensures
            final(self).wf(),
            final(self).max_position() == old(self).max_position(),
            final(self).simulation() == old(self).simulation(),
            final(self).profit() == old(self).profit(),
            final(self).cache() == old(self).cache(),
            match r {
                Ok(receipt) => {
                    &&& spec_execute(
                        old(self).pending(),
                        old(self).max_position(),
                        *opportunity,
                        now,
                    ) == Ok::<_, TradeError>(
                        (final(self).pending(), receipt.position_size, receipt.units),
                    )
                    &&& final(self).executed() == counted(old(self).executed())
                    &&& receipt.position_size.wf()
                    &&& receipt.units.wf()
                    &&& order_views(receipt.orders@)
                        == spec_buy_orders(
                        old(self).simulation(),
                        *opportunity,
                        receipt.position_size,
                    )
                },
                Err(e) => {
                    &&& spec_execute(
                        old(self).pending(),
                        old(self).max_position(),
                        *opportunity,
                        now,
                    ) == Err::<(Seq<PendingTrade>, Decimal, Decimal), _>(e)
                    &&& final(self).pending() == old(self).pending()
                    &&& final(self).executed() == old(self).executed()
                },
            },
            forall|i: int|
                r.is_ok() && has_key_at(old(self).pending(), opportunity_key(*opportunity), i)
                    ==> added_at(
                    old(self).pending(),
                    final(self).pending(),
                    i,
                    r.unwrap().position_size,
                    r.unwrap().units,
                ),
    {
        let position = match self.calculate_position_size(opportunity) {
            Some(p) => p,
            None => {
                return Err(TradeError::Unsizable);
            },
        };
        let units = match checked_div(position, opportunity.total_cost) {
            Some(u) => u,
            None => {
                return Err(TradeError::Unsizable);
            },
        };
        match self.record(opportunity, position, units, now) {
            Ok(orders) => Ok(TradeReceipt { position_size: position, units, orders }),
            Err(e) => Err(e),
        }
    }

    /// Records an amount for an opportunity: the units and dollars are added
    /// to the trade pending for its pair of condition identifiers, or open a
    /// new trade stamped `now` where none is pending. Hands back the buy
    /// orders to place, none in simulation mode. On an error nothing
    /// changes.
    pub fn record(
        &mut self,
        opportunity: &ArbitrageOpportunity,
        position: Decimal,
        units: Decimal,
        now: u64,
    ) -> (r: Result<Vec<OrderRequest>, TradeError>)
        requires
            old(self).wf(),
            opportunity.wf(),
            position.wf(),
            units.wf(),
        ensures
            final(self).wf(),
            final(self).max_position() == old(self).max_position(),
            final(self).simulation() == old(self).simulation(),
            final(self).profit() == old(self).profit(),
            final(self).cache() == old(self).cache(),
            match r {
                Ok(orders) => {
                    &&& spec_recorded(old(self).pending(), *opportunity, position, units, now)
                        == Ok::<_, TradeError>(final(self).pending())
                    &&& final(self).executed() == counted(old(self).executed())
                    &&& order_views(orders@) == spec_buy_orders(
                        old(self).simulation(),
                        *opportunity,
                        position,
                    )
                },
                Err(e) => {
                    &&& spec_recorded(old(self).pending(), *opportunity, position, units, now)
                        == Err::<Seq<PendingTrade>, _>(e)
                    &&& final(self).pending() == old(self).pending()
                    &&& final(self).executed() == old(self).executed()
                },
            },
            forall|i: int|
                r.is_ok() && has_key_at(old(self).pending(), opportunity_key(*opportunity), i)
                    ==> added_at(old(self).pending(), final(self).pending(), i, position, units),
    {
        let ghost key = opportunity_key(*opportunity);
        let ghost before = self.pending();
        match self.find_trade(&opportunity.sol_condition_id, &opportunity.btc_condition_id) {
            Some(i) => {
                proof {
                    let c = choose|c: int| has_key_at(before, key, c);
                    assert(has_key_at(before, key, i as int));
                    assert(c == i);
                }
                let existing = &self.pending_trades[i];
                let total_units = match checked_add(existing.units, units) {
                    Some(t) => t,
                    None => {
                        return Err(TradeError::Overflow);
                    },
                };
                let total_invested = match checked_add(existing.investment_amount, position) {
                    Some(t) => t,
                    None => {
                        return Err(TradeError::Overflow);
                    },
                };
                let updated = PendingTrade {
                    sol_token_id: existing.sol_token_id.clone(),
                    btc_token_id: existing.btc_token_id.clone(),
                    sol_condition_id: existing.sol_condition_id.clone(),
                    btc_condition_id: existing.btc_condition_id.clone(),
                    investment_amount: total_invested,
                    units: total_units,
                    timestamp: existing.timestamp,
                };
                self.pending_trades.set(i, updated);
                proof {
                    assert(forall|c: int| has_key_at(before, key, c) ==> c == i);
                    assert(trade_key(self.pending()[i as int]) == trade_key(before[i as int]));
                    assert forall|a: int, b: int| 0 <= a < b < self.pending().len() implies trade_key(
                        #[trigger] self.pending()[a],
                    ) != trade_key(#[trigger] self.pending()[b]) by {
                        assert(trade_key(self.pending()[a]) == trade_key(before[a]));
                        assert(trade_key(self.pending()[b]) == trade_key(before[b]));
                    }
                    assert forall|a: int| 0 <= a < self.pending().len() implies (
                    #[trigger] self.pending()[a]).wf() by {
                        if a != i {
                            assert(self.pending()[a] == before[a]);
                        }
                    }
                    assert(distinct_keys(self.pending()));
                }
            },
            None => {
                let trade = PendingTrade {
                    sol_token_id: opportunity.sol_up_token_id.clone(),
                    btc_token_id: opportunity.btc_down_token_id.clone(),
                    sol_condition_id: opportunity.sol_condition_id.clone(),
                    btc_condition_id: opportunity.btc_condition_id.clone(),
                    investment_amount: position,
                    units,
                    timestamp: now,
                };
                self.pending_trades.push(trade);
                proof {
                    assert(!has_key(before, key));
                    assert forall|a: int, b: int| 0 <= a < b < self.pending().len() implies trade_key(
                        #[trigger] self.pending()[a],
                    ) != trade_key(#[trigger] self.pending()[b]) by {
                        if b == before.len() {
                            assert(!has_key_at(before, key, a));
                        } else {
                            assert(trade_key(before[a]) != trade_key(before[b]));
                        }
                    }
                    assert(distinct_keys(self.pending()));
                }
            },
        }
        if self.trades_executed < u64::MAX {
            self.trades_executed += 1;
        }
        let orders = if self.simulation_mode {
            let none: Vec<OrderRequest> = Vec::new();
            proof {
                assert(order_views(none@) =~= Seq::empty());
            }
            none
        } else {
            buy_orders(opportunity, position)
        };
        Ok(orders)
    }

    /// The place of the metadata held for a condition identifier.
    pub fn find_cached(&self, condition_id: &String) -> (r: Option<usize>)
        ensures
            r matches Some(i) ==> held_at(self.cache(), condition_id@, i as int),
            r.is_none() ==> forall|i: int| !held_at(self.cache(), condition_id@, i),
    {
        let mut i: usize = 0;
        while i < self.market_cache.len()
            invariant
                i <= self.market_cache.len(),
                forall|k: int| 0 <= k < i ==> !held_at(self.cache(), condition_id@, k),
            decreases self.market_cache.len() - i,
        {
            if self.market_cache[i].condition_id == *condition_id {
                return Some(i);
            }
            i += 1;
        }
        None
    }

    /// Stores metadata fetched at `now` for a condition identifier, in place
    /// of what was held for it.
    pub fn cache_market(&mut self, condition_id: String, market: MarketDetails, now: u64)
        requires
            old(self).wf(),
        ensures
            final(self).wf(),
            final(self).cache() == spec_cached(old(self).cache(), condition_id, market, now),
            final(self).pending() == old(self).pending(),
            final(self).profit() == old(self).profit(),
            final(self).executed() == old(self).executed(),
            final(self).simulation() == old(self).simulation(),
            final(self).max_position() == old(self).max_position(),
    {
        let ghost before = self.cache();
        let found = self.find_cached(&condition_id);
        let entry = CachedMarketData { condition_id, market, cached_at: now };
        match found {
            Some(i) => {
                proof {
                    let c = choose|c: int| held_at(before, entry.condition_id@, c);
                    assert(held_at(before, entry.condition_id@, i as int));
                    assert(c == i);
                }
                self.market_cache.set(i, entry);
                proof {
                    assert forall|a: int, b: int| 0 <= a < b < self.cache().len() implies (
                    #[trigger] self.cache()[a]).condition_id@ != (
                    #[trigger] self.cache()[b]).condition_id@ by {
                        assert(self.cache()[a].condition_id@ == before[a].condition_id@);
                        assert(self.cache()[b].condition_id@ == before[b].condition_id@);
                    }
                }
            },
            None => {
                self.market_cache.push(entry);
                proof {
                    assert forall|a: int, b: int| 0 <= a < b < self.cache().len() implies (
                    #[trigger] self.cache()[a]).condition_id@ != (
                    #[trigger] self.cache()[b]).condition_id@ by {
                        if b == before.len() {
                            assert(!held_at(before, entry.condition_id@, a));
                        } else {
                            assert(before[a].condition_id@ != before[b].condition_id@);
                        }
                    }
                }
            },
        }
    }

    /// Whether fresh metadata is held for a condition identifier.
    pub fn has_fresh(&self, condition_id: &String, now: u64) -> (r: bool)
        requires
            self.wf(),
        ensures
            r == has_fresh_entry(self.cache(), condition_id@, now),
    {
        match self.find_cached(condition_id) {
            Some(i) => {
                let fresh = elapsed(now, self.market_cache[i].cached_at) < CACHE_TTL_SECS;
                proof {
                    assert forall|c: int|
                        fresh_entry_at(self.cache(), condition_id@, now, c) implies c == i by {
                        assert(held_at(self.cache(), condition_id@, c));
                    }
                    if fresh {
                        assert(fresh_entry_at(self.cache(), condition_id@, now, i as int));
                    }
                }
                fresh
            },
            None => {
                proof {
                    assert forall|c: int| !fresh_entry_at(self.cache(), condition_id@, now, c) by {
                        assert(!held_at(self.cache(), condition_id@, c));
                    }
                }
                false
            },
        }
    }

    /// What is known of one leg at `now`: whether its market is closed and
    /// whether its token won, from metadata younger than the time to live;
    /// without such metadata, not closed and no winner.
    pub fn check_market_result_cached(
        &self,
        condition_id: &String,
        token_id: &String,
        now: u64,
    ) -> (r: (bool, bool))
        requires
            self.wf(),
        ensures
            r == spec_leg_result(self.cache(), condition_id@, token_id@, now),
    {
        match self.find_cached(condition_id) {
            Some(i) => {
                proof {
                    assert forall|c: int|
                        fresh_entry_at(self.cache(), condition_id@, now, c) implies c == i by {
                        assert(held_at(self.cache(), condition_id@, c));
                    }
                }
                if elapsed(now, self.market_cache[i].cached_at) < CACHE_TTL_SECS {
                    proof {
                        assert(fresh_entry_at(self.cache(), condition_id@, now, i as int));
                    }
                    market_result(&self.market_cache[i].market, token_id)
                } else {
                    (false, false)
                }
            },
            None => {
                proof {
                    assert forall|c: int| !fresh_entry_at(self.cache(), condition_id@, now, c) by {
                        assert(!held_at(self.cache(), condition_id@, c));
                    }
                }
                (false, false)
            },
        }
    }

    /// Adds a condition identifier to `list` where it lacks fresh metadata and
    /// is not listed yet.
    fn note_stale(&self, list: &mut Vec<String>, condition_id: &String, now: u64)
        requires
            self.wf(),
            no_repeats(old(list)@),
        ensures
            no_repeats(final(list)@),
            has_fresh_entry(self.cache(), condition_id@, now) ==> final(list)@ == old(list)@,
            !has_fresh_entry(self.cache(), condition_id@, now) ==> listed(
                final(list)@,
                condition_id@,
            ),
            final(list)@ == old(list)@ || (final(list)@.len() == old(list)@.len() + 1
                && final(list)@.drop_last() == old(list)@
                && final(list)@.last()@ == condition_id@),
    {
        if !self.has_fresh(condition_id, now) && !contains_text(list, condition_id) {
            list.push(condition_id.clone());
            proof {
                assert(list@.drop_last() =~= old(list)@);
                assert(list@[list@.len() - 1]@ == condition_id@);
            }
        }
    }

    /// The condition identifiers whose metadata must be fetched before the
    /// next sweep: the legs of every trade old enough to be looked at for
    /// which no fresh metadata is held, each once.
    pub fn markets_to_refresh(&self, now: u64) -> (r: Vec<String>)
        requires
            self.wf(),
        ensures
            no_repeats(r@),
            forall|k: int|
                0 <= k < r@.len() ==> needs_refresh(
                    self.pending(),
                    self.cache(),
                    now,
                    (#[trigger] r@[k])@,
                ),
            forall|condition_id: Seq<char>|
                needs_refresh(self.pending(), self.cache(), now, condition_id) ==> listed(
                    r@,
                    condition_id,
                ),
    {
        let mut list: Vec<String> = Vec::new();
        let mut i: usize = 0;
        while i < self.pending_trades.len()
            invariant
                self.wf(),
                i <= self.pending_trades.len(),
                no_repeats(list@),
                forall|k: int|
                    0 <= k < list@.len() ==> needs_refresh(
                        self.pending(),
                        self.cache(),
                        now,
                        (#[trigger] list@[k])@,
                    ),
                forall|condition_id: Seq<char>, j: int|
                    0 <= j < i && #[trigger] leg_of_eligible(
                        self.pending(),
                        now,
                        condition_id,
                        j,
                    ) && !has_fresh_entry(self.cache(), condition_id, now) ==> listed(
                        list@,
                        condition_id,
                    ),
            decreases self.pending_trades.len() - i,
        {
            let trade = &self.pending_trades[i];
            if elapsed(now, trade.timestamp) >= MIN_SETTLEMENT_AGE_SECS {
                let ghost start = list@;
                self.note_stale(&mut list, &trade.sol_condition_id, now);
                let ghost middle = list@;
                self.note_stale(&mut list, &trade.btc_condition_id, now);
                proof {
                    assert(leg_of_eligible(
                        self.pending(),
                        now,
                        trade.sol_condition_id@,
                        i as int,
                    ));
                    assert(leg_of_eligible(
                        self.pending(),
                        now,
                        trade.btc_condition_id@,
                        i as int,
                    ));
                    assert forall|t: Seq<char>| listed(start, t) implies listed(middle, t) by {
                        let k = choose|k: int| 0 <= k < start.len() && (#[trigger] start[k])@ == t;
                        assert(middle[k]@ == t);
                    }
                    assert forall|t: Seq<char>| listed(middle, t) implies listed(list@, t) by {
                        let k = choose|k: int|
                            0 <= k < middle.len() && (#[trigger] middle[k])@ == t;
                        assert(list@[k]@ == t);
                    }
                    assert forall|k: int| 0 <= k < list@.len() implies needs_refresh(
                        self.pending(),
                        self.cache(),
                        now,
                        (#[trigger] list@[k])@,
                    ) by {
                        if k < start.len() {
                            assert(list@[k] == start[k]);
                        }
                    }
                }
            }
            i += 1;
        }
        proof {
            assert forall|condition_id: Seq<char>|
                needs_refresh(self.pending(), self.cache(), now, condition_id) implies listed(
                list@,
                condition_id,
            ) by {
                let j = choose|j: int| leg_of_eligible(self.pending(), now, condition_id, j);
                assert(leg_of_eligible(self.pending(), now, condition_id, j));
            }
        }
        list
    }

    /// Settles every pending trade that is old enough and whose two markets
    /// the held metadata shows closed: its profit joins the running total
    /// and it leaves the ledger. All other trades stay as they are. Fetch
    /// the metadata named by `markets_to_refresh` and store it before the
    /// sweep.
    pub fn check_pending_trades(&mut self, now: u64) -> (r: Vec<Settlement>)
        requires
            old(self).wf(),
        ensures
            final(self).wf(),
            final(self).cache() == old(self).cache(),
            final(self).executed() == old(self).executed(),
            final(self).simulation() == old(self).simulation(),
            final(self).max_position() == old(self).max_position(),
            final(self).pending() == old(self).pending().filter(staying(old(self).cache(), now)),
            settled_trades(r@) == old(self).pending().filter(
                settling(old(self).cache(), now),
            ),
            forall|k: int|
                0 <= k < r@.len() ==> settlement_of(
                    #[trigger] r@[k],
                    old(self).cache(),
                    now,
                    old(self).simulation(),
                ),
            final(self).profit() == swept_profit(
                old(self).pending(),
                old(self).cache(),
                now,
                old(self).profit(),
            ),
            sweep_is_exact(old(self).pending(), old(self).cache(), now, old(self).profit())
                ==> final(self).profit().units() == swept_units(
                old(self).pending(),
                old(self).cache(),
                now,
                old(self).profit().units(),
            ),
            forall|i: int|
                0 <= i < old(self).pending().len() && !eligible(
                    #[trigger] old(self).pending()[i],
                    now,
                ) ==> final(self).pending().contains(old(self).pending()[i]),
    {
        let ghost before = self.pending();
        let ghost cache = self.cache();
        let ghost start = self.profit();
        let simulation = self.simulation_mode;
        let mut total = self.total_profit;
        let mut kept: Vec<PendingTrade> = Vec::new();
        let mut settlements: Vec<Settlement> = Vec::new();
        let ghost mut origin: Seq<int> = Seq::empty();
        let mut i: usize = 0;
        proof {
            reveal(Seq::filter);
            assert(before.subrange(0, 0).filter(staying(cache, now)) =~= Seq::empty());
            assert(before.subrange(0, 0).filter(settling(cache, now)) =~= Seq::empty());
            assert(settled_trades(settlements@) =~= Seq::empty());
        }
        while i < self.pending_trades.len()
            invariant
                self.wf(),
                self.pending() == before,
                self.cache() == cache,
                self.simulation() == simulation,
                i <= before.len(),
                total.wf(),
                total == swept_profit(before.subrange(0, i as int), cache, now, start),
                sweep_is_exact(before.subrange(0, i as int), cache, now, start) ==> total.units()
                    == swept_units(before.subrange(0, i as int), cache, now, start.units()),
                kept@ == before.subrange(0, i as int).filter(staying(cache, now)),
                settled_trades(settlements@) == before.subrange(
                    0,
                    i as int,
                ).filter(settling(cache, now)),
                forall|k: int|
                    0 <= k < settlements@.len() ==> settlement_of(
                        #[trigger] settlements@[k],
                        cache,
                        now,
                        simulation,
                    ),
                origin.len() == kept@.len(),
                forall|k: int|
                    0 <= k < origin.len() ==> 0 <= #[trigger] origin[k] < i && kept@[k]
                        == before[origin[k]],
                forall|k: int, l: int| 0 <= k < l < origin.len() ==> origin[k] < origin[l],
            decreases before.len() - i,
        {
            let trade = &self.pending_trades[i];
            let mut settled = false;
            proof {
                lemma_filter_step(before, i as int, staying(cache, now));
                lemma_filter_step(before, i as int, settling(cache, now));
                assert(before.subrange(0, i + 1).drop_last() =~= before.subrange(0, i as int));
                assert(before.subrange(0, i + 1).last() == before[i as int]);
            }
            if elapsed(now, trade.timestamp) >= MIN_SETTLEMENT_AGE_SECS {
                let (sol_closed, sol_winner) = self.check_market_result_cached(
                    &trade.sol_condition_id,
                    &trade.sol_token_id,
                    now,
                );
                let (btc_closed, btc_winner) = self.check_market_result_cached(
                    &trade.btc_condition_id,
                    &trade.btc_token_id,
                    now,
                );
                if sol_closed && btc_closed {
                    let profit = calculate_actual_profit(trade, sol_winner, btc_winner);
                    let orders = if simulation {
                        let none: Vec<OrderRequest> = Vec::new();
                        proof {
                            assert(order_views(none@)
                                =~= Seq::empty());
                        }
                        none
                    } else {
                        sell_winning_tokens(trade, sol_winner, btc_winner)
                    };
                    if let Some(p) = profit {
                        if let Some(sum) = checked_add(total, p) {
                            total = sum;
                        }
                    }
                    let ghost reported = settlements@;
                    let settlement = Settlement {
                        trade: copy_trade(trade),
                        sol_winner,
                        btc_winner,
                        profit,
                        orders,
                    };
                    settlements.push(settlement);
                    settled = true;
                    proof {
                        assert(settled_trades(settlements@)
                            =~= settled_trades(reported).push(
                            before[i as int],
                        ));
                    }
                }
            }
            if !settled {
                kept.push(copy_trade(trade));
                proof {
                    origin = origin.push(i as int);
                }
            }
            i += 1;
        }
        proof {
            assert(before.subrange(0, before.len() as int) =~= before);
            assert forall|a: int, b: int| 0 <= a < b < kept@.len() implies trade_key(
                #[trigger] kept@[a],
            ) != trade_key(#[trigger] kept@[b]) by {
                assert(origin[a] < origin[b]);
                assert(trade_key(before[origin[a]]) != trade_key(before[origin[b]]));
            }
            assert forall|a: int| 0 <= a < kept@.len() implies (#[trigger] kept@[a]).wf() by {
                assert(before[origin[a]].wf());
            }
            before.filter_lemma(staying(cache, now));
        }
        self.pending_trades = kept;
        self.total_profit = total;
        settlements
    }

    /// The place of the trade pending for a pair of condition identifiers.
    pub fn find_trade(&self, sol_condition_id: &String, btc_condition_id: &String) -> (r: Option<
        usize,
    >)
        ensures
            r matches Some(i) ==> has_key_at(
                self.pending(),
                (sol_condition_id@, btc_condition_id@),
                i as int,
            ),
            r.is_none() ==> forall|i: int|
                !has_key_at(self.pending(), (sol_condition_id@, btc_condition_id@), i),
    {
        let mut i: usize = 0;
        while i < self.pending_trades.len()
            invariant
                i <= self.pending_trades.len(),
                forall|k: int|
                    0 <= k < i ==> !has_key_at(
                        self.pending(),
                        (sol_condition_id@, btc_condition_id@),
                        k,
                    ),
            decreases self.pending_trades.len() - i,
        {
            let trade = &self.pending_trades[i];
            if trade.sol_condition_id == *sol_condition_id && trade.btc_condition_id
                == *btc_condition_id {
                return Some(i);
            }
            i += 1;
        }
        None
    }
}

/// The seconds from `since` to `now`, zero where `now` is the earlier.
pub fn elapsed(now: u64, since: u64) -> (r: u64)
    ensures
        r == age(now, since),
{
    if now >= since {
        now - since
    } else {
        0
    }
}

/// Whether a market is closed, and whether the token won in it.
pub fn market_result(market: &MarketDetails, token_id: &String) -> (r: (bool, bool))
    ensures
        r == spec_market_result(*market, token_id@),
{
    if !market.closed {
        return (false, false);
    }
    let mut i: usize = 0;
    while i < market.tokens.len()
        invariant
            market.closed,
            i <= market.tokens.len(),
            forall|j: int| 0 <= j < i ==> (#[trigger] market.tokens@[j]).token_id@ != token_id@,
        decreases market.tokens.len() - i,
    {
        if market.tokens[i].token_id == *token_id {
            let winner = market.tokens[i].winner;
            proof {
                assert(first_token_at(market.tokens@, token_id@, i as int));
                assert forall|k: int|
                    first_token_at(market.tokens@, token_id@, k) implies k == i by {
                    if k < i {
                        assert(market.tokens@[k].token_id@ != token_id@);
                    } else if k > i {
                        assert(market.tokens@[i as int].token_id@ != token_id@);
                    }
                }
                assert(market.tokens@[i as int].winner == winner);
                assert(winner == spec_winner(market.tokens@, token_id@));
            }
            return (true, winner);
        }
        i += 1;
    }
    (true, false)
}

/// What a settled trade made: one dollar per unit for each winning leg, less
/// the investment.
pub fn calculate_actual_profit(trade: &PendingTrade, sol_winner: bool, btc_winner: bool) -> (r:
    Option<Decimal>)
    requires
        trade.wf(),
    ensures
        r == spec_actual_profit(*trade, sol_winner, btc_winner),
        r matches Some(p) ==> p.wf(),
        profit_is_exact(*trade, sol_winner, btc_winner) ==> r.is_some() && r.unwrap().units()
            == exact_profit(*trade, sol_winner, btc_winner),
{
    let payout = if sol_winner && btc_winner {
        match checked_add(trade.units, trade.units) {
            Some(p) => p,
            None => {
                return None;
            },
        }
    } else if sol_winner || btc_winner {
        trade.units
    } else {
        Decimal::zero()
    };
    checked_sub(payout, trade.investment_amount)
}

/// The size of an order as text with six decimal places.
pub fn size_text(size: Decimal) -> (r: String)
    requires
        size.wf(),
    ensures
        r@ == spec_size_text(size),
{
    if size.is_printable() {
        to_text_fixed(size, ORDER_SIZE_PLACES)
    } else {
        let padding = if size.scale == 0 {
            ".000000"
        } else if size.scale == 1 {
            "00000"
        } else if size.scale == 2 {
            "0000"
        } else {
            "000"
        };
        let mut text = to_text(size);
        text.append(padding);
        text
    }
}

/// A limit sell of one winning leg at one dollar.
fn sell_order(token_id: &String, units: Decimal) -> (r: OrderRequest)
    requires
        units.wf(),
    ensures
        order_view(r) == spec_sell_order(token_id@, units),
{
    OrderRequest {
        token_id: token_id.clone(),
        side: "SELL".to_string(),
        size: size_text(units),
        price: "1.0".to_string(),
        order_type: "LIMIT".to_string(),
    }
}

/// The sell orders that realize a settled trade: one for each winning leg,
/// for all its units at one dollar.
pub fn sell_winning_tokens(trade: &PendingTrade, sol_winner: bool, btc_winner: bool) -> (r: Vec<
    OrderRequest,
>)
    requires
        trade.wf(),
    ensures
        order_views(r@) == spec_sell_orders(
            *trade,
            sol_winner,
            btc_winner,
        ),
{
    let mut orders: Vec<OrderRequest> = Vec::new();
    if sol_winner {
        orders.push(sell_order(&trade.sol_token_id, trade.units));
    }
    if btc_winner {
        orders.push(sell_order(&trade.btc_token_id, trade.units));
    }
    proof {
        assert(order_views(orders@) =~= spec_sell_orders(
            *trade,
            sol_winner,
            btc_winner,
        ));
    }
    orders
}

/// A trade with the same fields.
pub fn copy_trade(trade: &PendingTrade) -> (r: PendingTrade)
    ensures
        r == *trade,
{
    PendingTrade {
        sol_token_id: trade.sol_token_id.clone(),
        btc_token_id: trade.btc_token_id.clone(),
        sol_condition_id: trade.sol_condition_id.clone(),
        btc_condition_id: trade.btc_condition_id.clone(),
        investment_amount: trade.investment_amount,
        units: trade.units,
        timestamp: trade.timestamp,
    }
}

/// One more element of a sequence passes through a filter as the last of the
/// result, or not at all.
proof fn lemma_filter_step<T>(s: Seq<T>, i: int, pred: spec_fn(T) -> bool)
    requires
        0 <= i < s.len(),
    ensures
        s.subrange(0, i + 1).filter(pred) == if pred(s[i]) {
            s.subrange(0, i).filter(pred).push(s[i])
        } else {
            s.subrange(0, i).filter(pred)
        },
{
    reveal(Seq::filter);
    assert(s.subrange(0, i + 1).drop_last() =~= s.subrange(0, i));
}

/// The smaller of the largest position and what the affordable units cost.
pub fn cap_position(max_size: Decimal, spend: Decimal) -> (r: Decimal)
    requires
        max_size.wf(),
        spend.wf(),
    ensures
        r == spec_capped(max_size, spend),
        r.wf(),
{
    if less_than(max_size, spend) {
        max_size
    } else {
        spend
    }
}

/// The limit buy orders of both legs, the SOL leg first.
pub fn buy_orders(opportunity: &ArbitrageOpportunity, position_size: Decimal) -> (r: Vec<
    OrderRequest,
>)
    requires
        opportunity.wf(),
        position_size.wf(),
    ensures
        order_views(r@) == spec_buy_orders(
            false,
            *opportunity,
            position_size,
        ),
{
    let sol_order = OrderRequest {
        token_id: opportunity.sol_up_token_id.clone(),
        side: "BUY".to_string(),
        size: size_text(position_size),
        price: to_text(opportunity.sol_up_price),
        order_type: "LIMIT".to_string(),
    };
    let btc_order = OrderRequest {
        token_id: opportunity.btc_down_token_id.clone(),
        side: "BUY".to_string(),
        size: size_text(position_size),
        price: to_text(opportunity.btc_down_price),
        order_type: "LIMIT".to_string(),
    };
    let mut orders: Vec<OrderRequest> = Vec::new();
    orders.push(sol_order);
    orders.push(btc_order);
    proof {
        assert(order_views(orders@) =~= spec_buy_orders(
            false,
            *opportunity,
            position_size,
        ));
    }
    orders
}

} // verus!
