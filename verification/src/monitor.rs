//! The registry of the two tracked markets and the snapshots taken of them.

use crate::decimal::Decimal;
use crate::models::{Market, MarketData, MarketDetails, MarketToken, TokenPrice};
use crate::text::{contains, occurs_in, to_uppercase, uppercase_text};
use vstd::prelude::*;

verus! {

/// Seconds in one period: the markets roll over every fifteen minutes.
pub const PERIOD_SECS: u64 = 900;

/// Why a pair of markets was not taken.
#[derive(Debug, Clone, Copy, PartialEq, Eq, Structural)]
pub enum MarketError {
    /// Both instruments resolved to the same condition identifier.
    InvariantViolation,
    /// No active, open market was found.
    NotFound,
}

/// The start of the period that `now` lies in.
pub open spec fn spec_period(now: u64) -> u64 {
    (now / PERIOD_SECS * PERIOD_SECS) as u64
}

/// The start of the period that `now` lies in.
pub fn period_start(now: u64) -> (r: u64)
    ensures
        r == spec_period(now),
        r <= now,
        now - r < PERIOD_SECS,
        r % PERIOD_SECS == 0,
{
    now / PERIOD_SECS * PERIOD_SECS
}

/// The side of an instrument that a token stands for.
#[derive(Debug, Clone, Copy, PartialEq, Eq, Structural)]
pub enum Outcome {
    Up,
    Down,
}

/// The outcome that a label in upper case names: up where it holds "UP" or
/// is "1", else down where it holds "DOWN" or is "0", else none.
pub open spec fn spec_classify_upper(upper: Seq<char>) -> Option<Outcome> {
    if occurs_in("UP"@, upper) || upper == "1"@ {
        Some(Outcome::Up)
    } else if occurs_in("DOWN"@, upper) || upper == "0"@ {
        Some(Outcome::Down)
    } else {
        None
    }
}

/// The outcome that a label names, whatever its case.
pub open spec fn spec_classify(label: Seq<char>) -> Option<Outcome> {
    spec_classify_upper(uppercase_text(label))
}

/// The outcome that a label in upper case names.
pub fn classify_upper(upper: &String) -> (r: Option<Outcome>)
    ensures
        r == spec_classify_upper(upper@),
{
    let one = "1".to_string();
    let zero = "0".to_string();
    if contains(upper.as_str(), "UP") || *upper == one {
        Some(Outcome::Up)
    } else if contains(upper.as_str(), "DOWN") || *upper == zero {
        Some(Outcome::Down)
    } else {
        None
    }
}

/// The outcome that a label names, whatever its case.
pub fn classify_outcome(label: &String) -> (r: Option<Outcome>)
    ensures
        r == spec_classify(label@),
{
    let upper = to_uppercase(label.as_str());
    classify_upper(&upper)
}

/// The text of an optional identifier.
pub open spec fn id_view(id: Option<String>) -> Option<Seq<char>> {
    match id {
        Some(s) => Some(s@),
        None => None,
    }
}

/// The up and down token identifiers after a market's tokens are gone
/// through in order: each token whose label names an outcome replaces the
/// identifier held for that outcome, the others are passed over.
pub open spec fn spec_assigned(
    tokens: Seq<MarketToken>,
    up: Option<Seq<char>>,
    down: Option<Seq<char>>,
) -> (Option<Seq<char>>, Option<Seq<char>>)
    decreases tokens.len(),
{
    if tokens.len() == 0 {
        (up, down)
    } else {
        let (u, d) = spec_assigned(tokens.drop_last(), up, down);
        match spec_classify(tokens.last().outcome@) {
            Some(Outcome::Up) => (Some(tokens.last().token_id@), d),
            Some(Outcome::Down) => (u, Some(tokens.last().token_id@)),
            None => (u, d),
        }
    }
}

/// The label of the token at `i` names the outcome.
pub open spec fn names_at(tokens: Seq<MarketToken>, outcome: Outcome, i: int) -> bool {
    0 <= i < tokens.len() && spec_classify(tokens[i].outcome@) == Some(outcome)
}

/// The token at `i` is the last whose label names the outcome.
pub open spec fn last_named_at(tokens: Seq<MarketToken>, outcome: Outcome, i: int) -> bool {
    &&& names_at(tokens, outcome, i)
    &&& forall|j: int| i < j ==> !#[trigger] names_at(tokens, outcome, j)
}

/// No token's label names the outcome.
pub open spec fn none_named(tokens: Seq<MarketToken>, outcome: Outcome) -> bool {
    forall|j: int| !#[trigger] names_at(tokens, outcome, j)
}

/// The identifier held for an outcome after a market's tokens are gone
/// through is that of the last token whose label names the outcome; it stays
/// as it was where no label does.
pub proof fn lemma_assigned_is_last(
    tokens: Seq<MarketToken>,
    up: Option<Seq<char>>,
    down: Option<Seq<char>>,
)
    ensures
        none_named(tokens, Outcome::Up) ==> spec_assigned(tokens, up, down).0 == up,
        none_named(tokens, Outcome::Down) ==> spec_assigned(tokens, up, down).1 == down,
        forall|i: int| #[trigger]
            last_named_at(tokens, Outcome::Up, i) ==> spec_assigned(tokens, up, down).0 == Some(
                tokens[i].token_id@,
            ),
        forall|i: int| #[trigger]
            last_named_at(tokens, Outcome::Down, i) ==> spec_assigned(tokens, up, down).1
                == Some(tokens[i].token_id@),
    decreases tokens.len(),
{
    if tokens.len() > 0 {
        let rest = tokens.drop_last();
        let last = tokens.len() - 1;
        lemma_assigned_is_last(rest, up, down);
        assert forall|outcome: Outcome, j: int| names_at(rest, outcome, j) implies names_at(
            tokens,
            outcome,
            j,
        ) by {}
        assert forall|outcome: Outcome, i: int|
            last_named_at(tokens, outcome, i) && i < last implies last_named_at(
            rest,
            outcome,
            i,
        ) by {
            assert forall|j: int| i < j implies !names_at(rest, outcome, j) by {
                if names_at(rest, outcome, j) {
                    assert(names_at(tokens, outcome, j));
                }
            }
        }
        assert forall|outcome: Outcome|
            !names_at(tokens, outcome, last) && none_named(tokens, outcome) implies none_named(
            rest,
            outcome,
        ) by {
            assert forall|j: int| !names_at(rest, outcome, j) by {
                if names_at(rest, outcome, j) {
                    assert(names_at(tokens, outcome, j));
                }
            }
        }
        assert forall|i: int| #[trigger]
            last_named_at(tokens, Outcome::Up, i) implies spec_assigned(tokens, up, down).0
            == Some(tokens[i].token_id@) by {
            if i < last {
                assert(!names_at(tokens, Outcome::Up, last));
                assert(last_named_at(rest, Outcome::Up, i));
            }
        }
        assert forall|i: int| #[trigger]
            last_named_at(tokens, Outcome::Down, i) implies spec_assigned(tokens, up, down).1
            == Some(tokens[i].token_id@) by {
            if i < last {
                assert(!names_at(tokens, Outcome::Down, last));
                assert(last_named_at(rest, Outcome::Down, i));
            }
        }
        if none_named(tokens, Outcome::Up) {
            assert(!names_at(tokens, Outcome::Up, last));
        }
        if none_named(tokens, Outcome::Down) {
            assert(!names_at(tokens, Outcome::Down, last));
        }
    }
}

/// The identifiers after a fetch: those assigned from the metadata, or the
/// ones held where the fetch failed.
pub open spec fn spec_refreshed(
    details: Option<MarketDetails>,
    up: Option<Seq<char>>,
    down: Option<Seq<char>>,
) -> (Option<Seq<char>>, Option<Seq<char>>) {
    match details {
        Some(d) => spec_assigned(d.tokens@, up, down),
        None => (up, down),
    }
}

/// Goes through a market's tokens and replaces the identifiers held for the
/// outcomes that their labels name.
pub fn assign_tokens(tokens: &Vec<MarketToken>, up: &mut Option<String>, down: &mut Option<String>)
    ensures
        (id_view(*final(up)), id_view(*final(down))) == spec_assigned(
            tokens@,
            id_view(*old(up)),
            id_view(*old(down)),
        ),
{
    let mut i: usize = 0;
    while i < tokens.len()
        invariant
            i <= tokens.len(),
            (id_view(*up), id_view(*down)) == spec_assigned(
                tokens@.subrange(0, i as int),
                id_view(*old(up)),
                id_view(*old(down)),
            ),
        decreases tokens.len() - i,
    {
        proof {
            assert(tokens@.subrange(0, i + 1).drop_last() =~= tokens@.subrange(0, i as int));
            assert(tokens@.subrange(0, i + 1).last() == tokens@[i as int]);
        }
        match classify_outcome(&tokens[i].outcome) {
            Some(Outcome::Up) => {
                *up = Some(tokens[i].token_id.clone());
            },
            Some(Outcome::Down) => {
                *down = Some(tokens[i].token_id.clone());
            },
            None => {},
        }
        i += 1;
    }
    proof {
        assert(tokens@.subrange(0, tokens@.len() as int) =~= tokens@);
    }
}

/// A quote as its token's text, its bid and its ask.
pub open spec fn quote_view(quote: Option<TokenPrice>) -> Option<
    (Seq<char>, Option<Decimal>, Option<Decimal>),
> {
    match quote {
        Some(q) => Some((q.token_id@, q.bid, q.ask)),
        None => None,
    }
}

/// The quote of a token from the two prices fetched for it.
pub fn token_price(
    token_id: &Option<String>,
    buy_price: Option<Decimal>,
    sell_price: Option<Decimal>,
) -> (r: Option<TokenPrice>)
    ensures
        quote_view(r) == spec_quote(id_view(*token_id), buy_price, sell_price),
{
    match token_id {
        Some(id) => {
            if buy_price.is_some() || sell_price.is_some() {
                Some(TokenPrice { token_id: id.clone(), bid: sell_price, ask: buy_price })
            } else {
                None
            }
        },
        None => None,
    }
}

/// The two prices fetched for one token, each absent where its fetch failed.
#[derive(Debug, Clone, Copy)]
pub struct FetchedPrices {
    pub buy: Option<Decimal>,
    pub sell: Option<Decimal>,
}

impl FetchedPrices {
    /// Both prices, where present, are well-formed decimals.
    pub open spec fn wf(self) -> bool {
        &&& self.buy matches Some(b) ==> b.wf()
        &&& self.sell matches Some(s) ==> s.wf()
    }

    /// Whether both prices, where present, are well-formed decimals.
    pub fn is_valid(&self) -> (r: bool)
        ensures
            r == self.wf(),
    {
        let buy_ok = match self.buy {
            Some(b) => b.is_valid(),
            None => true,
        };
        let sell_ok = match self.sell {
            Some(s) => s.is_valid(),
            None => true,
        };
        buy_ok && sell_ok
    }
}

/// The quotes of both instruments at one moment.
#[derive(Debug, Clone)]
pub struct MarketSnapshot {
    pub sol_market: MarketData,
    pub btc_market: MarketData,
    /// When the quotes were taken, in seconds.
    pub timestamp: u64,
}

impl MarketSnapshot {
    /// Every quote present is well-formed.
    pub open spec fn wf(self) -> bool {
        &&& self.sol_market.wf()
        &&& self.btc_market.wf()
    }

    /// Whether every quote present is well-formed.
    pub fn is_valid(&self) -> (r: bool)
        ensures
            r == self.wf(),
    {
        self.sol_market.is_valid() && self.btc_market.is_valid()
    }
}

/// The two tracked markets, the token identifiers of their outcomes, and the
/// period they belong to.
pub struct MarketMonitor {
    sol_market: Market,
    btc_market: Market,
    check_interval_ms: u64,
    sol_up_token_id: Option<String>,
    sol_down_token_id: Option<String>,
    btc_up_token_id: Option<String>,
    btc_down_token_id: Option<String>,
    last_market_refresh: Option<u64>,
    current_period_timestamp: u64,
}

/// The token identifiers of the four outcomes, each absent until resolved.
#[derive(Debug, Clone)]
pub struct OutcomeTokenIds {
    pub sol_up: Option<String>,
    pub sol_down: Option<String>,
    pub btc_up: Option<String>,
    pub btc_down: Option<String>,
}

/// Token identifiers are resolved again after this many seconds.
pub open spec fn spec_stale(last_refresh: Option<u64>, now: u64) -> bool {
    match last_refresh {
        Some(last) => now >= last && now - last >= PERIOD_SECS,
        None => true,
    }
}

impl MarketMonitor {
    /// The tracked SOL market.
    pub closed spec fn sol(self) -> Market {
        self.sol_market
    }

    /// The tracked BTC market.
    pub closed spec fn btc(self) -> Market {
        self.btc_market
    }

    /// The four token identifiers as texts: SOL up, SOL down, BTC up, BTC
    /// down.
    pub closed spec fn token_ids(self) -> (
        Option<Seq<char>>,
        Option<Seq<char>>,
        Option<Seq<char>>,
        Option<Seq<char>>,
    ) {
        (
            id_view(self.sol_up_token_id),
            id_view(self.sol_down_token_id),
            id_view(self.btc_up_token_id),
            id_view(self.btc_down_token_id),
        )
    }

    /// When the token identifiers were last resolved.
    pub closed spec fn last_refresh(self) -> Option<u64> {
        self.last_market_refresh
    }

    /// The start of the period that the tracked markets belong to.
    pub closed spec fn period(self) -> u64 {
        self.current_period_timestamp
    }

    /// Milliseconds between two polls.
    pub closed spec fn interval_ms(self) -> u64 {
        self.check_interval_ms
    }

    /// The two tracked markets carry distinct condition identifiers.
    pub open spec fn wf(self) -> bool {
        self.sol().condition_id@ != self.btc().condition_id@
    }

    /// A registry of two markets with no token identifier resolved yet, in
    /// the period that `now` lies in.
    pub fn new(sol_market: Market, btc_market: Market, check_interval_ms: u64, now: u64) -> (r:
        Self)
        requires
            sol_market.condition_id@ != btc_market.condition_id@,
        ensures
            r.wf(),
            r.sol() == sol_market,
            r.btc() == btc_market,
            r.interval_ms() == check_interval_ms,
            r.token_ids() == (
                None::<Seq<char>>,
                None::<Seq<char>>,
                None::<Seq<char>>,
                None::<Seq<char>>,
            ),
            r.last_refresh().is_none(),
            r.period() == spec_period(now),
    {
        MarketMonitor {
            sol_market,
            btc_market,
            check_interval_ms,
            sol_up_token_id: None,
            sol_down_token_id: None,
            btc_up_token_id: None,
            btc_down_token_id: None,
            last_market_refresh: None,
            current_period_timestamp: period_start(now),
        }
    }

    /// Milliseconds between two polls.
    pub fn check_interval_ms(&self) -> (r: u64)
        ensures
            r == self.interval_ms(),
    {
        self.check_interval_ms
    }

    /// Replaces both tracked markets at once for the period that `now` lies
    /// in, and forgets the token identifiers. Two markets with one condition
    /// identifier are refused and nothing changes.
    pub fn update_markets(&mut self, sol_market: Market, btc_market: Market, now: u64) -> (r:
        Result<(), MarketError>)
        requires
            old(self).wf(),
        ensures
            final(self).wf(),
            final(self).interval_ms() == old(self).interval_ms(),
            sol_market.condition_id@ == btc_market.condition_id@ ==> r == Err::<(), _>(
                MarketError::InvariantViolation,
            ) && *final(self) == *old(self),
            sol_market.condition_id@ != btc_market.condition_id@ ==> {
                &&& r.is_ok()
                &&& final(self).sol() == sol_market
                &&& final(self).btc() == btc_market
                &&& final(self).token_ids() == (
                    None::<Seq<char>>,
                    None::<Seq<char>>,
                    None::<Seq<char>>,
                    None::<Seq<char>>,
                )
                &&& final(self).last_refresh().is_none()
                &&& final(self).period() == spec_period(now)
            },
    {
        if sol_market.condition_id == btc_market.condition_id {
            return Err(MarketError::InvariantViolation);
        }
        self.sol_market = sol_market;
        self.btc_market = btc_market;
        self.sol_up_token_id = None;
        self.sol_down_token_id = None;
        self.btc_up_token_id = None;
        self.btc_down_token_id = None;
        self.last_market_refresh = None;
        self.current_period_timestamp = period_start(now);
        Ok(())
    }

    /// Whether `now` lies in another period than the tracked markets.
    pub fn should_discover_new_markets(&self, now: u64) -> (r: bool)
        ensures
            r == (spec_period(now) != self.period()),
    {
        period_start(now) != self.current_period_timestamp
    }

    /// The condition identifiers of the SOL and the BTC market.
    pub fn get_current_condition_ids(&self) -> (r: (String, String))
        ensures
            r.0@ == self.sol().condition_id@,
            r.1@ == self.btc().condition_id@,
            self.wf() ==> r.0@ != r.1@,
    {
        (self.sol_market.condition_id.clone(), self.btc_market.condition_id.clone())
    }

    /// The token identifiers of the four outcomes as far as resolved.
    pub fn current_outcome_token_ids(&self) -> (r: OutcomeTokenIds)
        ensures
            (id_view(r.sol_up), id_view(r.sol_down), id_view(r.btc_up), id_view(r.btc_down))
                == self.token_ids(),
    {
        OutcomeTokenIds {
            sol_up: self.sol_up_token_id.clone(),
            sol_down: self.sol_down_token_id.clone(),
            btc_up: self.btc_up_token_id.clone(),
            btc_down: self.btc_down_token_id.clone(),
        }
    }

    /// Whether the token identifiers are to be resolved again: never done, or
    /// last done a period ago or longer.
    pub fn needs_token_refresh(&self, now: u64) -> (r: bool)
        ensures
            r == spec_stale(self.last_refresh(), now),
    {
        match self.last_market_refresh {
            Some(last) => now >= last && now - last >= PERIOD_SECS,
            None => true,
        }
    }

    /// Takes the token identifiers from the metadata fetched for both
    /// markets, where they are to be resolved again; a failed fetch leaves
    /// its market's identifiers as they are. Says whether it did so.
    pub fn refresh_market_tokens(
        &mut self,
        sol_details: Option<&MarketDetails>,
        btc_details: Option<&MarketDetails>,
        now: u64,
    ) -> (r: bool)
        requires
            old(self).wf(),
        ensures
            final(self).wf(),
            r == spec_stale(old(self).last_refresh(), now),
            final(self).sol() == old(self).sol(),
            final(self).btc() == old(self).btc(),
            final(self).period() == old(self).period(),
            final(self).interval_ms() == old(self).interval_ms(),
            !r ==> *final(self) == *old(self),
            r ==> {
                let before = old(self).token_ids();
                let sol = spec_refreshed(deref_details(sol_details), before.0, before.1);
                let btc = spec_refreshed(deref_details(btc_details), before.2, before.3);
                &&& final(self).token_ids() == (sol.0, sol.1, btc.0, btc.1)
                &&& final(self).last_refresh() == Some(now)
            },
    {
        if !self.needs_token_refresh(now) {
            return false;
        }
        if let Some(details) = sol_details {
            assign_tokens(&details.tokens, &mut self.sol_up_token_id, &mut self.sol_down_token_id);
        }
        if let Some(details) = btc_details {
            assign_tokens(&details.tokens, &mut self.btc_up_token_id, &mut self.btc_down_token_id);
        }
        self.last_market_refresh = Some(now);
        true
    }

    /// Puts the prices fetched for the four tokens together into a snapshot
    /// taken at `now`.
    pub fn fetch_market_data(
        &self,
        sol_up: FetchedPrices,
        sol_down: FetchedPrices,
        btc_up: FetchedPrices,
        btc_down: FetchedPrices,
        now: u64,
    ) -> (r: MarketSnapshot)
        requires
            sol_up.wf(),
            sol_down.wf(),
            btc_up.wf(),
            btc_down.wf(),
        ensures
            r.wf(),
            r.timestamp == now,
            r.sol_market.condition_id@ == self.sol().condition_id@,
            r.btc_market.condition_id@ == self.btc().condition_id@,
            r.sol_market.market_name@ == "SOL"@,
            r.btc_market.market_name@ == "BTC"@,
            quote_view(r.sol_market.up_token) == spec_quote(
                self.token_ids().0,
                sol_up.buy,
                sol_up.sell,
            ),
            quote_view(r.sol_market.down_token) == spec_quote(
                self.token_ids().1,
                sol_down.buy,
                sol_down.sell,
            ),
            quote_view(r.btc_market.up_token) == spec_quote(
                self.token_ids().2,
                btc_up.buy,
                btc_up.sell,
            ),
            quote_view(r.btc_market.down_token) == spec_quote(
                self.token_ids().3,
                btc_down.buy,
                btc_down.sell,
            ),
    {
        let sol_market = MarketData {
            condition_id: self.sol_market.condition_id.clone(),
            market_name: "SOL".to_string(),
            up_token: token_price(&self.sol_up_token_id, sol_up.buy, sol_up.sell),
            down_token: token_price(&self.sol_down_token_id, sol_down.buy, sol_down.sell),
        };
        let btc_market = MarketData {
            condition_id: self.btc_market.condition_id.clone(),
            market_name: "BTC".to_string(),
            up_token: token_price(&self.btc_up_token_id, btc_up.buy, btc_up.sell),
            down_token: token_price(&self.btc_down_token_id, btc_down.buy, btc_down.sell),
        };
        MarketSnapshot { sol_market, btc_market, timestamp: now }
    }
}

/// The metadata behind an optional reference.
pub open spec fn deref_details(details: Option<&MarketDetails>) -> Option<MarketDetails> {
    match details {
        Some(d) => Some(*d),
        None => None,
    }
}

/// The quote of a token: the buy-side price is its ask, the sell-side price
/// its bid. None where the token is unknown or neither price was had.
pub open spec fn spec_quote(
    token_id: Option<Seq<char>>,
    buy_price: Option<Decimal>,
    sell_price: Option<Decimal>,
) -> Option<(Seq<char>, Option<Decimal>, Option<Decimal>)> {
    match token_id {
        Some(id) => if buy_price.is_some() || sell_price.is_some() {
            Some((id, sell_price, buy_price))
        } else {
            None
        },
        None => None,
    }
}

} // verus!
