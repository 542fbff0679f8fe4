//! Finding the market of an instrument for the running period.

use crate::models::Market;
use crate::monitor::{period_start, spec_period, MarketError, PERIOD_SECS};
use crate::text::{contains_text, digits, listed, spec_digits};
use vstd::prelude::*;

verus! {

/// How many periods before the running one are tried after it.
pub const FALLBACK_PERIODS: u64 = 3;

/// The slug of an instrument's market for the period that starts at
/// `period`: the instrument's prefix, `-updown-15m-`, and the start in
/// decimal digits.
pub open spec fn spec_slug(slug_prefix: Seq<char>, period: u64) -> Seq<char> {
    slug_prefix + "-updown-15m-"@ + spec_digits(period as nat)
}

/// The slug of an instrument's market for the period that starts at `period`.
pub fn market_slug(slug_prefix: &String, period: u64) -> (r: String)
    ensures
        r@ == spec_slug(slug_prefix@, period),
{
    let mut slug = slug_prefix.clone();
    slug.append("-updown-15m-");
    let number = digits(period);
    slug.append(number.as_str());
    slug
}

/// The period tried at an attempt: the running period first, then the
/// periods before it one by one; none after the last fallback, nor before
/// time began.
pub open spec fn spec_probe_period(period: u64, attempt: u64) -> Option<u64> {
    if attempt <= FALLBACK_PERIODS && period >= attempt * PERIOD_SECS {
        Some((period - attempt * PERIOD_SECS) as u64)
    } else {
        None
    }
}

/// A market can be taken: it was not seen before, is active and not closed.
pub open spec fn spec_acceptable(market: Market, seen_ids: Seq<String>) -> bool {
    !listed(seen_ids, market.condition_id@) && market.active && !market.closed
}

/// Whether a market can be taken.
pub fn is_acceptable(market: &Market, seen_ids: &Vec<String>) -> (r: bool)
    ensures
        r == spec_acceptable(*market, seen_ids@),
{
    !contains_text(seen_ids, &market.condition_id) && market.active && !market.closed
}

/// The search for one instrument's market: which period to ask for next.
#[derive(Debug, Clone)]
pub struct MarketSearch {
    slug_prefix: String,
    period: u64,
    attempt: u64,
}

impl MarketSearch {
    /// The instrument's slug prefix.
    pub closed spec fn prefix(self) -> Seq<char> {
        self.slug_prefix@
    }

    /// The start of the period in which the search began.
    pub closed spec fn period(self) -> u64 {
        self.period
    }

    /// How many answers were turned down so far.
    pub closed spec fn attempt(self) -> u64 {
        self.attempt
    }

    /// The slug to ask for next, none where the search is over.
    pub open spec fn spec_next_slug(self) -> Option<Seq<char>> {
        match spec_probe_period(self.period(), self.attempt()) {
            Some(p) => Some(spec_slug(self.prefix(), p)),
            None => None,
        }
    }

    /// A search that starts with the period that `current_time` lies in.
    pub fn new(slug_prefix: String, current_time: u64) -> (r: Self)
        ensures
            r.prefix() == slug_prefix@,
            r.period() == spec_period(current_time),
            r.attempt() == 0,
    {
        MarketSearch { slug_prefix, period: period_start(current_time), attempt: 0 }
    }

    /// The slug to ask for next, none where the search is over.
    pub fn next_slug(&self) -> (r: Option<String>)
        ensures
            match r {
                Some(slug) => self.spec_next_slug() == Some(slug@),
                None => self.spec_next_slug().is_none(),
            },
    {
        if self.attempt <= FALLBACK_PERIODS && self.period >= self.attempt * PERIOD_SECS {
            Some(market_slug(&self.slug_prefix, self.period - self.attempt * PERIOD_SECS))
        } else {
            None
        }
    }

    /// Takes the answer to the slug asked for: a market that can be taken
    /// ends the search and is handed back; a failed fetch or any other
    /// market moves the search on to the period before.
    pub fn accept(&mut self, response: Option<Market>, seen_ids: &Vec<String>) -> (r: Option<
        Market,
    >)
        ensures
            final(self).prefix() == old(self).prefix(),
            final(self).period() == old(self).period(),
            match response {
                Some(market) => if spec_acceptable(market, seen_ids@) {
                    r == Some(market) && final(self).attempt() == old(self).attempt()
                } else {
                    r.is_none() && final(self).attempt() == next_attempt(old(self).attempt())
                },
                None => r.is_none() && final(self).attempt() == next_attempt(
                    old(self).attempt(),
                ),
            },
    {
        if let Some(market) = response {
            if is_acceptable(&market, seen_ids) {
                return Some(market);
            }
        }
        if self.attempt <= FALLBACK_PERIODS {
            self.attempt += 1;
        }
        None
    }

    /// The first thing to do: ask for the slug of the running period.
    pub fn start(&self) -> (r: SearchStep)
        ensures
            step_view(r) == next_view(*self),
    {
        match self.next_slug() {
            Some(slug) => SearchStep::Probe(slug),
            None => SearchStep::Failed(MarketError::NotFound),
        }
    }

    /// Takes the answer to the slug asked for and says what to do next: a
    /// market that can be taken is found; otherwise ask for the period
    /// before, or give up after the last fallback.
    pub fn step(&mut self, response: Option<Market>, seen_ids: &Vec<String>) -> (r: SearchStep)
        ensures
            final(self).prefix() == old(self).prefix(),
            final(self).period() == old(self).period(),
            taken(response, seen_ids@) ==> r == SearchStep::Found(response.unwrap())
                && final(self).attempt() == old(self).attempt(),
            !taken(response, seen_ids@) ==> {
                &&& final(self).attempt() == next_attempt(old(self).attempt())
                &&& step_view(r) == next_view(*final(self))
            },
    {
        match self.accept(response, seen_ids) {
            Some(market) => SearchStep::Found(market),
            None => self.start(),
        }
    }
}

/// The answer holds a market that can be taken.
pub open spec fn taken(response: Option<Market>, seen_ids: Seq<String>) -> bool {
    response matches Some(market) && spec_acceptable(market, seen_ids)
}

/// What a search asks its caller to do.
#[derive(Debug, Clone)]
pub enum SearchStep {
    /// Fetch the market of this slug and hand the answer to `step`.
    Probe(String),
    /// The search is over: this is the market.
    Found(Market),
    /// The search is over without a market.
    Failed(MarketError),
}

/// A step that is not `Found`, as the slug to ask for or the error.
pub open spec fn step_view(step: SearchStep) -> Option<Result<Seq<char>, MarketError>> {
    match step {
        SearchStep::Probe(slug) => Some(Ok(slug@)),
        SearchStep::Failed(e) => Some(Err(e)),
        SearchStep::Found(_) => None,
    }
}

/// What a search that found nothing yet does next: ask for its next slug, or
/// fail with `NotFound` where it has none.
pub open spec fn next_view(search: MarketSearch) -> Option<Result<Seq<char>, MarketError>> {
    match search.spec_next_slug() {
        Some(slug) => Some(Ok(slug)),
        None => Some(Err(MarketError::NotFound)),
    }
}

/// The attempt after one that failed; it stays where the search is over.
pub open spec fn next_attempt(attempt: u64) -> u64 {
    if attempt <= FALLBACK_PERIODS {
        (attempt + 1) as u64
    } else {
        attempt
    }
}

/// Takes the two markets found for trading, unless both carry one condition
/// identifier.
pub fn pair_markets(sol_market: Market, btc_market: Market) -> (r: Result<
    (Market, Market),
    MarketError,
>)
    ensures
        sol_market.condition_id@ == btc_market.condition_id@ ==> r == Err::<(Market, Market), _>(
            MarketError::InvariantViolation,
        ),
        sol_market.condition_id@ != btc_market.condition_id@ ==> r == Ok::<_, MarketError>(
            (sol_market, btc_market),
        ),
{
    if sol_market.condition_id == btc_market.condition_id {
        Err(MarketError::InvariantViolation)
    } else {
        Ok((sol_market, btc_market))
    }
}

} // verus!
