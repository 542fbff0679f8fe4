//! The detection rule: two legs bought together for less than the one dollar
//! that exactly one of them pays out.

use crate::decimal::{
    checked_add, checked_sub, decimal_difference, decimal_sum, difference_is_exact, larger_scale,
    lemma_pow10_bounds, lemma_rescaled_within, less_than, magnitude, mantissa_limit, pow10,
    sum_is_exact, Decimal,
};
use crate::models::{ArbitrageOpportunity, TokenPrice};
use crate::monitor::MarketSnapshot;
use vstd::prelude::*;

verus! {

/// One dollar, the payout of a winning token.
pub open spec fn dollar() -> Decimal {
    Decimal { mantissa: 10, scale: 1 }
}

/// The price below which a leg counts as a likely loser.
pub open spec fn min_leg_price() -> Decimal {
    Decimal { mantissa: 6, scale: 1 }
}

/// The margin asked for where none is configured: one cent.
pub open spec fn default_threshold() -> Decimal {
    Decimal { mantissa: 1, scale: 2 }
}

/// Both legs are priced below `min_leg_price`.
pub open spec fn both_legs_cheap(price1: Decimal, price2: Decimal) -> bool {
    price1.units() < min_leg_price().units() && price2.units() < min_leg_price().units()
}

/// The total cost and the margin of a pair of asks that the rule accepts, if
/// it accepts them. The total is what decimal addition gives for the two
/// asks and the margin what decimal subtraction gives for one dollar less
/// the total; a pair for which either has no result is not accepted.
pub open spec fn spec_margin(threshold: Decimal, price1: Decimal, price2: Decimal) -> Option<
    (Decimal, Decimal),
> {
    if both_legs_cheap(price1, price2) {
        None
    } else {
        match decimal_sum(price1, price2) {
            None => None,
            Some(total) => if total.units() < dollar().units() {
                match decimal_difference(dollar(), total) {
                    None => None,
                    Some(profit) => if profit.units() >= threshold.units() {
                        Some((total, profit))
                    } else {
                        None
                    },
                }
            } else {
                None
            },
        }
    }
}

/// One dollar less the sum of the two asks can be written with 28 decimal
/// places.
pub open spec fn margin_fits(price1: Decimal, price2: Decimal) -> bool {
    magnitude(pow10(28) - (price1.units() + price2.units())) < mantissa_limit()
}

/// The sum of the two asks and one dollar less that sum can both be written
/// as decimals: the sum on the larger scale of the two asks, the margin with
/// 28 decimal places or on the larger scale of one dollar and the sum.
pub open spec fn representable(price1: Decimal, price2: Decimal) -> bool {
    &&& sum_is_exact(price1, price2)
    &&& margin_fits(price1, price2) || (decimal_sum(price1, price2) matches Some(total)
        && difference_is_exact(dollar(), total))
}

/// The rule over the numbers themselves, in units of `10^-28`: the total cost
/// and the margin of a pair of asks, where the total is below one dollar,
/// the margin reaches the threshold and not both asks are cheap.
pub open spec fn exact_margin(threshold: Decimal, price1: Decimal, price2: Decimal) -> Option<
    (int, int),
> {
    let total = price1.units() + price2.units();
    if !both_legs_cheap(price1, price2) && total < pow10(28) && pow10(28) - total
        >= threshold.units() {
        Some((total, pow10(28) - total))
    } else {
        None
    }
}

/// A price from nothing to one dollar.
pub open spec fn unit_price(price: Decimal) -> bool {
    price.wf() && 0 <= price.units() <= pow10(28)
}

/// Two asks from nothing to one dollar can always be summed and their margin
/// taken exactly, so the rule holds of them in the numbers themselves.
pub proof fn lemma_unit_prices_representable(price1: Decimal, price2: Decimal)
    requires
        unit_price(price1),
        unit_price(price2),
    ensures
        representable(price1, price2),
{
    let s = larger_scale(price1, price2);
    lemma_rescaled_within(price1, s, pow10(28));
    lemma_rescaled_within(price2, s, pow10(28));
    lemma_pow10_bounds(28 - s);
    let q = pow10(28 - s);
    assert(mantissa_limit() * q >= mantissa_limit()) by (nonlinear_arith)
        requires
            q >= 1,
            mantissa_limit() > 0,
    ;
}

/// One dollar less a total is exact wherever the margin has 28 decimal places.
proof fn lemma_margin_is_exact(total: Decimal)
    requires
        total.wf(),
        magnitude(pow10(28) - total.units()) < mantissa_limit(),
    ensures
        difference_is_exact(dollar(), total),
{
    let s: int = if total.scale >= 1 {
        total.scale as int
    } else {
        1
    };
    lemma_pow10_bounds(s - 1);
    lemma_pow10_bounds(28 - s);
    let p = pow10(28 - s);
    assert(mantissa_limit() * p >= mantissa_limit()) by (nonlinear_arith)
        requires
            p >= 1,
            mantissa_limit() > 0,
    ;
    if total.scale == 0 {
        assert(total.units() == total.mantissa * pow10(28));
        assert(pow10(s - total.scale) == 10);
    } else {
        assert(pow10(s - total.scale) == 1);
    }
    assert(10 * pow10(s - 1) == pow10(s));
    lemma_pow10_bounds(s);
}

/// An opportunity as a mathematical value.
pub struct OpportunityView {
    pub sol_up_price: Decimal,
    pub btc_down_price: Decimal,
    pub total_cost: Decimal,
    pub expected_profit: Decimal,
    pub sol_up_token_id: Seq<char>,
    pub btc_down_token_id: Seq<char>,
    pub sol_condition_id: Seq<char>,
    pub btc_condition_id: Seq<char>,
}

impl View for ArbitrageOpportunity {
    type V = OpportunityView;

    open spec fn view(&self) -> OpportunityView {
        OpportunityView {
            sol_up_price: self.sol_up_price,
            btc_down_price: self.btc_down_price,
            total_cost: self.total_cost,
            expected_profit: self.expected_profit,
            sol_up_token_id: self.sol_up_token_id@,
            btc_down_token_id: self.btc_down_token_id@,
            sol_condition_id: self.sol_condition_id@,
            btc_condition_id: self.btc_condition_id@,
        }
    }
}

/// The asks of two quotes, where both have one.
pub open spec fn both_asks(token1: TokenPrice, token2: TokenPrice) -> Option<(Decimal, Decimal)> {
    match (token1.ask, token2.ask) {
        (Some(price1), Some(price2)) => Some((price1, price2)),
        _ => None,
    }
}

/// The opportunity of one pair of quotes, if there is one: none where either
/// quote lacks its ask, else what the rule gives for the two asks.
pub open spec fn spec_check_arbitrage(
    threshold: Decimal,
    token1: TokenPrice,
    token2: TokenPrice,
    condition1: Seq<char>,
    condition2: Seq<char>,
) -> Option<OpportunityView> {
    match both_asks(token1, token2) {
        None => None,
        Some((price1, price2)) => match spec_margin(threshold, price1, price2) {
            None => None,
            Some((total, profit)) => Some(
                OpportunityView {
                    sol_up_price: price1,
                    btc_down_price: price2,
                    total_cost: total,
                    expected_profit: profit,
                    sol_up_token_id: token1.token_id@,
                    btc_down_token_id: token2.token_id@,
                    sol_condition_id: condition1,
                    btc_condition_id: condition2,
                },
            ),
        },
    }
}

/// The asks of a pair of quotes can be summed and the margin taken exactly,
/// or one of the quotes lacks its ask.
pub open spec fn pair_representable(token1: TokenPrice, token2: TokenPrice) -> bool {
    match both_asks(token1, token2) {
        Some((price1, price2)) => representable(price1, price2),
        None => true,
    }
}

/// The rule over the numbers themselves for a pair of quotes: nothing where
/// one of them lacks its ask.
pub open spec fn pair_exact_margin(threshold: Decimal, token1: TokenPrice, token2: TokenPrice) -> Option<
    (int, int),
> {
    match both_asks(token1, token2) {
        Some((price1, price2)) => exact_margin(threshold, price1, price2),
        None => None,
    }
}

/// The opportunity of one leg combination where both quotes are present.
pub open spec fn spec_leg(
    threshold: Decimal,
    token1: Option<TokenPrice>,
    token2: Option<TokenPrice>,
    condition1: Seq<char>,
    condition2: Seq<char>,
) -> Option<OpportunityView> {
    match (token1, token2) {
        (Some(t1), Some(t2)) => spec_check_arbitrage(threshold, t1, t2, condition1, condition2),
        _ => None,
    }
}

/// Both asks of a pair of quotes, where present, lie between nothing and one
/// dollar.
pub open spec fn pair_unit_priced(token1: TokenPrice, token2: TokenPrice) -> bool {
    &&& token1.ask matches Some(price) ==> unit_price(price)
    &&& token2.ask matches Some(price) ==> unit_price(price)
}

/// Every ask of a leg combination lies between nothing and one dollar.
pub open spec fn leg_unit_priced(token1: Option<TokenPrice>, token2: Option<TokenPrice>) -> bool {
    &&& token1 matches Some(t) ==> (t.ask matches Some(price) ==> unit_price(price))
    &&& token2 matches Some(t) ==> (t.ask matches Some(price) ==> unit_price(price))
}

/// The asks of one leg combination can be summed and the margin taken
/// exactly, or the combination lacks a quote or an ask.
pub open spec fn leg_representable(token1: Option<TokenPrice>, token2: Option<TokenPrice>) -> bool {
    match (token1, token2) {
        (Some(t1), Some(t2)) => pair_representable(t1, t2),
        _ => true,
    }
}

/// The rule over the numbers themselves for one leg combination: nothing
/// where a quote or an ask is absent.
pub open spec fn leg_exact_margin(
    threshold: Decimal,
    token1: Option<TokenPrice>,
    token2: Option<TokenPrice>,
) -> Option<(int, int)> {
    match (token1, token2) {
        (Some(t1), Some(t2)) => pair_exact_margin(threshold, t1, t2),
        _ => None,
    }
}

/// What the rule gives for one leg combination agrees with the rule over the
/// numbers themselves: an opportunity with that total cost and margin, or
/// none where there is none.
pub open spec fn leg_is_exact(
    threshold: Decimal,
    token1: Option<TokenPrice>,
    token2: Option<TokenPrice>,
    condition1: Seq<char>,
    condition2: Seq<char>,
) -> bool {
    match spec_leg(threshold, token1, token2, condition1, condition2) {
        Some(o) => leg_exact_margin(threshold, token1, token2) == Some(
            (o.total_cost.units(), o.expected_profit.units()),
        ),
        None => leg_exact_margin(threshold, token1, token2).is_none(),
    }
}

/// The rule over the numbers themselves holds of a leg combination: its
/// asks lie between nothing and one dollar, or are representable.
pub open spec fn leg_priced_exactly(token1: Option<TokenPrice>, token2: Option<TokenPrice>) -> bool {
    leg_unit_priced(token1, token2) || leg_representable(token1, token2)
}

/// The total cost and the margin of an opportunity in units of `10^-28`.
pub open spec fn cost_and_margin(opportunity: ArbitrageOpportunity) -> (int, int) {
    (opportunity.total_cost.units(), opportunity.expected_profit.units())
}

/// Opportunities as mathematical values.
pub open spec fn opportunity_views(opportunities: Seq<ArbitrageOpportunity>) -> Seq<
    OpportunityView,
> {
    opportunities.map_values(|o: ArbitrageOpportunity| o@)
}

/// The total costs and the margins of opportunities in units of `10^-28`.
pub open spec fn costs_and_margins(opportunities: Seq<ArbitrageOpportunity>) -> Seq<(int, int)> {
    opportunities.map_values(|o: ArbitrageOpportunity| cost_and_margin(o))
}

/// A sequence of no or one element.
pub open spec fn optional_seq<T>(o: Option<T>) -> Seq<T> {
    match o {
        Some(x) => seq![x],
        None => Seq::empty(),
    }
}

/// What a snapshot yields: the opportunity of SOL up with BTC down, then that
/// of SOL down with BTC up.
pub open spec fn spec_detect(threshold: Decimal, snapshot: MarketSnapshot) -> Seq<OpportunityView> {
    optional_seq(
        spec_leg(
            threshold,
            snapshot.sol_market.up_token,
            snapshot.btc_market.down_token,
            snapshot.sol_market.condition_id@,
            snapshot.btc_market.condition_id@,
        ),
    ) + optional_seq(
        spec_leg(
            threshold,
            snapshot.sol_market.down_token,
            snapshot.btc_market.up_token,
            snapshot.sol_market.condition_id@,
            snapshot.btc_market.condition_id@,
        ),
    )
}

/// What a snapshot yields over the numbers themselves: the total cost and
/// the margin of SOL up with BTC down, then those of SOL down with BTC up,
/// each where the rule accepts the pair.
pub open spec fn exact_detect(threshold: Decimal, snapshot: MarketSnapshot) -> Seq<(int, int)> {
    optional_seq(
        leg_exact_margin(threshold, snapshot.sol_market.up_token, snapshot.btc_market.down_token),
    ) + optional_seq(
        leg_exact_margin(threshold, snapshot.sol_market.down_token, snapshot.btc_market.up_token),
    )
}

/// Two quotes whose asks lie between nothing and one dollar are
/// representable.
pub proof fn lemma_unit_priced_pair(token1: TokenPrice, token2: TokenPrice)
    requires
        pair_unit_priced(token1, token2),
    ensures
        pair_representable(token1, token2),
{
    if let Some((price1, price2)) = both_asks(token1, token2) {
        lemma_unit_prices_representable(price1, price2);
    }
}

/// Finds pairs of opposite legs that cost less than their payout.
#[derive(Clone, Copy, Debug)]
pub struct ArbitrageDetector {
    min_profit_threshold: Decimal,
}

impl ArbitrageDetector {
    /// The smallest margin that is reported.
    pub closed spec fn threshold(self) -> Decimal {
        self.min_profit_threshold
    }

    /// The threshold is a well-formed decimal.
    pub open spec fn wf(self) -> bool {
        self.threshold().wf()
    }

    /// A detector with the given margin floor, or with one cent where none
    /// is given.
    pub fn new(min_profit_threshold: Option<Decimal>) -> (r: Self)
        requires
            min_profit_threshold matches Some(t) ==> t.wf(),
        ensures
            r.wf(),
            r.threshold() == match min_profit_threshold {
                Some(t) => t,
                None => default_threshold(),
            },
    {
        let threshold = match min_profit_threshold {
            Some(t) => t,
            None => Decimal { mantissa: 1, scale: 2 },
        };
        ArbitrageDetector { min_profit_threshold: threshold }
    }

    /// The configured margin floor.
    pub fn min_profit_threshold(&self) -> (r: Decimal)
        ensures
            r == self.threshold(),
    {
        self.min_profit_threshold
    }

    /// Applies the rule to both leg combinations of a snapshot.
    pub fn detect_opportunities(&self, snapshot: &MarketSnapshot) -> (r: Vec<ArbitrageOpportunity>)
        requires
            self.wf(),
            snapshot.wf(),
        ensures
            opportunity_views(r@) == spec_detect(self.threshold(), *snapshot),
            forall|i: int| 0 <= i < r@.len() ==> (#[trigger] r@[i]).wf(),
            leg_priced_exactly(snapshot.sol_market.up_token, snapshot.btc_market.down_token)
                ==> leg_is_exact(
                self.threshold(),
                snapshot.sol_market.up_token,
                snapshot.btc_market.down_token,
                snapshot.sol_market.condition_id@,
                snapshot.btc_market.condition_id@,
            ),
            leg_priced_exactly(snapshot.sol_market.down_token, snapshot.btc_market.up_token)
                ==> leg_is_exact(
                self.threshold(),
                snapshot.sol_market.down_token,
                snapshot.btc_market.up_token,
                snapshot.sol_market.condition_id@,
                snapshot.btc_market.condition_id@,
            ),
            leg_priced_exactly(snapshot.sol_market.up_token, snapshot.btc_market.down_token)
                && leg_priced_exactly(snapshot.sol_market.down_token, snapshot.btc_market.up_token)
                ==> costs_and_margins(r@) == exact_detect(self.threshold(), *snapshot),
    {
        let mut opportunities: Vec<ArbitrageOpportunity> = Vec::new();
        if let (Some(sol_up), Some(btc_down)) = (
            &snapshot.sol_market.up_token,
            &snapshot.btc_market.down_token,
        ) {
            if let Some(opportunity) = self.check_arbitrage(
                sol_up,
                btc_down,
                &snapshot.sol_market.condition_id,
                &snapshot.btc_market.condition_id,
            ) {
                opportunities.push(opportunity);
            }
        }
        let ghost first = opportunities@;
        if let (Some(sol_down), Some(btc_up)) = (
            &snapshot.sol_market.down_token,
            &snapshot.btc_market.up_token,
        ) {
            if let Some(opportunity) = self.check_arbitrage(
                sol_down,
                btc_up,
                &snapshot.sol_market.condition_id,
                &snapshot.btc_market.condition_id,
            ) {
                opportunities.push(opportunity);
            }
        }
        proof {
            assert(opportunity_views(opportunities@) =~= spec_detect(
                self.threshold(),
                *snapshot,
            ));
            if leg_priced_exactly(snapshot.sol_market.up_token, snapshot.btc_market.down_token)
                && leg_priced_exactly(snapshot.sol_market.down_token, snapshot.btc_market.up_token) {
                assert(costs_and_margins(opportunities@) =~= exact_detect(
                    self.threshold(),
                    *snapshot,
                ));
            }
        }
        opportunities
    }

    /// Applies the rule to one pair of quotes. A quote without an ask gives no
    /// opportunity: the zero that `ask_price` stands in for it is never priced.
    pub fn check_arbitrage(
        &self,
        token1: &TokenPrice,
        token2: &TokenPrice,
        condition1: &String,
        condition2: &String,
    ) -> (r: Option<ArbitrageOpportunity>)
        requires
            self.wf(),
            token1.wf(),
            token2.wf(),
        ensures
            r.is_some() == spec_check_arbitrage(
                self.threshold(),
                *token1,
                *token2,
                condition1@,
                condition2@,
            ).is_some(),
            r matches Some(o) ==> o.wf() && Some(o@) == spec_check_arbitrage(
                self.threshold(),
                *token1,
                *token2,
                condition1@,
                condition2@,
            ),
            both_asks(*token1, *token2) matches Some((price1, price2)) ==> (both_legs_cheap(
                price1,
                price2,
            ) ==> r.is_none()),
            both_asks(*token1, *token2).is_none() ==> r.is_none(),
            pair_unit_priced(*token1, *token2) || pair_representable(*token1, *token2) ==> match r {
                Some(o) => pair_exact_margin(self.threshold(), *token1, *token2) == Some(
                    cost_and_margin(o),
                ),
                None => pair_exact_margin(self.threshold(), *token1, *token2).is_none(),
            },
    {
        proof {
            if pair_unit_priced(*token1, *token2) {
                lemma_unit_priced_pair(*token1, *token2);
            }
        }
        let (price1, price2) = match (token1.ask, token2.ask) {
            (Some(price1), Some(price2)) => (price1, price2),
            _ => {
                return None;
            },
        };
        let floor = Decimal { mantissa: 6, scale: 1 };
        let one = Decimal::one();
        assert(floor.wf());
        if less_than(price1, floor) && less_than(price2, floor) {
            return None;
        }
        let total_cost = match checked_add(price1, price2) {
            Some(t) => t,
            None => {
                return None;
            },
        };
        if !less_than(total_cost, one) {
            return None;
        }
        proof {
            if representable(price1, price2) && margin_fits(price1, price2) {
                lemma_margin_is_exact(total_cost);
            }
        }
        let expected_profit = match checked_sub(one, total_cost) {
            Some(p) => p,
            None => {
                return None;
            },
        };
        if less_than(expected_profit, self.min_profit_threshold) {
            return None;
        }
        Some(
            ArbitrageOpportunity {
                sol_up_price: price1,
                btc_down_price: price2,
                total_cost,
                expected_profit,
                sol_up_token_id: token1.token_id.clone(),
                btc_down_token_id: token2.token_id.clone(),
                sol_condition_id: condition1.clone(),
                btc_condition_id: condition2.clone(),
            },
        )
    }
}

} // verus!
