//! The data that flows between the market registry, the detector and the
//! trade ledger.

use crate::decimal::{checked_add, checked_div, decimal_quotient, decimal_sum, Decimal};
use vstd::prelude::*;

verus! {

/// A market as the discovery endpoint describes it.
#[derive(Debug, Clone)]
pub struct Market {
    pub condition_id: String,
    pub market_id: Option<String>,
    pub question: String,
    pub slug: String,
    pub resolution_source: Option<String>,
    pub end_date_iso: Option<String>,
    pub end_date_iso_alt: Option<String>,
    pub active: bool,
    pub closed: bool,
    pub tokens: Option<Vec<Token>>,
    pub clob_token_ids: Option<String>,
    pub outcomes: Option<String>,
}

/// One outcome token of a discovered market.
#[derive(Debug, Clone)]
pub struct Token {
    pub token_id: String,
    pub outcome: String,
    pub price: Option<Decimal>,
}

/// The resting orders of one token, best first on each side.
#[derive(Debug, Clone)]
pub struct OrderBook {
    pub bids: Vec<OrderBookEntry>,
    pub asks: Vec<OrderBookEntry>,
}

/// One price level of an order book.
#[derive(Debug, Clone, Copy)]
pub struct OrderBookEntry {
    pub price: Decimal,
    pub size: Decimal,
}

/// The current quote of one outcome token.
#[derive(Debug, Clone)]
pub struct TokenPrice {
    pub token_id: String,
    pub bid: Option<Decimal>,
    pub ask: Option<Decimal>,
}

/// The decimal two.
pub open spec fn two() -> Decimal {
    Decimal { mantissa: 2, scale: 0 }
}

/// The mid price of a quote: the mean of both sides where both are present,
/// the present side where one is, nothing where none is. The mean is what
/// decimal addition and division give; where either has no result, neither
/// has the mean.
pub open spec fn spec_mid_price(bid: Option<Decimal>, ask: Option<Decimal>) -> Option<Decimal> {
    match (bid, ask) {
        (Some(b), Some(a)) => match decimal_sum(b, a) {
            Some(total) => decimal_quotient(total, two()),
            None => None,
        },
        (Some(b), None) => Some(b),
        (None, Some(a)) => Some(a),
        (None, None) => None,
    }
}

/// The ask of a quote, zero where it is absent.
pub open spec fn spec_ask_price(ask: Option<Decimal>) -> Decimal {
    match ask {
        Some(a) => a,
        None => Decimal { mantissa: 0, scale: 0 },
    }
}

impl TokenPrice {
    /// Both sides, where present, are well-formed decimals.
    pub open spec fn wf(self) -> bool {
        &&& self.bid matches Some(b) ==> b.wf()
        &&& self.ask matches Some(a) ==> a.wf()
    }

    /// Whether both sides, where present, are well-formed decimals.
    pub fn is_valid(&self) -> (r: bool)
        ensures
            r == self.wf(),
    {
        let bid_ok = match self.bid {
            Some(b) => b.is_valid(),
            None => true,
        };
        let ask_ok = match self.ask {
            Some(a) => a.is_valid(),
            None => true,
        };
        bid_ok && ask_ok
    }

    /// The mean of bid and ask, or the side that is present.
    pub fn mid_price(&self) -> (r: Option<Decimal>)
        requires
            self.wf(),
        ensures
            r == spec_mid_price(self.bid, self.ask),
            r matches Some(m) ==> m.wf(),
    {
        match (self.bid, self.ask) {
            (Some(bid), Some(ask)) => match checked_add(bid, ask) {
                Some(total) => checked_div(total, Decimal { mantissa: 2, scale: 0 }),
                None => None,
            },
            (Some(bid), None) => Some(bid),
            (None, Some(ask)) => Some(ask),
            (None, None) => None,
        }
    }

    /// The ask, zero where it is absent.
    pub fn ask_price(&self) -> (r: Decimal)
        ensures
            r == spec_ask_price(self.ask),
            self.wf() ==> r.wf(),
    {
        match self.ask {
            Some(a) => a,
            None => Decimal::zero(),
        }
    }
}

/// An order to submit to the venue.
#[derive(Debug, Clone)]
pub struct OrderRequest {
    pub token_id: String,
    /// "BUY" or "SELL".
    pub side: String,
    pub size: String,
    pub price: String,
    /// "LIMIT" or "MARKET".
    pub order_type: String,
}

/// The venue's answer to an order.
#[derive(Debug, Clone)]
pub struct OrderResponse {
    pub order_id: Option<String>,
    pub status: String,
    pub message: Option<String>,
}

/// The quotes of one instrument's two outcome tokens.
#[derive(Debug, Clone)]
pub struct MarketData {
    pub condition_id: String,
    pub market_name: String,
    pub up_token: Option<TokenPrice>,
    pub down_token: Option<TokenPrice>,
}

impl MarketData {
    /// Every quote present is well-formed.
    pub open spec fn wf(self) -> bool {
        &&& self.up_token matches Some(t) ==> t.wf()
        &&& self.down_token matches Some(t) ==> t.wf()
    }

    /// Whether every quote present is well-formed.
    pub fn is_valid(&self) -> (r: bool)
        ensures
            r == self.wf(),
    {
        let up_ok = match &self.up_token {
            Some(t) => t.is_valid(),
            None => true,
        };
        let down_ok = match &self.down_token {
            Some(t) => t.is_valid(),
            None => true,
        };
        up_ok && down_ok
    }
}

/// Two legs whose asks sum to less than one dollar.
#[derive(Debug, Clone)]
pub struct ArbitrageOpportunity {
    pub sol_up_price: Decimal,
    pub btc_down_price: Decimal,
    pub total_cost: Decimal,
    pub expected_profit: Decimal,
    pub sol_up_token_id: String,
    pub btc_down_token_id: String,
    pub sol_condition_id: String,
    pub btc_condition_id: String,
}

impl ArbitrageOpportunity {
    /// All four decimals are well-formed.
    pub open spec fn wf(self) -> bool {
        &&& self.sol_up_price.wf()
        &&& self.btc_down_price.wf()
        &&& self.total_cost.wf()
        &&& self.expected_profit.wf()
    }

    /// Whether all four decimals are well-formed.
    pub fn is_valid(&self) -> (r: bool)
        ensures
            r == self.wf(),
    {
        self.sol_up_price.is_valid() && self.btc_down_price.is_valid()
            && self.total_cost.is_valid() && self.expected_profit.is_valid()
    }
}

/// A position opened on one pair of markets and not yet settled.
#[derive(Debug, Clone)]
pub struct PendingTrade {
    pub sol_token_id: String,
    pub btc_token_id: String,
    pub sol_condition_id: String,
    pub btc_condition_id: String,
    pub investment_amount: Decimal,
    pub units: Decimal,
    /// When the position was opened, in seconds.
    pub timestamp: u64,
}

impl PendingTrade {
    /// Both amounts are well-formed decimals.
    pub open spec fn wf(self) -> bool {
        &&& self.investment_amount.wf()
        &&& self.units.wf()
    }
}

/// One outcome token in a market's metadata.
#[derive(Debug, Clone)]
pub struct MarketToken {
    pub outcome: String,
    pub price: Decimal,
    pub token_id: String,
    pub winner: bool,
}

/// A market's metadata as the order-book service reports it.
#[derive(Debug, Clone)]
pub struct MarketDetails {
    pub accepting_order_timestamp: Option<String>,
    pub accepting_orders: bool,
    pub active: bool,
    pub archived: bool,
    pub closed: bool,
    pub condition_id: String,
    pub description: String,
    pub enable_order_book: bool,
    pub end_date_iso: String,
    pub fpmm: String,
    pub game_start_time: Option<String>,
    pub icon: String,
    pub image: String,
    pub is_50_50_outcome: bool,
    pub maker_base_fee: Decimal,
    pub market_slug: String,
    pub minimum_order_size: Decimal,
    pub minimum_tick_size: Decimal,
    pub neg_risk: bool,
    pub neg_risk_market_id: String,
    pub neg_risk_request_id: String,
    pub notifications_enabled: bool,
    pub question: String,
    pub question_id: String,
    pub rewards: Rewards,
    pub seconds_delay: u32,
    pub tags: Vec<String>,
    pub taker_base_fee: Decimal,
    pub tokens: Vec<MarketToken>,
}

/// The reward terms of a market; `rates` is kept as the text it came in.
#[derive(Debug, Clone)]
pub struct Rewards {
    pub max_spread: Decimal,
    pub min_size: Decimal,
    pub rates: Option<String>,
}

} // verus!
