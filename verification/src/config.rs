//! What the process is configured with.

use crate::decimal::Decimal;
use vstd::prelude::*;

verus! {

/// The command line: the mode and where the configuration lives.
#[derive(Debug, Clone)]
pub struct Args {
    /// Run in simulation mode (no real trades).
    pub simulation: bool,
    /// Configuration file path.
    pub config: String,
}

/// The whole configuration.
#[derive(Debug, Clone)]
pub struct Config {
    pub polymarket: PolymarketConfig,
    pub trading: TradingConfig,
}

/// Where the venue's services are reached.
#[derive(Debug, Clone)]
pub struct PolymarketConfig {
    pub gamma_api_url: String,
    pub clob_api_url: String,
    pub ws_url: String,
    pub api_key: Option<String>,
}

/// The trading parameters.
#[derive(Debug, Clone)]
pub struct TradingConfig {
    pub min_profit_threshold: Decimal,
    pub max_position_size: Decimal,
    pub sol_condition_id: Option<String>,
    pub btc_condition_id: Option<String>,
    pub check_interval_ms: u64,
}

impl TradingConfig {
    /// Both amounts are well-formed decimals.
    pub open spec fn wf(self) -> bool {
        &&& self.min_profit_threshold.wf()
        &&& self.max_position_size.wf()
    }

    /// Whether both amounts are well-formed decimals.
    pub fn is_valid(&self) -> (r: bool)
        ensures
            r == self.wf(),
    {
        self.min_profit_threshold.is_valid() && self.max_position_size.is_valid()
    }
}

impl Default for Config {
    /// The public endpoints, a margin floor of one cent, positions of at
    /// most one hundred dollars, no pinned markets and a poll every second.
    fn default() -> (r: Self)
        ensures
            r.trading.wf(),
            r.polymarket.gamma_api_url@ == "https://gamma-api.polymarket.com"@,
            r.polymarket.clob_api_url@ == "https://clob.polymarket.com"@,
            r.polymarket.ws_url@ == "wss://clob-ws.polymarket.com"@,
            r.polymarket.api_key.is_none(),
            r.trading.min_profit_threshold == (Decimal { mantissa: 1, scale: 2 }),
            r.trading.max_position_size == (Decimal { mantissa: 1000, scale: 1 }),
            r.trading.sol_condition_id.is_none(),
            r.trading.btc_condition_id.is_none(),
            r.trading.check_interval_ms == 1000,
    {
        Config {
            polymarket: PolymarketConfig {
                gamma_api_url: "https://gamma-api.polymarket.com".to_string(),
                clob_api_url: "https://clob.polymarket.com".to_string(),
                ws_url: "wss://clob-ws.polymarket.com".to_string(),
                api_key: None,
            },
            trading: TradingConfig {
                min_profit_threshold: Decimal { mantissa: 1, scale: 2 },
                max_position_size: Decimal { mantissa: 1000, scale: 1 },
                sol_condition_id: None,
                btc_condition_id: None,
                check_interval_ms: 1000,
            },
        }
    }
}

} // verus!
