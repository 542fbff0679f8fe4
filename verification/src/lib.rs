//! Monitoring, arbitrage detection and trade lifecycle for a pair of rolling
//! fifteen-minute up/down prediction markets.
//!
//! The library holds the rules: decimal values, the detection rule, the
//! pending-trade ledger with its settlement sweep, the market registry and
//! market discovery. Clocks, network calls and process setup belong to the
//! caller, which hands in plain values.

pub mod api;
pub mod arbitrage;
pub mod config;
pub mod decimal;
pub mod discovery;
pub mod models;
pub mod monitor;
pub mod text;
pub mod trader;
