use polymarket_arbitrage::arbitrage::ArbitrageDetector;
use polymarket_arbitrage::decimal::Decimal;
use polymarket_arbitrage::models::{MarketData, TokenPrice};
use polymarket_arbitrage::monitor::MarketSnapshot;

fn dec(mantissa: i128, scale: u32) -> Decimal {
    Decimal { mantissa, scale }
}

fn num(d: Decimal) -> rust_decimal::Decimal {
    rust_decimal::Decimal::from_i128_with_scale(d.mantissa, d.scale)
}

fn text(d: Decimal) -> String {
    num(d).normalize().to_string()
}

fn ask(id: &str, mantissa: i128, scale: u32) -> Option<TokenPrice> {
    Some(TokenPrice { token_id: id.to_string(), bid: None, ask: Some(dec(mantissa, scale)) })
}

fn snapshot(
    sol_up: Option<TokenPrice>,
    sol_down: Option<TokenPrice>,
    btc_up: Option<TokenPrice>,
    btc_down: Option<TokenPrice>,
) -> MarketSnapshot {
    MarketSnapshot {
        sol_market: MarketData {
            condition_id: "0xsol".to_string(),
            market_name: "SOL".to_string(),
            up_token: sol_up,
            down_token: sol_down,
        },
        btc_market: MarketData {
            condition_id: "0xbtc".to_string(),
            market_name: "BTC".to_string(),
            up_token: btc_up,
            down_token: btc_down,
        },
        timestamp: 0,
    }
}

fn cent_detector() -> ArbitrageDetector {
    ArbitrageDetector::new(Some(dec(1, 2)))
}

#[test]
fn scenario_042_and_050_are_both_cheap() {
    // A total of 0.92 leaves a margin of 0.08, but both asks lie below 0.6.
    let snap = snapshot(ask("su", 42, 2), None, None, ask("bd", 50, 2));
    assert_eq!(cent_detector().detect_opportunities(&snap).len(), 0);
}

#[test]
fn an_accepted_pair_is_reported_with_all_its_fields() {
    let snap = snapshot(ask("su", 62, 2), None, None, ask("bd", 30, 2));
    let found = cent_detector().detect_opportunities(&snap);
    assert_eq!(found.len(), 1);
    let o = &found[0];
    assert_eq!(text(o.sol_up_price), "0.62");
    assert_eq!(text(o.btc_down_price), "0.3");
    assert_eq!(text(o.total_cost), "0.92");
    assert_eq!(text(o.expected_profit), "0.08");
    assert_eq!(o.sol_up_token_id, "su");
    assert_eq!(o.btc_down_token_id, "bd");
    assert_eq!(o.sol_condition_id, "0xsol");
    assert_eq!(o.btc_condition_id, "0xbtc");
}

#[test]
fn scenario_055_and_058_is_no_opportunity() {
    let snap = snapshot(ask("su", 55, 2), None, None, ask("bd", 58, 2));
    assert_eq!(cent_detector().detect_opportunities(&snap).len(), 0);
}

#[test]
fn scenario_03_and_055_are_both_cheap() {
    // Both asks lie below 0.6, so the safety filter holds the pair back.
    let snap = snapshot(ask("su", 3, 1), None, None, ask("bd", 55, 2));
    assert_eq!(cent_detector().detect_opportunities(&snap).len(), 0);
}

#[test]
fn one_cheap_leg_is_still_an_opportunity() {
    let snap = snapshot(ask("su", 3, 1), None, None, ask("bd", 65, 2));
    let found = cent_detector().detect_opportunities(&snap);
    assert_eq!(found.len(), 1);
    assert_eq!(text(found[0].total_cost), "0.95");
    assert_eq!(text(found[0].expected_profit), "0.05");
}

#[test]
fn a_leg_at_exactly_sixty_cents_is_not_cheap() {
    let snap = snapshot(ask("su", 6, 1), None, None, ask("bd", 3, 1));
    let found = cent_detector().detect_opportunities(&snap);
    assert_eq!(found.len(), 1);
    assert_eq!(text(found[0].total_cost), "0.9");
    assert_eq!(text(found[0].expected_profit), "0.1");
}

#[test]
fn total_of_exactly_one_dollar_is_no_opportunity() {
    let detector = ArbitrageDetector::new(Some(dec(0, 0)));
    let snap = snapshot(ask("su", 7, 1), None, None, ask("bd", 3, 1));
    assert_eq!(detector.detect_opportunities(&snap).len(), 0);
}

#[test]
fn margin_equal_to_the_threshold_is_reported() {
    let detector = ArbitrageDetector::new(Some(dec(5, 2)));
    let snap = snapshot(ask("su", 65, 2), None, None, ask("bd", 30, 2));
    assert_eq!(detector.detect_opportunities(&snap).len(), 1);
    let detector = ArbitrageDetector::new(Some(dec(51, 3)));
    assert_eq!(detector.detect_opportunities(&snap).len(), 0);
}

#[test]
fn both_combinations_are_looked_at_in_order() {
    let snap = snapshot(ask("su", 70, 2), ask("sd", 25, 2), ask("bu", 65, 2), ask("bd", 20, 2));
    let found = cent_detector().detect_opportunities(&snap);
    assert_eq!(found.len(), 2);
    assert_eq!(found[0].sol_up_token_id, "su");
    assert_eq!(found[0].btc_down_token_id, "bd");
    assert_eq!(text(found[0].total_cost), "0.9");
    assert_eq!(found[1].sol_up_token_id, "sd");
    assert_eq!(found[1].btc_down_token_id, "bu");
    assert_eq!(text(found[1].total_cost), "0.9");
}

#[test]
fn an_absent_leg_yields_nothing_for_its_combination() {
    let snap = snapshot(ask("su", 70, 2), None, ask("bu", 65, 2), None);
    assert_eq!(cent_detector().detect_opportunities(&snap).len(), 0);
}

#[test]
fn a_quote_without_ask_gives_no_opportunity() {
    let bid_only = Some(TokenPrice { token_id: "su".to_string(), bid: Some(dec(2, 1)), ask: None });
    let snap = snapshot(bid_only.clone(), None, None, ask("bd", 7, 1));
    assert!(cent_detector().detect_opportunities(&snap).is_empty());
    let snap = snapshot(None, ask("sd", 7, 1), bid_only.clone(), None);
    assert!(cent_detector().detect_opportunities(&snap).is_empty());
    let t1 = bid_only.unwrap();
    let t2 = TokenPrice { token_id: "b".to_string(), bid: None, ask: Some(dec(7, 1)) };
    let c = "c".to_string();
    assert!(cent_detector().check_arbitrage(&t1, &t2, &c, &c).is_none());
    assert!(cent_detector().check_arbitrage(&t2, &t1, &c, &c).is_none());
    assert_eq!(text(t1.ask_price()), "0");
}

#[test]
fn an_ask_of_zero_is_priced_as_it_stands() {
    let snap = snapshot(ask("su", 0, 0), None, None, ask("bd", 7, 1));
    let found = cent_detector().detect_opportunities(&snap);
    assert_eq!(found.len(), 1);
    assert_eq!(text(found[0].sol_up_price), "0");
    assert_eq!(text(found[0].total_cost), "0.7");
    assert_eq!(text(found[0].expected_profit), "0.3");
}

#[test]
fn without_a_threshold_one_cent_is_asked_for() {
    let detector = ArbitrageDetector::new(None);
    assert_eq!(text(detector.min_profit_threshold()), "0.01");
    let snap = snapshot(ask("su", 695, 3), None, None, ask("bd", 3, 1));
    assert_eq!(detector.detect_opportunities(&snap).len(), 0);
    let snap = snapshot(ask("su", 69, 2), None, None, ask("bd", 3, 1));
    assert_eq!(detector.detect_opportunities(&snap).len(), 1);
}

#[test]
fn check_arbitrage_reports_one_pair() {
    let t1 = TokenPrice { token_id: "a".to_string(), bid: None, ask: Some(dec(61, 2)) };
    let t2 = TokenPrice { token_id: "b".to_string(), bid: None, ask: Some(dec(2, 1)) };
    let o = cent_detector()
        .check_arbitrage(&t1, &t2, &"c1".to_string(), &"c2".to_string())
        .unwrap();
    assert_eq!(text(o.total_cost), "0.81");
    assert_eq!(text(o.expected_profit), "0.19");
    assert_eq!(o.sol_condition_id, "c1");
    assert_eq!(o.btc_condition_id, "c2");
}
