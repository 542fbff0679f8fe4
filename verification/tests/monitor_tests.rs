use polymarket_arbitrage::decimal::Decimal;
use polymarket_arbitrage::discovery::{
    is_acceptable, market_slug, pair_markets, MarketSearch, SearchStep,
};
use polymarket_arbitrage::models::{Market, MarketDetails, MarketToken, Rewards};
use polymarket_arbitrage::monitor::{
    classify_outcome, classify_upper, period_start, token_price, FetchedPrices, MarketError,
    MarketMonitor, Outcome,
};

fn dec(mantissa: i128, scale: u32) -> Decimal {
    Decimal { mantissa, scale }
}

fn market(condition_id: &str, active: bool, closed: bool) -> Market {
    Market {
        condition_id: condition_id.to_string(),
        market_id: None,
        question: String::new(),
        slug: format!("slug-{}", condition_id),
        resolution_source: None,
        end_date_iso: None,
        end_date_iso_alt: None,
        active,
        closed,
        tokens: None,
        clob_token_ids: None,
        outcomes: None,
    }
}

fn token(id: &str, outcome: &str) -> MarketToken {
    MarketToken {
        outcome: outcome.to_string(),
        price: dec(5, 1),
        token_id: id.to_string(),
        winner: false,
    }
}

fn details(tokens: Vec<MarketToken>) -> MarketDetails {
    MarketDetails {
        accepting_order_timestamp: None,
        accepting_orders: true,
        active: true,
        archived: false,
        closed: false,
        condition_id: String::new(),
        description: String::new(),
        enable_order_book: true,
        end_date_iso: String::new(),
        fpmm: String::new(),
        game_start_time: None,
        icon: String::new(),
        image: String::new(),
        is_50_50_outcome: false,
        maker_base_fee: dec(0, 0),
        market_slug: String::new(),
        minimum_order_size: dec(5, 0),
        minimum_tick_size: dec(1, 2),
        neg_risk: false,
        neg_risk_market_id: String::new(),
        neg_risk_request_id: String::new(),
        notifications_enabled: false,
        question: String::new(),
        question_id: String::new(),
        rewards: Rewards { max_spread: dec(0, 0), min_size: dec(0, 0), rates: None },
        seconds_delay: 0,
        tags: Vec::new(),
        taker_base_fee: dec(0, 0),
        tokens,
    }
}

fn monitor(now: u64) -> MarketMonitor {
    MarketMonitor::new(market("0xsol", true, false), market("0xbtc", true, false), 1000, now)
}

fn none() -> FetchedPrices {
    FetchedPrices { buy: None, sell: None }
}

#[test]
fn period_starts_on_multiples_of_nine_hundred() {
    assert_eq!(period_start(0), 0);
    assert_eq!(period_start(899), 0);
    assert_eq!(period_start(900), 900);
    assert_eq!(period_start(1767726123), 1767726000);
    assert_eq!(period_start(u64::MAX), u64::MAX / 900 * 900);
}

#[test]
fn a_new_period_asks_for_discovery() {
    let m = monitor(1_800);
    assert!(!m.should_discover_new_markets(1_800));
    assert!(!m.should_discover_new_markets(2_699));
    assert!(m.should_discover_new_markets(2_700));
    assert!(m.should_discover_new_markets(1_799));
    assert_eq!(m.check_interval_ms(), 1000);
}

#[test]
fn labels_are_classified_whatever_their_case() {
    assert_eq!(classify_outcome(&"Up".to_string()), Some(Outcome::Up));
    assert_eq!(classify_outcome(&"up".to_string()), Some(Outcome::Up));
    assert_eq!(classify_outcome(&"Price goes UP".to_string()), Some(Outcome::Up));
    assert_eq!(classify_outcome(&"1".to_string()), Some(Outcome::Up));
    assert_eq!(classify_outcome(&"Down".to_string()), Some(Outcome::Down));
    assert_eq!(classify_outcome(&"down".to_string()), Some(Outcome::Down));
    assert_eq!(classify_outcome(&"0".to_string()), Some(Outcome::Down));
    assert_eq!(classify_outcome(&"Yes".to_string()), None);
    assert_eq!(classify_outcome(&"10".to_string()), None);
    assert_eq!(classify_outcome(&"".to_string()), None);
    assert_eq!(classify_outcome(&"Cup or down".to_string()), Some(Outcome::Up));
}

#[test]
fn upper_labels_are_matched_as_they_are() {
    assert_eq!(classify_upper(&"UP".to_string()), Some(Outcome::Up));
    assert_eq!(classify_upper(&"up".to_string()), None);
    assert_eq!(classify_upper(&"DOWN".to_string()), Some(Outcome::Down));
}

#[test]
fn token_ids_are_resolved_once_per_period() {
    let mut m = monitor(1_000);
    let ids = m.current_outcome_token_ids();
    assert!(ids.sol_up.is_none() && ids.sol_down.is_none());
    assert!(ids.btc_up.is_none() && ids.btc_down.is_none());
    assert!(m.needs_token_refresh(1_000));
    let sol = details(vec![token("su", "Up"), token("sd", "Down"), token("sx", "Maybe")]);
    let btc = details(vec![token("b1", "Up"), token("b2", "UP"), token("bd", "0")]);
    assert!(m.refresh_market_tokens(Some(&sol), Some(&btc), 1_000));
    let ids = m.current_outcome_token_ids();
    assert_eq!(ids.sol_up.as_deref(), Some("su"));
    assert_eq!(ids.sol_down.as_deref(), Some("sd"));
    assert_eq!(ids.btc_up.as_deref(), Some("b2"));
    assert_eq!(ids.btc_down.as_deref(), Some("bd"));

    assert!(!m.needs_token_refresh(1_899));
    let other = details(vec![token("zz", "Up")]);
    assert!(!m.refresh_market_tokens(Some(&other), Some(&other), 1_899));
    assert_eq!(m.current_outcome_token_ids().sol_up.as_deref(), Some("su"));

    assert!(m.needs_token_refresh(1_900));
    assert!(m.refresh_market_tokens(Some(&other), None, 1_900));
    let ids = m.current_outcome_token_ids();
    assert_eq!(ids.sol_up.as_deref(), Some("zz"));
    assert_eq!(ids.sol_down.as_deref(), Some("sd"));
    assert_eq!(ids.btc_up.as_deref(), Some("b2"));
    assert!(!m.needs_token_refresh(1_901));
}

#[test]
fn swapping_markets_forgets_the_token_ids() {
    let mut m = monitor(1_000);
    let sol = details(vec![token("su", "Up"), token("sd", "Down")]);
    m.refresh_market_tokens(Some(&sol), None, 1_000);
    assert!(m.should_discover_new_markets(1_900));
    let r = m.update_markets(market("0xsol2", true, false), market("0xbtc2", true, false), 1_900);
    assert_eq!(r, Ok(()));
    assert_eq!(m.get_current_condition_ids(), ("0xsol2".to_string(), "0xbtc2".to_string()));
    assert!(m.current_outcome_token_ids().sol_up.is_none());
    assert!(m.needs_token_refresh(1_900));
    assert!(!m.should_discover_new_markets(1_900));
}

#[test]
fn swapping_in_one_condition_id_twice_is_refused() {
    let mut m = monitor(1_000);
    let r = m.update_markets(market("0xsame", true, false), market("0xsame", true, false), 1_900);
    assert_eq!(r, Err(MarketError::InvariantViolation));
    assert_eq!(m.get_current_condition_ids(), ("0xsol".to_string(), "0xbtc".to_string()));
    assert!(m.should_discover_new_markets(1_900));
}

#[test]
fn markets_with_one_condition_id_are_rejected() {
    let r = pair_markets(market("0xsame", true, false), market("0xsame", true, false));
    assert_eq!(r.unwrap_err(), MarketError::InvariantViolation);
    let (sol, btc) = pair_markets(market("0xa", true, false), market("0xb", true, false)).unwrap();
    assert_eq!(sol.condition_id, "0xa");
    assert_eq!(btc.condition_id, "0xb");
}

#[test]
fn a_quote_needs_a_token_and_a_price() {
    let id = Some("tok".to_string());
    assert!(token_price(&None, Some(dec(4, 1)), Some(dec(3, 1))).is_none());
    assert!(token_price(&id, None, None).is_none());
    let q = token_price(&id, Some(dec(4, 1)), None).unwrap();
    assert_eq!(q.token_id, "tok");
    assert_eq!(q.ask.unwrap().mantissa, 4);
    assert!(q.bid.is_none());
    let q = token_price(&id, Some(dec(4, 1)), Some(dec(3, 1))).unwrap();
    assert_eq!(q.ask.unwrap().mantissa, 4);
    assert_eq!(q.bid.unwrap().mantissa, 3);
}

#[test]
fn a_snapshot_holds_the_quotes_of_resolved_tokens() {
    let mut m = monitor(1_000);
    let snap = m.fetch_market_data(
        FetchedPrices { buy: Some(dec(4, 1)), sell: Some(dec(3, 1)) },
        none(),
        none(),
        none(),
        1_001,
    );
    assert!(snap.sol_market.up_token.is_none());
    let sol = details(vec![token("su", "Up"), token("sd", "Down")]);
    let btc = details(vec![token("bd", "Down")]);
    m.refresh_market_tokens(Some(&sol), Some(&btc), 1_000);
    let snap = m.fetch_market_data(
        FetchedPrices { buy: Some(dec(4, 1)), sell: Some(dec(3, 1)) },
        none(),
        FetchedPrices { buy: Some(dec(6, 1)), sell: None },
        FetchedPrices { buy: None, sell: Some(dec(5, 1)) },
        1_002,
    );
    assert_eq!(snap.timestamp, 1_002);
    assert_eq!(snap.sol_market.condition_id, "0xsol");
    assert_eq!(snap.sol_market.market_name, "SOL");
    assert_eq!(snap.btc_market.condition_id, "0xbtc");
    assert_eq!(snap.btc_market.market_name, "BTC");
    let up = snap.sol_market.up_token.unwrap();
    assert_eq!(up.token_id, "su");
    assert_eq!(up.ask.unwrap().mantissa, 4);
    assert_eq!(up.bid.unwrap().mantissa, 3);
    assert!(snap.sol_market.down_token.is_none());
    assert!(snap.btc_market.up_token.is_none());
    let down = snap.btc_market.down_token.unwrap();
    assert_eq!(down.token_id, "bd");
    assert!(down.ask.is_none());
    assert_eq!(down.bid.unwrap().mantissa, 5);
}

#[test]
fn fetched_prices_are_checked_for_their_range() {
    assert!(none().is_valid());
    assert!(FetchedPrices { buy: Some(dec(4, 1)), sell: Some(dec(3, 28)) }.is_valid());
    assert!(!FetchedPrices { buy: Some(dec(4, 29)), sell: None }.is_valid());
    assert!(!FetchedPrices { buy: None, sell: Some(dec(1 << 100, 0)) }.is_valid());
}

#[test]
fn slugs_name_the_instrument_and_the_period() {
    assert_eq!(market_slug(&"btc".to_string(), 1767726000), "btc-updown-15m-1767726000");
    assert_eq!(market_slug(&"sol".to_string(), 0), "sol-updown-15m-0");
}

#[test]
fn acceptable_markets_are_new_active_and_open() {
    let seen = vec!["0xold".to_string()];
    assert!(is_acceptable(&market("0xnew", true, false), &seen));
    assert!(!is_acceptable(&market("0xold", true, false), &seen));
    assert!(!is_acceptable(&market("0xnew", false, false), &seen));
    assert!(!is_acceptable(&market("0xnew", true, true), &seen));
}

fn probe(step: SearchStep) -> String {
    match step {
        SearchStep::Probe(slug) => slug,
        other => panic!("no probe: {:?}", other),
    }
}

#[test]
fn the_search_falls_back_over_three_periods() {
    let seen = vec!["0xold".to_string()];
    let mut search = MarketSearch::new("sol".to_string(), 1767726123);
    assert_eq!(probe(search.start()), "sol-updown-15m-1767726000");
    assert_eq!(probe(search.step(None, &seen)), "sol-updown-15m-1767725100");
    assert_eq!(
        probe(search.step(Some(market("0xold", true, false)), &seen)),
        "sol-updown-15m-1767724200"
    );
    assert_eq!(
        probe(search.step(Some(market("0xnew", true, true)), &seen)),
        "sol-updown-15m-1767723300"
    );
    match search.step(Some(market("0xnew", true, false)), &seen) {
        SearchStep::Found(m) => assert_eq!(m.condition_id, "0xnew"),
        other => panic!("not found: {:?}", other),
    }
}

#[test]
fn the_search_gives_up_after_the_last_fallback() {
    let seen: Vec<String> = Vec::new();
    let mut search = MarketSearch::new("btc".to_string(), 9_000);
    probe(search.start());
    probe(search.step(None, &seen));
    probe(search.step(None, &seen));
    probe(search.step(None, &seen));
    assert!(matches!(search.step(None, &seen), SearchStep::Failed(MarketError::NotFound)));
    assert!(search.next_slug().is_none());
    assert!(matches!(search.step(None, &seen), SearchStep::Failed(MarketError::NotFound)));
}

#[test]
fn the_search_does_not_go_back_before_time_began() {
    let seen: Vec<String> = Vec::new();
    let mut search = MarketSearch::new("btc".to_string(), 1_000);
    assert_eq!(probe(search.start()), "btc-updown-15m-900");
    assert_eq!(probe(search.step(None, &seen)), "btc-updown-15m-0");
    assert!(matches!(search.step(None, &seen), SearchStep::Failed(MarketError::NotFound)));
}

#[test]
fn the_first_answer_can_end_the_search() {
    let seen: Vec<String> = Vec::new();
    let mut search = MarketSearch::new("btc".to_string(), 9_000);
    probe(search.start());
    let found = search.accept(Some(market("0xm", true, false)), &seen);
    assert_eq!(found.unwrap().condition_id, "0xm");
    assert_eq!(search.next_slug().unwrap(), "btc-updown-15m-9000");
}
