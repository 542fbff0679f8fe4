use polymarket_arbitrage::api::get_best_price;
use polymarket_arbitrage::config::Config;
use polymarket_arbitrage::decimal::Decimal;
use polymarket_arbitrage::models::{OrderBook, OrderBookEntry, TokenPrice};
use polymarket_arbitrage::text::{contains_text, digits};

fn dec(mantissa: i128, scale: u32) -> Decimal {
    Decimal { mantissa, scale }
}

fn text(d: Decimal) -> String {
    rust_decimal::Decimal::from_i128_with_scale(d.mantissa, d.scale).normalize().to_string()
}

fn quote(bid: Option<Decimal>, ask: Option<Decimal>) -> TokenPrice {
    TokenPrice { token_id: "t".to_string(), bid, ask }
}

#[test]
fn mid_price_is_the_mean_of_both_sides() {
    let q = quote(Some(dec(40, 2)), Some(dec(5, 1)));
    assert_eq!(text(q.mid_price().unwrap()), "0.45");
}

#[test]
fn mid_price_of_one_side_is_that_side() {
    assert_eq!(text(quote(Some(dec(40, 2)), None).mid_price().unwrap()), "0.4");
    assert_eq!(text(quote(None, Some(dec(7, 1))).mid_price().unwrap()), "0.7");
}

#[test]
fn mid_price_of_no_side_is_none() {
    assert!(quote(None, None).mid_price().is_none());
}

#[test]
fn ask_price_defaults_to_zero() {
    assert_eq!(text(quote(Some(dec(40, 2)), None).ask_price()), "0");
    assert_eq!(text(quote(None, Some(dec(41, 2))).ask_price()), "0.41");
}

#[test]
fn best_price_takes_the_first_entries() {
    let book = OrderBook {
        bids: vec![
            OrderBookEntry { price: dec(40, 2), size: dec(10, 0) },
            OrderBookEntry { price: dec(39, 2), size: dec(10, 0) },
        ],
        asks: vec![
            OrderBookEntry { price: dec(42, 2), size: dec(5, 0) },
            OrderBookEntry { price: dec(43, 2), size: dec(5, 0) },
        ],
    };
    let q = get_best_price(&"tok".to_string(), &book).unwrap();
    assert_eq!(q.token_id, "tok");
    assert_eq!(text(q.bid.unwrap()), "0.4");
    assert_eq!(text(q.ask.unwrap()), "0.42");
}

#[test]
fn best_price_needs_an_ask() {
    let book = OrderBook {
        bids: vec![OrderBookEntry { price: dec(40, 2), size: dec(10, 0) }],
        asks: vec![],
    };
    assert!(get_best_price(&"tok".to_string(), &book).is_none());
    let book = OrderBook {
        bids: vec![],
        asks: vec![OrderBookEntry { price: dec(42, 2), size: dec(5, 0) }],
    };
    let q = get_best_price(&"tok".to_string(), &book).unwrap();
    assert!(q.bid.is_none());
    assert_eq!(text(q.ask.unwrap()), "0.42");
}

#[test]
fn default_configuration() {
    let c = Config::default();
    assert_eq!(c.polymarket.gamma_api_url, "https://gamma-api.polymarket.com");
    assert_eq!(c.polymarket.clob_api_url, "https://clob.polymarket.com");
    assert_eq!(c.polymarket.ws_url, "wss://clob-ws.polymarket.com");
    assert!(c.polymarket.api_key.is_none());
    assert_eq!(text(c.trading.min_profit_threshold), "0.01");
    assert_eq!(text(c.trading.max_position_size), "100");
    assert!(c.trading.sol_condition_id.is_none());
    assert!(c.trading.btc_condition_id.is_none());
    assert_eq!(c.trading.check_interval_ms, 1000);
}

#[test]
fn decimals_have_a_mantissa_of_96_bits_and_a_scale_up_to_28() {
    assert!(dec(0, 0).is_valid());
    assert!(dec(79228162514264337593543950335, 28).is_valid());
    assert!(dec(-79228162514264337593543950335, 0).is_valid());
    assert!(!dec(79228162514264337593543950336, 0).is_valid());
    assert!(!dec(-79228162514264337593543950336, 0).is_valid());
    assert!(!dec(1, 29).is_valid());
    assert!(quote(Some(dec(1, 2)), None).is_valid());
    assert!(!quote(Some(dec(1, 2)), Some(dec(1, 29))).is_valid());
    assert!(Config::default().trading.is_valid());
}

#[test]
fn digits_of_numbers() {
    assert_eq!(digits(0), "0");
    assert_eq!(digits(7), "7");
    assert_eq!(digits(10), "10");
    assert_eq!(digits(1767726000), "1767726000");
    assert_eq!(digits(u64::MAX), "18446744073709551615");
}

#[test]
fn contains_text_finds_whole_texts_only() {
    let list = vec!["abc".to_string(), "de".to_string()];
    assert!(contains_text(&list, &"de".to_string()));
    assert!(!contains_text(&list, &"d".to_string()));
    assert!(!contains_text(&Vec::new(), &"d".to_string()));
}
