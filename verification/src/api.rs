//! What is computed from the venue's answers once they are fetched.

use crate::decimal::Decimal;
use crate::models::{OrderBook, OrderBookEntry, TokenPrice};
use vstd::prelude::*;

verus! {

/// The price of the first entry of one side of a book.
pub open spec fn spec_best(side: Seq<OrderBookEntry>) -> Option<Decimal> {
    if side.len() > 0 {
        Some(side[0].price)
    } else {
        None
    }
}

/// The best bid and ask of a token as its text, its bid and its ask: none
/// where the book has no ask.
pub open spec fn spec_best_price(token_id: Seq<char>, book: OrderBook) -> Option<
    (Seq<char>, Option<Decimal>, Option<Decimal>),
> {
    if book.asks@.len() > 0 {
        Some((token_id, spec_best(book.bids@), spec_best(book.asks@)))
    } else {
        None
    }
}

/// The best bid and ask of a token from its order book.
pub fn get_best_price(token_id: &String, orderbook: &OrderBook) -> (r: Option<TokenPrice>)
    ensures
        match r {
            Some(quote) => spec_best_price(token_id@, *orderbook) == Some(
                (quote.token_id@, quote.bid, quote.ask),
            ),
            None => spec_best_price(token_id@, *orderbook).is_none(),
        },
{
    let best_bid = if orderbook.bids.len() > 0 {
        Some(orderbook.bids[0].price)
    } else {
        None
    };
    if orderbook.asks.len() > 0 {
        Some(
            TokenPrice {
                token_id: token_id.clone(),
                bid: best_bid,
                ask: Some(orderbook.asks[0].price),
            },
        )
    } else {
        None
    }
}

} // verus!
