//! The trade event.

use vstd::prelude::*;

use rust_decimal::Decimal;

verus! {

/// The `trade` stream event: one executed trade.
#[derive(Debug, Clone, PartialEq)]
pub struct Trade {
    /// The time the event was emitted at, in milliseconds since the Unix
    /// epoch (`E` on the wire).
    pub event_time: i64,
    /// The symbol name (`s` on the wire).
    pub symbol: String,
    /// The trade ID (`t` on the wire).
    pub trade_id: i64,
    /// The price the trade was executed at (`p` on the wire).
    pub price: Decimal,
    /// The traded quantity (`q` on the wire).
    pub quantity: Decimal,
    /// The time the trade was executed at, in milliseconds since the Unix
    /// epoch (`T` on the wire).
    pub trade_time: i64,
    /// Whether the buyer is the market maker (`m` on the wire).
    pub is_buyer_market_maker: bool,
}

} // verus!
