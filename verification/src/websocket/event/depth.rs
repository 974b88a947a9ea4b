//! The depth event.

use vstd::prelude::*;

use rust_decimal::Decimal;

verus! {

/// One price level of an order book side (on the wire, an array of the price
/// and the quantity).
#[derive(Debug, Clone, PartialEq)]
pub struct PriceLevel {
    /// The price of the level.
    pub price: Decimal,
    /// The quantity that remains at the level; zero removes the level.
    pub quantity: Decimal,
}

/// The `depth` stream event: one order book update.
#[derive(Debug, Clone, PartialEq)]
pub struct Depth {
    /// The time the event was emitted at, in milliseconds since the Unix
    /// epoch (`E` on the wire).
    pub event_time: i64,
    /// The symbol name (`s` on the wire).
    pub symbol: String,
    /// The first update ID in the event (`U` on the wire).
    pub first_update_id: i64,
    /// The final update ID in the event (`u` on the wire).
    pub final_update_id: i64,
    /// The bid levels to update (`b` on the wire).
    pub bids: Vec<PriceLevel>,
    /// The ask levels to update (`a` on the wire).
    pub asks: Vec<PriceLevel>,
}

} // verus!
