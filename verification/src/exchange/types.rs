//! An order as the exchange takes it.
use vstd::prelude::*;

verus! {

/// A new-order request. Quantities and prices are carried as the decimal
/// text that goes on the wire.
pub struct OrderRequest {
    pub symbol: String,
    pub side: String,
    pub order_type: String,
    pub quantity: String,
    pub price: Option<String>,
    pub stop_price: Option<String>,
    pub time_in_force: Option<String>,
    pub reduce_only: Option<bool>,
}

} // verus!
