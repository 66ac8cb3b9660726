//! What a finished fetch tells the dashboard.

use vstd::prelude::*;
use crate::analysis::StockAnalysis;
use crate::data::TimeRange;
use crate::stock_data::StockData;

verus! {

/// The outcome of one fetch, as it travels from the fetch to the dashboard.
pub enum AppEvent<P> {
    /// A series arrived: its summary, the series, and the window to show first.
    Update(StockAnalysis<P>, StockData<P>, TimeRange),
    /// Nothing usable arrived for a symbol: the symbol, and why.
    Error(String, String),
}

} // verus!
