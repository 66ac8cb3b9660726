//! The tracked symbols and the length of history to analyse.

use vstd::prelude::*;
use crate::text::{copy_strings, texts};

verus! {

/// What is tracked: the symbols, in the order given, and how many days of
/// history to fetch for each.
#[derive(Debug)]
pub struct StockConfig {
    pub symbols: Vec<String>,
    pub analysis_period_days: i64,
}

/// A `StockConfig` by its contents.
pub struct StockConfigView {
    pub symbols: Seq<Seq<char>>,
    pub analysis_period_days: i64,
}

impl View for StockConfig {
    type V = StockConfigView;

    open spec fn view(&self) -> StockConfigView {
        StockConfigView {
            symbols: texts(self.symbols@),
            analysis_period_days: self.analysis_period_days,
        }
    }
}

impl Clone for StockConfig {
    fn clone(&self) -> (r: Self)
        ensures
            r.symbols@ == self.symbols@,
            r.analysis_period_days == self.analysis_period_days,
            r@ == self@,
    {
        StockConfig {
            symbols: copy_strings(&self.symbols),
            analysis_period_days: self.analysis_period_days,
        }
    }
}

} // verus!
