//! The summary of one series: the newest price, the newest value of each
//! moving average, the forecast and the latest change.

use vstd::prelude::*;
use crate::stock_data::{
    ema_accepted, forecast_window, is_ema, is_forecast, slice_value, sma_accepted, sma_window,
    step_accepted, StockData,
};

verus! {

/// The period of the short simple moving average.
pub const SHORT_SMA_PERIOD: usize = 10;

/// The period of the long simple moving average.
pub const LONG_SMA_PERIOD: usize = 50;

/// The period of the exponential moving average.
pub const EMA_PERIOD: usize = 20;

/// The number of newest closes that the forecast is fitted to, at most.
pub const FORECAST_HORIZON: usize = 20;

/// What was derived from one fetched series. It is computed once, when the
/// fetch completes.
pub struct StockAnalysis<P> {
    pub symbol: String,
    pub current_price: P,
    pub sma_10: Option<P>,
    pub sma_50: Option<P>,
    pub ema_20: Option<P>,
    pub predictions: Vec<P>,
    pub recent_change: Option<P>,
}

/// `out` is the newest value of the simple moving average over `period`
/// closes: absent unless there are more than `period` closes, else `mean` of
/// the `period` closes just before the newest one.
pub open spec fn is_newest_sma<P, M: Fn(&[P]) -> P>(
    mean: M,
    closes: Seq<P>,
    period: usize,
    out: Option<P>,
) -> bool {
    &&& out is Some <==> closes.len() > period
    &&& out is Some ==> slice_value(
        mean,
        sma_window(closes, period, closes.len() - 1 - period),
        out->0,
    )
}

/// `out` is the newest value of the exponential moving average over `period`
/// closes: absent exactly when there are fewer than `period` closes.
pub open spec fn is_newest_ema<P, M: Fn(&[P]) -> P, S: Fn(P, P, usize) -> P>(
    mean: M,
    smooth: S,
    closes: Seq<P>,
    period: usize,
    out: Option<P>,
) -> bool {
    &&& out is Some <==> closes.len() >= period
    &&& out is Some ==> exists|values: Seq<P>| #[trigger]
        is_ema(mean, smooth, closes, period, values) && out->0 == values.last()
}

/// `out` is the change from the close before the newest to the newest: absent
/// exactly when there are fewer than two closes.
pub open spec fn is_recent_change<P, C: Fn(P, P) -> P>(change: C, closes: Seq<P>, out: Option<P>) -> bool {
    &&& out is Some <==> closes.len() >= 2
    &&& out is Some ==> call_ensures(
        change,
        (closes[closes.len() - 1], closes[closes.len() - 2]),
        out->0,
    )
}

/// `analysis` is the summary of `closes` under the name `symbol`.
pub open spec fn is_analysis<
    P,
    M: Fn(&[P]) -> P,
    S: Fn(P, P, usize) -> P,
    F: Fn(&[P], usize) -> P,
    C: Fn(P, P) -> P,
>(
    zero: P,
    mean: M,
    smooth: S,
    forecast: F,
    change: C,
    closes: Seq<P>,
    symbol: Seq<char>,
    analysis: StockAnalysis<P>,
) -> bool {
    &&& analysis.symbol@ == symbol
    &&& analysis.current_price == if closes.len() == 0 {
        zero
    } else {
        closes.last()
    }
    &&& is_newest_sma(mean, closes, SHORT_SMA_PERIOD, analysis.sma_10)
    &&& is_newest_sma(mean, closes, LONG_SMA_PERIOD, analysis.sma_50)
    &&& is_newest_ema(mean, smooth, closes, EMA_PERIOD, analysis.ema_20)
    &&& is_forecast(forecast, closes, FORECAST_HORIZON, analysis.predictions@)
    &&& is_recent_change(change, closes, analysis.recent_change)
}

/// The five price operations may be called on everything that the summary of
/// `closes` hands them.
pub open spec fn analysis_accepted<
    P,
    M: Fn(&[P]) -> P,
    S: Fn(P, P, usize) -> P,
    F: Fn(&[P], usize) -> P,
    C: Fn(P, P) -> P,
>(mean: M, smooth: S, forecast: F, change: C, closes: Seq<P>) -> bool {
    &&& sma_accepted(mean, closes, SHORT_SMA_PERIOD)
    &&& sma_accepted(mean, closes, LONG_SMA_PERIOD)
    &&& ema_accepted(mean, smooth, closes, EMA_PERIOD)
    &&& closes.len() >= 2 ==> step_accepted(
        forecast,
        closes.subrange(
            closes.len() - forecast_window(closes.len(), FORECAST_HORIZON),
            closes.len() as int,
        ),
    )
    &&& closes.len() >= 2 ==> call_requires(
        change,
        (closes[closes.len() - 1], closes[closes.len() - 2]),
    )
}

/// The newest value of `values`, if there is one.
fn newest<P: Copy>(values: &Option<Vec<P>>) -> (r: Option<P>)
    ensures
        r is Some <==> values is Some && values->0@.len() > 0,
        r is Some ==> r->0 == values->0@.last(),
{
    match values {
        Some(v) => {
            if v.len() > 0 {
                Some(v[v.len() - 1])
            } else {
                None
            }
        },
        None => None,
    }
}

/// Summarises one series under the name `symbol`.
pub fn analyze_stock<
    P: Copy,
    M: Fn(&[P]) -> P,
    S: Fn(P, P, usize) -> P,
    F: Fn(&[P], usize) -> P,
    C: Fn(P, P) -> P,
>(
    stock_data: &StockData<P>,
    symbol: &str,
    zero: P,
    mean: &M,
    smooth: &S,
    forecast: &F,
    change: &C,
) -> (analysis: StockAnalysis<P>)
    requires
        analysis_accepted(*mean, *smooth, *forecast, *change, stock_data.closes@),
    ensures
        is_analysis(
            zero,
            *mean,
            *smooth,
            *forecast,
            *change,
            stock_data.closes@,
            symbol@,
            analysis,
        ),
{
    let len = stock_data.len();
    let current_price = if len > 0 {
        stock_data.closes[len - 1]
    } else {
        zero
    };

    let sma_10 = newest(&stock_data.sma(SHORT_SMA_PERIOD, mean));
    let sma_50 = newest(&stock_data.sma(LONG_SMA_PERIOD, mean));
    let ema_20 = newest(&stock_data.ema(EMA_PERIOD, mean, smooth));

    let predictions = stock_data.predict_next(FORECAST_HORIZON, forecast);

    let recent_change = stock_data.recent_change(change);

    StockAnalysis {
        symbol: symbol.to_owned(),
        current_price,
        sma_10,
        sma_50,
        ema_20,
        predictions,
        recent_change,
    }
}

} // verus!
