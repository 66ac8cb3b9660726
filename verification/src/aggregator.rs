//! One refresh cycle: which fetches to start, and what each finished fetch
//! becomes.

use vstd::prelude::*;
use crate::analysis::{analysis_accepted, analyze_stock, is_analysis};
use crate::data::TimeRange;
use crate::error::AppError;
use crate::event::AppEvent;
use crate::stock_data::StockData;
use crate::text::texts;

verus! {

/// One fetch to start: the symbol, and the days of history to ask for.
#[derive(Debug)]
pub struct FetchRequest {
    pub symbol: String,
    pub period_days: i64,
}

/// A `FetchRequest` by its contents.
pub struct FetchRequestView {
    pub symbol: Seq<char>,
    pub period_days: i64,
}

impl View for FetchRequest {
    type V = FetchRequestView;

    open spec fn view(&self) -> FetchRequestView {
        FetchRequestView { symbol: self.symbol@, period_days: self.period_days }
    }
}

/// The fetches of one refresh cycle: one for each symbol, in the order of the
/// symbols, each over `period_days`.
pub open spec fn cycle_requests(symbols: Seq<Seq<char>>, period_days: i64) -> Seq<FetchRequestView> {
    Seq::new(
        symbols.len(),
        |i: int| FetchRequestView { symbol: symbols[i], period_days: period_days },
    )
}

/// The contents of each request of `requests`, in order.
pub open spec fn request_views(requests: Seq<FetchRequest>) -> Seq<FetchRequestView> {
    Seq::new(requests.len(), |i: int| requests[i]@)
}

/// The window that a new entry shows first.
pub open spec fn default_time_range() -> TimeRange {
    TimeRange::OneMonth
}

/// The fetches to start for `symbols`. A symbol that occurs twice is fetched
/// twice; no symbols, no fetches.
pub fn start_fetch_cycle(symbols: &Vec<String>, period_days: i64) -> (requests: Vec<FetchRequest>)
    ensures
        request_views(requests@) == cycle_requests(texts(symbols@), period_days),
{
    let mut requests: Vec<FetchRequest> = Vec::new();
    let mut i: usize = 0;
    while i < symbols.len()
        invariant
            i <= symbols@.len(),
            requests@.len() == i,
            forall|k: int|
                0 <= k < i ==> (#[trigger] requests@[k])@ == (FetchRequestView {
                    symbol: symbols@[k]@,
                    period_days: period_days,
                }),
        decreases symbols@.len() - i,
    {
        requests.push(FetchRequest { symbol: symbols[i].clone(), period_days });
        i += 1;
    }
    assert(request_views(requests@) =~= cycle_requests(texts(symbols@), period_days));
    requests
}

/// `event` is what the fetch of `symbol` becomes once it has ended in
/// `fetched`: a failure of the provider and an empty series are errors under
/// the symbol's name, a series with at least one point is an update with its
/// summary.
pub open spec fn is_fetch_event<
    P,
    M: Fn(&[P]) -> P,
    S: Fn(P, P, usize) -> P,
    F: Fn(&[P], usize) -> P,
    C: Fn(P, P) -> P,
>(
    zero: P,
    mean: M,
    smooth: S,
    forecast: F,
    change: C,
    symbol: Seq<char>,
    fetched: Result<StockData<P>, AppError>,
    event: AppEvent<P>,
) -> bool {
    match fetched {
        Err(error) => event matches AppEvent::Error(name, why) && name@ == symbol && why@
            == error.spec_message(),
        Ok(stock_data) => if stock_data.spec_len() == 0 {
            event matches AppEvent::Error(name, why) && name@ == symbol && why@
                == "no data found"@
        } else {
            event matches AppEvent::Update(analysis, series, time_range) && series == stock_data
                && time_range == default_time_range() && is_analysis(
                zero,
                mean,
                smooth,
                forecast,
                change,
                stock_data.closes@,
                symbol,
                analysis,
            )
        },
    }
}

/// Turns the end of one fetch into the event that the dashboard receives.
pub fn complete_fetch<
    P: Copy,
    M: Fn(&[P]) -> P,
    S: Fn(P, P, usize) -> P,
    F: Fn(&[P], usize) -> P,
    C: Fn(P, P) -> P,
>(
    symbol: &str,
    fetched: Result<StockData<P>, AppError>,
    zero: P,
    mean: &M,
    smooth: &S,
    forecast: &F,
    change: &C,
) -> (event: AppEvent<P>)
    requires
        fetched matches Ok(stock_data) ==> analysis_accepted(
            *mean,
            *smooth,
            *forecast,
            *change,
            stock_data.closes@,
        ),
    ensures
        is_fetch_event(zero, *mean, *smooth, *forecast, *change, symbol@, fetched, event),
{
    match fetched {
        Ok(stock_data) => {
            if !stock_data.is_empty() {
                let analysis = analyze_stock(
                    &stock_data,
                    symbol,
                    zero,
                    mean,
                    smooth,
                    forecast,
                    change,
                );
                AppEvent::Update(analysis, stock_data, TimeRange::OneMonth)
            } else {
                AppEvent::Error(symbol.to_owned(), "no data found".to_owned())
            }
        },
        Err(error) => AppEvent::Error(symbol.to_owned(), error.message()),
    }
}

} // verus!
