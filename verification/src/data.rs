//! The display windows, the slice of a series that each one shows, and the
//! volatility of a run of prices.

use vstd::prelude::*;
use crate::stock_data::{slice_accepted, slice_value, StockData};

verus! {

/// A named display window over a price series.
#[derive(Clone, Copy, Debug, PartialEq, Eq, Structural)]
pub enum TimeRange {
    OneDay,
    FiveDays,
    OneMonth,
    SixMonths,
    YearToDate,
}

impl TimeRange {
    /// Every window, in the order in which the selector shows and cycles them.
    pub open spec fn ranges() -> Seq<TimeRange> {
        seq![
            TimeRange::OneDay,
            TimeRange::FiveDays,
            TimeRange::OneMonth,
            TimeRange::SixMonths,
            TimeRange::YearToDate,
        ]
    }

    /// The short name shown for the window.
    pub open spec fn label(self) -> Seq<char> {
        match self {
            TimeRange::OneDay => "1D"@,
            TimeRange::FiveDays => "5D"@,
            TimeRange::OneMonth => "1M"@,
            TimeRange::SixMonths => "6M"@,
            TimeRange::YearToDate => "YTD"@,
        }
    }

    /// The approximate number of trading points that the window covers.
    pub open spec fn spec_points(self) -> nat {
        match self {
            TimeRange::OneDay => 2,
            TimeRange::FiveDays => 5,
            TimeRange::OneMonth => 30,
            TimeRange::SixMonths => 180,
            TimeRange::YearToDate => 365,
        }
    }

    /// The position before `index` in `ranges()`, the last one before the first.
    pub open spec fn spec_previous_index(index: usize) -> usize {
        if index > 0 {
            (index - 1) as usize
        } else {
            (Self::ranges().len() - 1) as usize
        }
    }

    /// The position after `index` in `ranges()`, the first one after the last
    /// (and after any position past the end).
    pub open spec fn spec_next_index(index: usize) -> usize {
        if index < Self::ranges().len() - 1 {
            (index + 1) as usize
        } else {
            0
        }
    }

    pub fn all() -> (r: Vec<TimeRange>)
        ensures
            r@ == Self::ranges(),
    {
        let mut ranges: Vec<TimeRange> = Vec::new();
        ranges.push(TimeRange::OneDay);
        ranges.push(TimeRange::FiveDays);
        ranges.push(TimeRange::OneMonth);
        ranges.push(TimeRange::SixMonths);
        ranges.push(TimeRange::YearToDate);
        assert(ranges@ =~= Self::ranges());
        ranges
    }

    pub fn as_str(&self) -> (r: &str)
        ensures
            r@ == self.label(),
    {
        match self {
            TimeRange::OneDay => "1D",
            TimeRange::FiveDays => "5D",
            TimeRange::OneMonth => "1M",
            TimeRange::SixMonths => "6M",
            TimeRange::YearToDate => "YTD",
        }
    }

    pub fn points(&self) -> (n: usize)
        ensures
            n == self.spec_points(),
    {
        match self {
            TimeRange::OneDay => 2,
            TimeRange::FiveDays => 5,
            TimeRange::OneMonth => 30,
            TimeRange::SixMonths => 180,
            TimeRange::YearToDate => 365,
        }
    }

    /// The number of windows.
    pub fn count() -> (n: usize)
        ensures
            n == Self::ranges().len(),
            n == 5,
    {
        5
    }

    /// The window at position `index` of `ranges()`.
    pub fn at(index: usize) -> (r: TimeRange)
        requires
            index < Self::ranges().len(),
        ensures
            r == Self::ranges()[index as int],
    {
        if index == 0 {
            TimeRange::OneDay
        } else if index == 1 {
            TimeRange::FiveDays
        } else if index == 2 {
            TimeRange::OneMonth
        } else if index == 3 {
            TimeRange::SixMonths
        } else {
            TimeRange::YearToDate
        }
    }

    /// One step back through the windows, wrapping from the first to the last.
    pub fn previous_index(index: usize) -> (r: usize)
        ensures
            r == Self::spec_previous_index(index),
            index < Self::ranges().len() ==> r < Self::ranges().len(),
    {
        if index > 0 {
            index - 1
        } else {
            Self::count() - 1
        }
    }

    /// One step on through the windows, wrapping from the last to the first.
    pub fn next_index(index: usize) -> (r: usize)
        ensures
            r == Self::spec_next_index(index),
            r < Self::ranges().len(),
    {
        if index < Self::count() - 1 {
            index + 1
        } else {
            0
        }
    }
}

/// The number of newest closes, out of `len`, that `time_range` shows.
pub open spec fn shown_points(len: nat, time_range: TimeRange) -> nat {
    if time_range.spec_points() <= len {
        time_range.spec_points()
    } else {
        len
    }
}

/// The closes that `time_range` shows: the newest `shown_points` of them, in
/// their order. The timestamps play no part.
pub fn filter_data_by_time_range<P: Copy>(stock_data: &StockData<P>, time_range: TimeRange) -> (r:
    Vec<P>)
    ensures
        r@ == stock_data.closes@.subrange(
            stock_data.spec_len() - shown_points(stock_data.spec_len(), time_range),
            stock_data.spec_len() as int,
        ),
{
    let total_points = stock_data.closes.len();
    let wanted = time_range.points();
    let points_to_show = if wanted <= total_points {
        wanted
    } else {
        total_points
    };
    let start_index = total_points - points_to_show;
    let mut shown: Vec<P> = Vec::new();
    let mut i: usize = start_index;
    while i < total_points
        invariant
            total_points == stock_data.closes@.len(),
            start_index <= i <= total_points,
            shown@ == stock_data.closes@.subrange(start_index as int, i as int),
        decreases total_points - i,
    {
        shown.push(stock_data.closes[i]);
        assert(shown@ =~= stock_data.closes@.subrange(start_index as int, i + 1));
        i += 1;
    }
    shown
}

/// Price `i` and the price after it.
pub open spec fn neighbours<P>(prices: Seq<P>, i: int) -> (P, P) {
    (prices[i], prices[i + 1])
}

/// `gains` holds one value for each pair of neighbouring prices, the daily
/// return as `gain` gives it for the earlier and the later price of the pair.
pub open spec fn is_gains<P, R: Fn(P, P) -> P>(gain: R, prices: Seq<P>, gains: Seq<P>) -> bool {
    &&& gains.len() == prices.len() - 1
    &&& forall|i: int|
        0 <= i < gains.len() ==> call_ensures(gain, neighbours(prices, i), #[trigger] gains[i])
}

/// `gain` may be called on every pair of neighbouring prices.
pub open spec fn gains_accepted<P, R: Fn(P, P) -> P>(gain: R, prices: Seq<P>) -> bool {
    forall|i: int|
        0 <= i < prices.len() - 1 ==> call_requires(gain, #[trigger] neighbours(prices, i))
}

/// The operations of the volatility may be called on what it hands them:
/// nothing for fewer than two prices; else `gain` on every pair of
/// neighbouring prices, and `spread` on the gains that come of them.
pub open spec fn volatility_accepted<P, R: Fn(P, P) -> P, D: Fn(&[P]) -> P>(
    gain: R,
    spread: D,
    prices: Seq<P>,
) -> bool {
    prices.len() >= 2 ==> {
        &&& gains_accepted(gain, prices)
        &&& forall|gains: Seq<P>| #[trigger]
            is_gains(gain, prices, gains) ==> slice_accepted(spread, gains)
    }
}

/// The volatility of `prices`: `zero` for fewer than two prices, else what
/// `spread` gives for the daily gains between neighbours.
pub open spec fn is_volatility<P, R: Fn(P, P) -> P, D: Fn(&[P]) -> P>(
    gain: R,
    spread: D,
    zero: P,
    prices: Seq<P>,
    out: P,
) -> bool {
    if prices.len() < 2 {
        out == zero
    } else {
        exists|gains: Seq<P>| #[trigger]
            is_gains(gain, prices, gains) && slice_value(spread, gains, out)
    }
}

/// A run of one price, repeated, has no volatility, for price operations
/// under which equal prices make no gain and gains of `zero` have a spread of
/// `zero`.
pub proof fn lemma_constant_prices_have_zero_volatility<P, R: Fn(P, P) -> P, D: Fn(&[P]) -> P>(
    gain: R,
    spread: D,
    zero: P,
    prices: Seq<P>,
    out: P,
)
    requires
        forall|i: int, j: int| 0 <= i < prices.len() && 0 <= j < prices.len() ==> prices[i] == prices[j],
        forall|price: P, g: P| #[trigger] call_ensures(gain, (price, price), g) ==> g == zero,
        forall|gains: &[P], s: P|
            (forall|i: int| 0 <= i < gains@.len() ==> gains@[i] == zero) && #[trigger] call_ensures(
                spread,
                (gains,),
                s,
            ) ==> s == zero,
        is_volatility(gain, spread, zero, prices, out),
    ensures
        out == zero,
{
    if prices.len() >= 2 {
        let gains = choose|gains: Seq<P>| #[trigger]
            is_gains(gain, prices, gains) && slice_value(spread, gains, out);
        let w = choose|w: &[P]| w@ == gains && #[trigger] call_ensures(spread, (w,), out);
        assert forall|i: int| 0 <= i < w@.len() implies w@[i] == zero by {
            assert(call_ensures(gain, neighbours(prices, i), gains[i]));
            assert(prices[i] == prices[i + 1]);
        }
    }
}

/// The windows cycle: stepping back from the first position gives the last,
/// stepping on from the last gives the first, and on the positions of the
/// windows the two steps undo each other.
pub proof fn lemma_time_range_indices_wrap(index: usize)
    ensures
        TimeRange::spec_previous_index(0) == TimeRange::ranges().len() - 1,
        TimeRange::spec_next_index((TimeRange::ranges().len() - 1) as usize) == 0,
        index < TimeRange::ranges().len() ==> {
            &&& TimeRange::spec_next_index(TimeRange::spec_previous_index(index)) == index
            &&& TimeRange::spec_previous_index(TimeRange::spec_next_index(index)) == index
        },
{
}

/// Volatility of a run of prices: the spread of the daily gains from each
/// price to the next.
pub fn calculate_volatility<P: Copy, R: Fn(P, P) -> P, D: Fn(&[P]) -> P>(
    prices: &[P],
    zero: P,
    gain: &R,
    spread: &D,
) -> (r: P)
    requires
        volatility_accepted(*gain, *spread, prices@),
    ensures
        is_volatility(*gain, *spread, zero, prices@, r),
{
    let len = prices.len();
    if len < 2 {
        return zero;
    }
    let mut gains: Vec<P> = Vec::new();
    let mut i: usize = 0;
    while i < len - 1
        invariant
            len == prices@.len(),
            len >= 2,
            i <= len - 1,
            gains@.len() == i,
            gains_accepted(*gain, prices@),
            forall|k: int|
                0 <= k < i ==> call_ensures(
                    *gain,
                    neighbours(prices@, k),
                    #[trigger] gains@[k],
                ),
        decreases len - 1 - i,
    {
        assert(call_requires(*gain, neighbours(prices@, i as int)));
        let value = gain(prices[i], prices[i + 1]);
        gains.push(value);
        i += 1;
    }
    assert(is_gains(*gain, prices@, gains@));
    assert(slice_accepted(*spread, gains@));
    spread(gains.as_slice())
}

} // verus!
