//! A price series and the indicators computed over its closes.

use vstd::prelude::*;
use vstd::slice::slice_subrange;

verus! {

/// `out` is a result of `f` on a slice that holds exactly `window`.
pub open spec fn slice_value<P, F: Fn(&[P]) -> P>(f: F, window: Seq<P>, out: P) -> bool {
    exists|w: &[P]| w@ == window && #[trigger] call_ensures(f, (w,), out)
}

/// `f` may be called on every slice that holds exactly `window`.
pub open spec fn slice_accepted<P, F: Fn(&[P]) -> P>(f: F, window: Seq<P>) -> bool {
    forall|w: &[P]| w@ == window ==> #[trigger] call_requires(f, (w,))
}

/// `out` is a result of `f` on the window `data[lo..hi]`.
pub open spec fn window_value<P, F: Fn(&[P]) -> P>(
    f: F,
    data: Seq<P>,
    lo: int,
    hi: int,
    out: P,
) -> bool {
    slice_value(f, data.subrange(lo, hi), out)
}

/// `f` may be called on the window `data[lo..hi]`.
pub open spec fn window_accepted<P, F: Fn(&[P]) -> P>(f: F, data: Seq<P>, lo: int, hi: int) -> bool {
    slice_accepted(f, data.subrange(lo, hi))
}

/// `out` is a result of `f` on the whole of `window`, `step` positions past its end.
pub open spec fn step_value<P, F: Fn(&[P], usize) -> P>(
    f: F,
    window: Seq<P>,
    step: usize,
    out: P,
) -> bool {
    exists|w: &[P]| w@ == window && #[trigger] call_ensures(f, (w, step), out)
}

/// `f` may be called on the whole of `window` with a step of one, two or three.
pub open spec fn step_accepted<P, F: Fn(&[P], usize) -> P>(f: F, window: Seq<P>) -> bool {
    forall|w: &[P], step: usize|
        w@ == window && 1 <= step <= 3 ==> #[trigger] call_requires(f, (w, step))
}

/// Window `i` of a simple moving average over `period` closes: the `period`
/// consecutive closes from position `i` on.
pub open spec fn sma_window<P>(closes: Seq<P>, period: usize, i: int) -> Seq<P> {
    closes.subrange(i, i + period)
}

/// The simple moving average of `closes`: one value per window of `period`
/// consecutive closes that ends before the newest close. Value `i` is `mean`
/// of window `i`, so the newest close is in no window.
pub open spec fn is_sma<P, M: Fn(&[P]) -> P>(
    mean: M,
    closes: Seq<P>,
    period: usize,
    out: Seq<P>,
) -> bool {
    &&& out.len() == closes.len() - period
    &&& forall|i: int|
        0 <= i < out.len() ==> slice_value(mean, sma_window(closes, period, i), #[trigger] out[i])
}

/// `mean` may be called on every window of the simple moving average of
/// `closes` over `period` closes.
pub open spec fn sma_accepted<P, M: Fn(&[P]) -> P>(mean: M, closes: Seq<P>, period: usize) -> bool {
    forall|i: int|
        0 <= i < closes.len() - period ==> slice_accepted(
            mean,
            #[trigger] sma_window(closes, period, i),
        )
}

/// Value `k` of an exponential moving average is a result of `smooth` on the
/// close that it takes in and on the value before it.
pub open spec fn ema_step<P, S: Fn(P, P, usize) -> P>(
    smooth: S,
    closes: Seq<P>,
    period: usize,
    out: Seq<P>,
    k: int,
) -> bool {
    call_ensures(smooth, (closes[period + k - 1], out[k - 1], period), out[k])
}

/// The exponential moving average of `closes`: the seed is `mean` of the
/// first `period` closes, and each later close is folded into the value before
/// it by `smooth`.
pub open spec fn is_ema<P, M: Fn(&[P]) -> P, S: Fn(P, P, usize) -> P>(
    mean: M,
    smooth: S,
    closes: Seq<P>,
    period: usize,
    out: Seq<P>,
) -> bool {
    &&& out.len() == closes.len() - period + 1
    &&& window_value(mean, closes, 0, period as int, out[0])
    &&& forall|k: int| 1 <= k < out.len() ==> #[trigger] ema_step(smooth, closes, period, out, k)
}

/// The operations of an exponential moving average may be called on what it
/// hands them: nothing for a series shorter than `period`; else `mean` on the
/// first `period` closes, and `smooth` on each close from position `period`
/// on, together with any value before it.
pub open spec fn ema_accepted<P, M: Fn(&[P]) -> P, S: Fn(P, P, usize) -> P>(
    mean: M,
    smooth: S,
    closes: Seq<P>,
    period: usize,
) -> bool {
    closes.len() >= period ==> {
        &&& window_accepted(mean, closes, 0, period as int)
        &&& forall|k: int, before: P|
            period <= k < closes.len() ==> #[trigger] call_requires(
                smooth,
                (closes[k], before, period),
            )
    }
}

/// The number of newest closes that a forecast over `horizon` points is fitted to.
pub open spec fn forecast_window(len: nat, horizon: usize) -> nat {
    if horizon <= len {
        horizon as nat
    } else {
        len
    }
}

/// The forecast from `closes`: nothing for fewer than two closes, else three
/// values, for one, two and three steps past the fitted window, whatever
/// `horizon` is.
pub open spec fn is_forecast<P, F: Fn(&[P], usize) -> P>(
    forecast: F,
    closes: Seq<P>,
    horizon: usize,
    out: Seq<P>,
) -> bool {
    if closes.len() < 2 {
        out.len() == 0
    } else {
        let n = forecast_window(closes.len(), horizon);
        let window = closes.subrange(closes.len() - n, closes.len() as int);
        &&& out.len() == 3
        &&& step_value(forecast, window, 1, out[0])
        &&& step_value(forecast, window, 2, out[1])
        &&& step_value(forecast, window, 3, out[2])
    }
}

/// The sum of the positions `0..n`.
pub open spec fn position_sum(n: nat) -> int
    decreases n,
{
    if n == 0 {
        0
    } else {
        position_sum((n - 1) as nat) + (n - 1)
    }
}

/// The sum of the squares of the positions `0..n`.
pub open spec fn position_square_sum(n: nat) -> int
    decreases n,
{
    if n == 0 {
        0
    } else {
        position_square_sum((n - 1) as nat) + (n - 1) * (n - 1)
    }
}

/// The sums over the positions `0..n` in closed form.
pub proof fn lemma_position_sums(n: nat)
    ensures
        2 * position_sum(n) == n * (n - 1),
        6 * position_square_sum(n) == (n - 1) * n * (2 * n - 1),
    decreases n,
{
    if n > 0 {
        let m = (n - 1) as nat;
        lemma_position_sums(m);
        let s = position_sum(m);
        let q = position_square_sum(m);
        assert(position_sum(n) == s + m);
        assert(position_square_sum(n) == q + m * m);
        assert(2 * (s + m) == n * (n - 1)) by (nonlinear_arith)
            requires
                n == m + 1,
                2 * s == m * (m - 1),
        ;
        assert(6 * (q + m * m) == (n - 1) * n * (2 * n - 1)) by (nonlinear_arith)
            requires
                n == m + 1,
                6 * q == (m - 1) * m * (2 * m - 1),
        ;
    } else {
        assert(n * (n - 1) == 0) by (nonlinear_arith)
            requires
                n == 0,
        ;
        assert((n - 1) * n * (2 * n - 1) == 0) by (nonlinear_arith)
            requires
                n == 0,
        ;
    }
}

/// A least-squares line over the positions `0..n` is determined as soon as
/// there are two points: the positions are distinct, so the denominator of
/// its slope, `n` times the sum of their squares less the square of their
/// sum, is positive.
pub proof fn lemma_line_is_determined(n: nat)
    requires
        n >= 2,
    ensures
        n * position_square_sum(n) - position_sum(n) * position_sum(n) > 0,
{
    lemma_position_sums(n);
    let s = position_sum(n);
    let q = position_square_sum(n);
    assert(n * q - s * s > 0) by (nonlinear_arith)
        requires
            n >= 2,
            2 * s == n * (n - 1),
            6 * q == (n - 1) * n * (2 * n - 1),
    {
        assert(12 * (n * q) == 2 * n * ((n - 1) * n * (2 * n - 1)));
        assert(12 * (s * s) == 3 * ((n * (n - 1)) * (n * (n - 1))));
        assert(2 * n * ((n - 1) * n * (2 * n - 1)) - 3 * ((n * (n - 1)) * (n * (n - 1))) == n * n
            * (n - 1) * (n + 1));
        assert(n * n * (n - 1) * (n + 1) > 0);
    }
}

/// The history of one symbol: parallel sequences of timestamp (seconds),
/// closing price and volume, one entry of each per trading point.
#[derive(Debug)]
pub struct StockData<P> {
    pub timestamps: Vec<i64>,
    pub closes: Vec<P>,
    pub volumes: Vec<u64>,
}

impl<P> Default for StockData<P> {
    fn default() -> (s: Self)
        ensures
            s.wf(),
            s.spec_len() == 0,
    {
        Self::new()
    }
}

impl<P> StockData<P> {
    /// The three sequences have one length.
    pub open spec fn wf(&self) -> bool {
        &&& self.timestamps@.len() == self.closes@.len()
        &&& self.volumes@.len() == self.closes@.len()
    }

    /// The number of trading points, counted by the closes.
    pub open spec fn spec_len(&self) -> nat {
        self.closes@.len()
    }

    pub fn new() -> (s: Self)
        ensures
            s.wf(),
            s.timestamps@ == Seq::<i64>::empty(),
            s.closes@ == Seq::<P>::empty(),
            s.volumes@ == Seq::<u64>::empty(),
    {
        StockData { timestamps: Vec::new(), closes: Vec::new(), volumes: Vec::new() }
    }

    /// Appends one trading point to the end of the series.
    pub fn add_point(&mut self, timestamp: i64, close: P, volume: u64)
        ensures
            final(self).timestamps@ == old(self).timestamps@.push(timestamp),
            final(self).closes@ == old(self).closes@.push(close),
            final(self).volumes@ == old(self).volumes@.push(volume),
            old(self).wf() ==> final(self).wf(),
    {
        self.timestamps.push(timestamp);
        self.closes.push(close);
        self.volumes.push(volume);
    }

    pub fn len(&self) -> (n: usize)
        ensures
            n == self.spec_len(),
    {
        self.closes.len()
    }

    pub fn is_empty(&self) -> (b: bool)
        ensures
            b == (self.spec_len() == 0),
    {
        self.closes.len() == 0
    }
}

impl<P: Copy> StockData<P> {
    /// Simple moving average over `period` closes. Absent exactly when the
    /// series is shorter than `period`.
    pub fn sma<M: Fn(&[P]) -> P>(&self, period: usize, mean: &M) -> (r: Option<Vec<P>>)
        requires
            sma_accepted(*mean, self.closes@, period),
        ensures
            self.spec_len() < period <==> r is None,
            r is Some ==> is_sma(*mean, self.closes@, period, r->0@),
    {
        let len = self.closes.len();
        if len < period {
            return None;
        }
        let count: usize = len - period;
        let mut values: Vec<P> = Vec::new();
        let mut i: usize = 0;
        while i < count
            invariant
                len == self.closes@.len(),
                count == len - period,
                i <= count,
                values@.len() == i,
                sma_accepted(*mean, self.closes@, period),
                forall|k: int|
                    0 <= k < i ==> slice_value(
                        *mean,
                        sma_window(self.closes@, period, k),
                        #[trigger] values@[k],
                    ),
            decreases count - i,
        {
            assert(slice_accepted(*mean, sma_window(self.closes@, period, i as int)));
            let window = slice_subrange(self.closes.as_slice(), i, i + period);
            let value = mean(window);
            values.push(value);
            i += 1;
        }
        Some(values)
    }

    /// Exponential moving average over `period` closes. Absent exactly when
    /// the series is shorter than `period`; else the seed and one value for
    /// each close from position `period` on.
    pub fn ema<M: Fn(&[P]) -> P, S: Fn(P, P, usize) -> P>(
        &self,
        period: usize,
        mean: &M,
        smooth: &S,
    ) -> (r: Option<Vec<P>>)
        requires
            ema_accepted(*mean, *smooth, self.closes@, period),
        ensures
            self.spec_len() < period <==> r is None,
            r is Some ==> is_ema(*mean, *smooth, self.closes@, period, r->0@),
    {
        let len = self.closes.len();
        if len < period {
            return None;
        }
        let seed = mean(slice_subrange(self.closes.as_slice(), 0, period));
        let mut values: Vec<P> = Vec::new();
        values.push(seed);
        let mut i: usize = period;
        while i < len
            invariant
                len == self.closes@.len(),
                period <= i <= len,
                values@.len() == i - period + 1,
                ema_accepted(*mean, *smooth, self.closes@, period),
                window_value(*mean, self.closes@, 0, period as int, values@[0]),
                forall|k: int|
                    1 <= k < values@.len() ==> #[trigger] ema_step(
                        *smooth,
                        self.closes@,
                        period,
                        values@,
                        k,
                    ),
            decreases len - i,
        {
            let ghost earlier = values@;
            let before = values[values.len() - 1];
            assert(call_requires(*smooth, (self.closes@[i as int], before, period)));
            let value = smooth(self.closes[i], before, period);
            values.push(value);
            assert forall|k: int| 1 <= k < values@.len() implies #[trigger] ema_step(
                *smooth,
                self.closes@,
                period,
                values@,
                k,
            ) by {
                if k < earlier.len() {
                    assert(ema_step(*smooth, self.closes@, period, earlier, k));
                }
            }
            i += 1;
        }
        Some(values)
    }

    /// Forecast of the next three closes from the newest `min(periods, len)`
    /// closes. Empty exactly when the series has fewer than two closes; else
    /// three values, whatever `periods` is.
    pub fn predict_next<F: Fn(&[P], usize) -> P>(&self, periods: usize, forecast: &F) -> (r: Vec<P>)
        requires
            self.spec_len() >= 2 ==> step_accepted(
                *forecast,
                self.closes@.subrange(
                    self.spec_len() - forecast_window(self.spec_len(), periods),
                    self.spec_len() as int,
                ),
            ),
        ensures
            r@.len() == if self.spec_len() >= 2 {
                3nat
            } else {
                0nat
            },
            is_forecast(*forecast, self.closes@, periods, r@),
    {
        let len = self.closes.len();
        let mut predictions: Vec<P> = Vec::new();
        if len < 2 {
            return predictions;
        }
        let recent_period: usize = if periods <= len {
            periods
        } else {
            len
        };
        let window = slice_subrange(self.closes.as_slice(), len - recent_period, len);
        let first = forecast(window, 1);
        predictions.push(first);
        let second = forecast(window, 2);
        predictions.push(second);
        let third = forecast(window, 3);
        predictions.push(third);
        predictions
    }

    /// Change from the close before the newest to the newest, as `change`
    /// gives it. Absent exactly when the series has fewer than two closes.
    pub fn recent_change<C: Fn(P, P) -> P>(&self, change: &C) -> (r: Option<P>)
        requires
            self.spec_len() >= 2 ==> call_requires(
                *change,
                (self.closes@[self.spec_len() - 1], self.closes@[self.spec_len() - 2]),
            ),
        ensures
            self.spec_len() < 2 <==> r is None,
            r is Some ==> call_ensures(
                *change,
                (self.closes@[self.spec_len() - 1], self.closes@[self.spec_len() - 2]),
                r->0,
            ),
    {
        let len = self.closes.len();
        if len < 2 {
            return None;
        }
        let last = self.closes[len - 1];
        let second_last = self.closes[len - 2];
        Some(change(last, second_last))
    }
}

} // verus!
