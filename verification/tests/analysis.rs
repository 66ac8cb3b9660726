use stock_predictor_lib::aggregator::complete_fetch;
use stock_predictor_lib::analysis::analyze_stock;
use stock_predictor_lib::data::{calculate_volatility, filter_data_by_time_range, TimeRange};
use stock_predictor_lib::error::AppError;
use stock_predictor_lib::event::AppEvent;
use stock_predictor_lib::stock_data::StockData;

fn mean(window: &[f64]) -> f64 {
    window.iter().sum::<f64>() / window.len() as f64
}

fn smooth(close: f64, before: f64, period: usize) -> f64 {
    let multiplier = 2.0 / (period as f64 + 1.0);
    (close - before) * multiplier + before
}

fn forecast(window: &[f64], step: usize) -> f64 {
    let n = window.len() as f64;
    let sum_x: f64 = (0..window.len()).map(|i| i as f64).sum();
    let sum_y: f64 = window.iter().sum();
    let sum_xy: f64 = window.iter().enumerate().map(|(i, y)| i as f64 * y).sum();
    let sum_x2: f64 = (0..window.len()).map(|i| (i as f64) * (i as f64)).sum();
    let slope = (n * sum_xy - sum_x * sum_y) / (n * sum_x2 - sum_x * sum_x);
    let intercept = (sum_y - slope * sum_x) / n;
    slope * (window.len() + step) as f64 + intercept
}

fn change(last: f64, second_last: f64) -> f64 {
    (last - second_last) / second_last * 100.0
}

fn gain(earlier: f64, later: f64) -> f64 {
    if later != 0.0 {
        (later - earlier) / later
    } else {
        0.0
    }
}

fn spread(gains: &[f64]) -> f64 {
    if gains.len() < 2 {
        return 0.0;
    }
    let mean_gain = gains.iter().sum::<f64>() / gains.len() as f64;
    let variance =
        gains.iter().map(|g| (g - mean_gain).powi(2)).sum::<f64>() / (gains.len() - 1) as f64;
    variance.sqrt() * 100.0
}

fn assert_all_close(actual: &[f64], expected: &[f64], epsilon: f64) {
    assert_eq!(actual.len(), expected.len());
    for (a, e) in actual.iter().zip(expected.iter()) {
        assert!((a - e).abs() <= epsilon, "{} is not within {} of {}", a, epsilon, e);
    }
}

fn create_stock_data() -> StockData<f64> {
    let mut stock_data = StockData::new();
    stock_data.add_point(1672531200, 100.0, 1000);
    stock_data.add_point(1672617600, 102.0, 1200);
    stock_data.add_point(1672704000, 105.0, 1100);
    stock_data.add_point(1672790400, 103.0, 1300);
    stock_data.add_point(1672876800, 106.0, 1400);
    stock_data.add_point(1672963200, 108.0, 1500);
    stock_data
}

fn series_of(closes: &[f64]) -> StockData<f64> {
    let mut stock_data = StockData::new();
    for (i, close) in closes.iter().enumerate() {
        stock_data.add_point(1672531200 + 86400 * i as i64, *close, 1000 + i as u64);
    }
    stock_data
}

#[test]
fn test_sma() {
    let stock_data = create_stock_data();
    let sma = stock_data.sma(3, &mean).unwrap();
    let expected = [102.33333333333333, 103.33333333333333, 104.66666666666667];
    assert_all_close(&sma, &expected, 1e-10);
}

#[test]
fn test_ema() {
    let stock_data = create_stock_data();
    let ema = stock_data.ema(3, &mean, &smooth).unwrap();
    let expected = [102.33333333333333, 102.66666666666666, 104.33333333333333, 106.16666666666666];
    assert_all_close(&ema, &expected, 1e-10);
}

#[test]
fn test_predict_next() {
    let stock_data = create_stock_data();
    let predictions = stock_data.predict_next(5, &forecast);
    assert_eq!(predictions.len(), 3);
    // This is a simple test, a more robust test would check the values
    assert!(predictions[0] > 100.0);
}

#[test]
fn new_series_is_empty_and_grows_by_one_point_at_a_time() {
    let mut stock_data: StockData<f64> = StockData::new();
    assert!(stock_data.is_empty());
    assert_eq!(stock_data.len(), 0);
    stock_data.add_point(1672531200, 100.0, 1000);
    stock_data.add_point(1672617600, 102.5, 1200);
    assert!(!stock_data.is_empty());
    assert_eq!(stock_data.len(), 2);
    assert_eq!(stock_data.timestamps, vec![1672531200, 1672617600]);
    assert_eq!(stock_data.closes, vec![100.0, 102.5]);
    assert_eq!(stock_data.volumes, vec![1000, 1200]);
    let fresh: StockData<f64> = StockData::default();
    assert!(fresh.is_empty());
    assert!(fresh.timestamps.is_empty() && fresh.volumes.is_empty());
}

#[test]
fn sma_leaves_the_newest_close_out_of_every_window() {
    let stock_data = series_of(&[1.0, 2.0, 3.0, 1000.0]);
    let sma = stock_data.sma(2, &mean).unwrap();
    assert_eq!(sma, vec![1.5, 2.5]);
}

#[test]
fn sma_over_the_whole_series_is_present_and_empty() {
    let stock_data = create_stock_data();
    let sma = stock_data.sma(6, &mean).unwrap();
    assert!(sma.is_empty());
}

#[test]
fn sma_and_ema_are_absent_for_a_series_shorter_than_the_period() {
    let stock_data = create_stock_data();
    assert!(stock_data.sma(7, &mean).is_none());
    assert!(stock_data.ema(7, &mean, &smooth).is_none());
    let empty: StockData<f64> = StockData::new();
    assert!(empty.sma(1, &mean).is_none());
    assert!(empty.ema(1, &mean, &smooth).is_none());
}

#[test]
fn ema_over_the_whole_series_is_the_seed_alone() {
    let stock_data = create_stock_data();
    let ema = stock_data.ema(6, &mean, &smooth).unwrap();
    assert_all_close(&ema, &[104.0], 1e-10);
}

#[test]
fn ema_has_one_value_more_than_the_closes_past_the_period() {
    let stock_data = series_of(&[10.0, 20.0, 30.0, 40.0, 50.0]);
    let ema = stock_data.ema(2, &mean, &smooth).unwrap();
    assert_eq!(ema.len(), 5 - 2 + 1);
    let third = 2.0 / 3.0;
    let first = 15.0;
    let second = (30.0 - first) * third + first;
    let next = (40.0 - second) * third + second;
    let last = (50.0 - next) * third + next;
    assert_all_close(&ema, &[first, second, next, last], 1e-12);
}

#[test]
fn predict_next_fits_a_line_to_the_newest_closes() {
    let stock_data = create_stock_data();
    let predictions = stock_data.predict_next(5, &forecast);
    assert_all_close(&predictions, &[110.0, 111.3, 112.6], 1e-9);
}

#[test]
fn predict_next_gives_three_values_whatever_the_horizon() {
    let stock_data = series_of(&[1.0, 2.0, 3.0, 4.0]);
    for horizon in [0usize, 1, 2, 3, 4, 5, 20, 1000] {
        assert_eq!(stock_data.predict_next(horizon, &forecast).len(), 3);
    }
    let on_a_line = stock_data.predict_next(20, &forecast);
    assert_all_close(&on_a_line, &[6.0, 7.0, 8.0], 1e-9);
    let two_newest = stock_data.predict_next(2, &forecast);
    assert_all_close(&two_newest, &[6.0, 7.0, 8.0], 1e-9);
}

#[test]
fn predict_next_is_empty_for_fewer_than_two_closes() {
    let empty: StockData<f64> = StockData::new();
    assert!(empty.predict_next(20, &forecast).is_empty());
    let single = series_of(&[100.0]);
    assert!(single.predict_next(20, &forecast).is_empty());
    let pair = series_of(&[100.0, 101.0]);
    assert_all_close(&pair.predict_next(20, &forecast), &[103.0, 104.0, 105.0], 1e-9);
}

#[test]
fn recent_change_is_the_percent_change_between_the_last_two_closes() {
    let stock_data = create_stock_data();
    let recent = stock_data.recent_change(&change).unwrap();
    assert!((recent - (108.0 - 106.0) / 106.0 * 100.0).abs() < 1e-12);
    assert!((recent - 1.8867924528301887).abs() < 1e-12);
    let single = series_of(&[100.0]);
    assert!(single.recent_change(&change).is_none());
    let falling = series_of(&[200.0, 150.0]);
    assert_eq!(falling.recent_change(&change), Some(-25.0));
}

#[test]
fn volatility_of_a_constant_series_is_zero() {
    assert_eq!(calculate_volatility(&[50.0, 50.0, 50.0, 50.0], 0.0, &gain, &spread), 0.0);
    assert_eq!(calculate_volatility(&[7.25, 7.25], 0.0, &gain, &spread), 0.0);
    for price in [0.0, 1.0, -3.5, 1e-300, 1e300, 0.1, 123456.789] {
        for len in 0..12usize {
            let prices = vec![price; len];
            let volatility = calculate_volatility(&prices, 0.0, &gain, &spread);
            assert_eq!(volatility, 0.0, "{} times {}", len, price);
        }
    }
}

#[test]
fn equal_prices_make_no_gain_and_zero_gains_have_no_spread() {
    for price in [0.0, 1.0, -3.5, 1e-300, 1e300, 0.1, 123456.789] {
        assert_eq!(gain(price, price), 0.0);
    }
    for len in 1..12usize {
        assert_eq!(spread(&vec![0.0; len]), 0.0);
    }
}

#[test]
fn volatility_of_fewer_than_two_prices_is_zero() {
    assert_eq!(calculate_volatility(&[], 0.0, &gain, &spread), 0.0);
    assert_eq!(calculate_volatility(&[123.0], 0.0, &gain, &spread), 0.0);
}

#[test]
fn volatility_is_the_spread_of_the_gains_in_percent() {
    // The gains are 1/11 and -1/9: their mean is -1/99, each lies 10/99 from
    // it, and over one degree of freedom that is a deviation of 10/99 * sqrt(2).
    let volatility = calculate_volatility(&[100.0, 110.0, 99.0], 0.0, &gain, &spread);
    assert!((volatility - 1000.0 / 99.0 * 2.0f64.sqrt()).abs() < 1e-9);
    assert!((volatility - 14.284985478516111).abs() < 1e-9);
    // One gain alone has no deviation.
    assert_eq!(calculate_volatility(&[100.0, 110.0], 0.0, &gain, &spread), 0.0);
}

#[test]
fn volatility_takes_a_price_of_zero_as_no_gain() {
    let volatility = calculate_volatility(&[10.0, 0.0, 0.0], 0.0, &gain, &spread);
    assert_eq!(volatility, 0.0);
}

#[test]
fn volatility_hands_each_pair_over_in_order() {
    let pairs = std::cell::RefCell::new(Vec::new());
    let record = |earlier: i64, later: i64| {
        pairs.borrow_mut().push((earlier, later));
        later - earlier
    };
    let total = |gains: &[i64]| gains.iter().sum::<i64>();
    let out = calculate_volatility(&[3, 5, 4, 10], -1, &record, &total);
    assert_eq!(out, 7);
    assert_eq!(*pairs.borrow(), vec![(3, 5), (5, 4), (4, 10)]);
    assert_eq!(calculate_volatility(&[3], -1, &record, &total), -1);
}

#[test]
fn filter_shows_the_newest_points_of_the_range() {
    let closes: Vec<f64> = (0..400).map(|i| i as f64).collect();
    let stock_data = series_of(&closes);
    assert_eq!(filter_data_by_time_range(&stock_data, TimeRange::OneDay), vec![398.0, 399.0]);
    assert_eq!(
        filter_data_by_time_range(&stock_data, TimeRange::FiveDays),
        vec![395.0, 396.0, 397.0, 398.0, 399.0]
    );
    assert_eq!(filter_data_by_time_range(&stock_data, TimeRange::OneMonth), closes[370..].to_vec());
    assert_eq!(filter_data_by_time_range(&stock_data, TimeRange::SixMonths), closes[220..].to_vec());
    assert_eq!(filter_data_by_time_range(&stock_data, TimeRange::YearToDate), closes[35..].to_vec());
}

#[test]
fn filter_shows_a_short_series_whole() {
    let stock_data = create_stock_data();
    assert_eq!(filter_data_by_time_range(&stock_data, TimeRange::OneDay), vec![106.0, 108.0]);
    assert_eq!(
        filter_data_by_time_range(&stock_data, TimeRange::OneMonth),
        vec![100.0, 102.0, 105.0, 103.0, 106.0, 108.0]
    );
    let single = series_of(&[42.0]);
    assert_eq!(filter_data_by_time_range(&single, TimeRange::OneDay), vec![42.0]);
    let empty: StockData<f64> = StockData::new();
    assert!(filter_data_by_time_range(&empty, TimeRange::SixMonths).is_empty());
}

#[test]
fn analysis_of_a_short_series_has_no_averages() {
    let stock_data = create_stock_data();
    let analysis = analyze_stock(&stock_data, "AAPL", 0.0, &mean, &smooth, &forecast, &change);
    assert_eq!(analysis.symbol, "AAPL");
    assert_eq!(analysis.current_price, 108.0);
    assert_eq!(analysis.sma_10, None);
    assert_eq!(analysis.sma_50, None);
    assert_eq!(analysis.ema_20, None);
    assert_all_close(&analysis.predictions, &[110.42857142857143, 111.85714285714286, 113.28571428571429], 1e-9);
    assert!((analysis.recent_change.unwrap() - 1.8867924528301887).abs() < 1e-12);
}

#[test]
fn analysis_of_an_empty_series_has_a_price_of_zero() {
    let empty: StockData<f64> = StockData::new();
    let analysis = analyze_stock(&empty, "NONE", 0.0, &mean, &smooth, &forecast, &change);
    assert_eq!(analysis.current_price, 0.0);
    assert!(analysis.predictions.is_empty());
    assert_eq!(analysis.recent_change, None);
    let single = series_of(&[5.5]);
    let analysis = analyze_stock(&single, "ONE", 0.0, &mean, &smooth, &forecast, &change);
    assert_eq!(analysis.current_price, 5.5);
    assert!(analysis.predictions.is_empty());
    assert_eq!(analysis.recent_change, None);
}

#[test]
fn analysis_takes_the_newest_value_of_each_average() {
    let closes: Vec<f64> = (1..=60).map(|i| i as f64).collect();
    let stock_data = series_of(&closes);
    let analysis = analyze_stock(&stock_data, "RAMP", 0.0, &mean, &smooth, &forecast, &change);
    assert_eq!(analysis.current_price, 60.0);
    // The ten closes before the newest: 50 to 59.
    assert_eq!(analysis.sma_10, Some(54.5));
    // The fifty closes before the newest: 10 to 59.
    assert_eq!(analysis.sma_50, Some(34.5));
    let ema = stock_data.ema(20, &mean, &smooth).unwrap();
    assert_eq!(analysis.ema_20, Some(ema[ema.len() - 1]));
    assert_all_close(&analysis.predictions, &[62.0, 63.0, 64.0], 1e-9);
    assert!((analysis.recent_change.unwrap() - 100.0 / 59.0).abs() < 1e-12);
}

#[test]
fn averages_appear_at_their_own_lengths() {
    let ten = series_of(&[1.0; 10]);
    let at_ten = analyze_stock(&ten, "T", 0.0, &mean, &smooth, &forecast, &change);
    assert_eq!(at_ten.sma_10, None);
    let eleven = series_of(&[1.0; 11]);
    let at_eleven = analyze_stock(&eleven, "T", 0.0, &mean, &smooth, &forecast, &change);
    assert_eq!(at_eleven.sma_10, Some(1.0));
    assert_eq!(at_eleven.ema_20, None);
    let twenty = series_of(&[1.0; 20]);
    let at_twenty = analyze_stock(&twenty, "T", 0.0, &mean, &smooth, &forecast, &change);
    assert_eq!(at_twenty.ema_20, Some(1.0));
    assert_eq!(at_twenty.sma_50, None);
    let fifty_one = series_of(&[1.0; 51]);
    let at_fifty_one = analyze_stock(&fifty_one, "T", 0.0, &mean, &smooth, &forecast, &change);
    assert_eq!(at_fifty_one.sma_50, Some(1.0));
}

#[test]
fn a_fetched_series_becomes_an_update() {
    let event = complete_fetch(
        "AAPL",
        Ok(create_stock_data()),
        0.0,
        &mean,
        &smooth,
        &forecast,
        &change,
    );
    match event {
        AppEvent::Update(analysis, stock_data, time_range) => {
            assert_eq!(analysis.symbol, "AAPL");
            assert_eq!(analysis.current_price, 108.0);
            assert_eq!(analysis.predictions.len(), 3);
            assert_eq!(stock_data.closes, vec![100.0, 102.0, 105.0, 103.0, 106.0, 108.0]);
            assert_eq!(stock_data.volumes, vec![1000, 1200, 1100, 1300, 1400, 1500]);
            assert_eq!(time_range, TimeRange::OneMonth);
        }
        AppEvent::Error(symbol, why) => panic!("error for {}: {}", symbol, why),
    }
}

#[test]
fn an_empty_series_becomes_an_error() {
    let empty: StockData<f64> = StockData::new();
    let event = complete_fetch("AAPL", Ok(empty), 0.0, &mean, &smooth, &forecast, &change);
    match event {
        AppEvent::Error(symbol, why) => {
            assert_eq!(symbol, "AAPL");
            assert_eq!(why, "no data found");
        }
        AppEvent::Update(..) => panic!("an update for an empty series"),
    }
}

#[test]
fn a_failed_fetch_becomes_an_error() {
    let failed: Result<StockData<f64>, AppError> =
        Err(AppError::ApiError("connection refused".to_string()));
    let event = complete_fetch("MSFT", failed, 0.0, &mean, &smooth, &forecast, &change);
    match event {
        AppEvent::Error(symbol, why) => {
            assert_eq!(symbol, "MSFT");
            assert_eq!(why, "Failed to fetch stock data");
        }
        AppEvent::Update(..) => panic!("an update for a failed fetch"),
    }
}
