use oandars::Candlestick;
use oandars::PaginationDriver;
use oandars::Pricing;
use oandars::Timestamp;

fn ts(hour: u8, minute: u8) -> Timestamp {
    Timestamp::new(2020, 3, 2, hour, minute, 0).unwrap()
}

fn candle_at(time: Timestamp) -> Candlestick {
    Candlestick {
        time,
        bid: None,
        ask: None,
        mid: None,
        volume: 1,
        complete: true,
    }
}

fn page(times: &[Timestamp]) -> Pricing {
    Pricing {
        instrument: "EUR_USD".to_string(),
        granularity: "M5".to_string(),
        candles: times.iter().map(|t| candle_at(*t)).collect(),
    }
}

#[test]
fn cursor_advances_to_last_candle() {
    let mut driver = PaginationDriver::new("EUR_USD".to_string(), ts(9, 0), None);
    driver.on_page(&page(&[ts(9, 0), ts(9, 5), ts(9, 10)]));
    let next = driver.next_request().unwrap();
    assert_eq!(
        next.to_query_string(),
        "EUR_USD/candles?from=2020-03-02T09:10:00+00:00&includeFirst=false"
    );
}

#[test]
fn two_page_series_yields_five_candles_over_three_requests() {
    let mut driver = PaginationDriver::new("EUR_USD".to_string(), ts(9, 0), None);

    assert!(!driver.is_done());
    assert!(driver.next_request().is_some());
    driver.on_page(&page(&[ts(9, 0), ts(9, 5), ts(9, 10)]));

    assert!(!driver.is_done());
    let second = driver.next_request().unwrap();
    assert_eq!(
        second.to_query_string(),
        "EUR_USD/candles?from=2020-03-02T09:10:00+00:00&includeFirst=false"
    );
    driver.on_page(&page(&[ts(9, 15), ts(9, 20)]));

    assert!(!driver.is_done());
    let third = driver.next_request().unwrap();
    assert_eq!(
        third.to_query_string(),
        "EUR_USD/candles?from=2020-03-02T09:20:00+00:00&includeFirst=false"
    );
    driver.on_page(&page(&[]));

    assert!(driver.is_done());
    assert!(driver.next_request().is_none());
    assert_eq!(driver.candles_yielded(), 5);
    assert_eq!(driver.pages_fetched(), 3);
}

#[test]
fn empty_page_ends_the_walk() {
    let mut driver = PaginationDriver::new("EUR_USD".to_string(), ts(8, 0), Some(false));
    driver.on_page(&page(&[]));
    assert!(driver.is_done());
    assert!(driver.next_request().is_none());
    assert_eq!(driver.candles_yielded(), 0);
    assert_eq!(driver.pages_fetched(), 1);
}

#[test]
fn done_driver_ignores_further_pages() {
    let mut driver = PaginationDriver::new("EUR_USD".to_string(), ts(8, 0), None);
    driver.on_page(&page(&[]));
    assert!(driver.is_done());
    driver.on_page(&page(&[ts(9, 0)]));
    assert!(driver.is_done());
    assert!(driver.next_request().is_none());
    assert_eq!(driver.candles_yielded(), 0);
    assert_eq!(driver.pages_fetched(), 1);
}

#[test]
fn first_request_carries_the_callers_include_first() {
    let driver = PaginationDriver::new("EUR_USD".to_string(), ts(8, 0), Some(false));
    let first = driver.next_request().unwrap();
    assert_eq!(
        first.to_query_string(),
        "EUR_USD/candles?from=2020-03-02T08:00:00+00:00&includeFirst=false"
    );

    let bare = PaginationDriver::new("EUR_USD".to_string(), ts(8, 0), None);
    let first = bare.next_request().unwrap();
    assert_eq!(
        first.to_query_string(),
        "EUR_USD/candles?from=2020-03-02T08:00:00+00:00"
    );
}
