use oandars::PricingQuery;
use oandars::Timestamp;

fn ts(year: u16, month: u8, day: u8, hour: u8, minute: u8, second: u8) -> Timestamp {
    Timestamp::new(year, month, day, hour, minute, second).unwrap()
}

#[test]
fn round_trip_query_string() {
    let from = ts(2017, 6, 21, 12, 0, 0);
    let mut q = PricingQuery::new("EUR_USD".to_string(), from);
    let q = q.with_price("M".to_string());
    assert_eq!(
        q.to_query_string(),
        "EUR_USD/candles?from=2017-06-21T12:00:00+00:00&price=M"
    );
}

#[test]
fn serialization_is_deterministic() {
    let from = ts(2019, 11, 3, 8, 15, 59);
    let mut a = PricingQuery::new("USD_JPY".to_string(), from);
    a.with_granularity("H1".to_string());
    a.with_count(500);
    let first = a.to_query_string();
    let second = a.to_query_string();
    assert_eq!(first, second);

    let mut b = PricingQuery::new("USD_JPY".to_string(), from);
    b.with_granularity("H1".to_string());
    b.with_count(500);
    assert_eq!(first, b.to_query_string());
}

#[test]
fn all_parameters_in_fixed_order() {
    let from = ts(2017, 6, 21, 12, 0, 0);
    let to = ts(2017, 6, 22, 0, 0, 0);
    let mut q = PricingQuery::new("EUR_USD".to_string(), from);
    q.with_price("M".to_string());
    q.with_granularity("S5".to_string());
    q.with_count(100);
    q.with_to(to);
    q.with_smooth(false);
    q.with_include_first(true);
    q.with_daily_alignment(17);
    q.with_alignment_timezone("America/New_York".to_string());
    q.with_weekly_alignment("Friday".to_string());
    assert_eq!(
        q.to_query_string(),
        "EUR_USD/candles?from=2017-06-21T12:00:00+00:00\
         &price=M&granularity=S5&count=100&to=2017-06-22 00:00:00 UTC\
         &smooth=false&includeFirst=true&dailyAlignment=17\
         &alignmentTimezone=America/New_York&weeklyAlignment=Friday"
    );
}

#[test]
fn absent_parameters_contribute_nothing() {
    let from = ts(2000, 1, 1, 0, 0, 0);
    let q = PricingQuery::new("GBP_CHF".to_string(), from);
    assert_eq!(
        q.to_query_string(),
        "GBP_CHF/candles?from=2000-01-01T00:00:00+00:00"
    );
}

#[test]
fn negative_count_is_rendered_with_sign() {
    let from = ts(2021, 12, 31, 23, 59, 59);
    let mut q = PricingQuery::new("EUR_USD".to_string(), from);
    q.with_count(-5);
    assert_eq!(
        q.to_query_string(),
        "EUR_USD/candles?from=2021-12-31T23:59:59+00:00&count=-5"
    );
}

#[test]
fn resource_path_prefixes_instruments() {
    let from = ts(2017, 6, 21, 12, 0, 0);
    let mut q = PricingQuery::new("EUR_USD".to_string(), from);
    q.with_price("M".to_string());
    assert_eq!(
        q.resource_path(),
        "instruments/EUR_USD/candles?from=2017-06-21T12:00:00+00:00&price=M"
    );
}
