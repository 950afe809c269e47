use oandars::Account;
use oandars::Client;
use oandars::Timestamp;

#[test]
fn request_url_joins_base_and_path() {
    let client = Client::new("https://api.example.com/v3", "test-key", 0);
    assert_eq!(
        client.request_url("accounts"),
        "https://api.example.com/v3/accounts"
    );
}

#[test]
fn bearer_header_carries_the_api_key() {
    let client = Client::new("https://api.example.com/v3", "abc123", 0);
    assert_eq!(client.bearer_header(), "Bearer abc123");
}

#[test]
fn pricing_for_builds_a_bare_query() {
    let client = Client::new("https://api.example.com/v3", "k", 0);
    let from = Timestamp::new(2017, 6, 21, 12, 0, 0).unwrap();
    let q = client.pricing_for("EUR_USD".to_string(), from);
    assert_eq!(
        q.to_query_string(),
        "EUR_USD/candles?from=2017-06-21T12:00:00+00:00"
    );
}

#[test]
fn client_admission_is_rate_limited() {
    let mut client = Client::new("https://api.example.com/v3", "k", 0);
    let mut granted: u32 = 0;
    for _ in 0..200 {
        if client.try_acquire(1) {
            granted += 1;
        }
    }
    assert_eq!(granted, 60);
}

#[test]
fn account_records_hold_plain_values() {
    let extensions = oandars::ClientExtensions {
        id: "42".to_string(),
        tag: "scalper".to_string(),
        comment: "opened by hand".to_string(),
    };
    assert_eq!(extensions.id, "42");
    assert_eq!(extensions.tag, "scalper");
    assert_eq!(extensions.comment, "opened by hand");
    assert_eq!(oandars::TradeState::OPEN, oandars::TradeState::OPEN);
    assert_ne!(oandars::OrderState::PENDING, oandars::OrderState::FILLED);
    assert_ne!(
        oandars::InstrumentType::CURRENCY,
        oandars::InstrumentType::METAL
    );
}

#[test]
fn account_resource_paths() {
    let account = Account { id: "001-011-5838423-001".to_string(), tags: Vec::new() };
    assert_eq!(account.details_path(), "accounts/001-011-5838423-001");
    assert_eq!(
        account.instruments_path(),
        "accounts/001-011-5838423-001/instruments"
    );
    assert_eq!(account.summary_path(), "accounts/001-011-5838423-001/summary");
}
