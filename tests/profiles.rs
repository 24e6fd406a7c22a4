use yahoo_finance::error::{Error, InnerError};
use yahoo_finance::history::{aggregate_bars, chart_outcome, extract_events, Bar, ChartFailure, Dividend, Ohlcv, Split};
use yahoo_finance::profile::{CompanyProfile, FundProfile, QuoteSummaryStore, SecurityInfo};
use yahoo_finance::request::{check_interval, check_range, decimal_text, query_pairs, ChartPeriod, Instant};
use yahoo_finance::{Address, Interval, Profile};

fn company_profile() -> CompanyProfile {
    CompanyProfile {
        address1: Some("One Apple Park Way".to_string()),
        address2: None,
        city: Some("Cupertino".to_string()),
        state: Some("CA".to_string()),
        country: Some("United States".to_string()),
        zip: Some("95014".to_string()),
        employees: Some(154000),
        sector: Some("Technology".to_string()),
        industry: Some("Consumer Electronics".to_string()),
        summary: Some("Designs phones.".to_string()),
        website: Some("http://www.apple.com".to_string()),
    }
}

fn summary(kind: &str, name: &str) -> QuoteSummaryStore {
    QuoteSummaryStore {
        fund_profile: Some(FundProfile { kind: "Exchange Traded Fund".to_string(), family: Some("Invesco".to_string()) }),
        company_profile: Some(company_profile()),
        quote_type: SecurityInfo { name: name.to_string(), kind: kind.to_string() },
    }
}

#[test]
fn equity_is_company_profile() {
    match Profile::from_summary(summary("EQUITY", "Apple Inc.")).unwrap() {
        Profile::Company(company) => {
            assert_eq!(company.name, "Apple Inc.");
            assert_eq!(company.industry.as_deref(), Some("Consumer Electronics"));
            assert_eq!(company.sector.as_deref(), Some("Technology"));
            assert_eq!(company.website.as_deref(), Some("http://www.apple.com"));
            assert_eq!(company.address, Some(Address::new(&company_profile())));
            assert_eq!(company.address.unwrap().city.as_deref(), Some("Cupertino"));
        }
        _ => panic!("Needs to be a company profile"),
    }
}

#[test]
fn etf_is_fund_profile() {
    match Profile::from_summary(summary("ETF", "Invesco QQQ Trust")).unwrap() {
        Profile::Fund(fund) => {
            assert_eq!(fund.name, "Invesco QQQ Trust");
            assert_eq!(fund.kind, "Exchange Traded Fund");
            assert_eq!(fund.family.as_deref(), Some("Invesco"));
        }
        _ => panic!("Needs to be a fund  profile"),
    }
}

#[test]
fn other_security_is_unsupported() {
    assert_eq!(
        Profile::from_summary(summary("CRYPTOCURRENCY", "Bitcoin")),
        Err(Error(InnerError::UnsupportedSecurity { kind: "CRYPTOCURRENCY".to_string() }))
    );
}

#[test]
fn missing_company_part_is_missing_data() {
    let mut data = summary("EQUITY", "Apple Inc.");
    data.company_profile = None;
    assert!(matches!(Profile::from_summary(data), Err(Error(InnerError::MissingData { .. }))));
}

fn columns(n: usize) -> Ohlcv {
    Ohlcv {
        opens: (0..n).map(|i| Some((i as f64 + 1.0).to_bits())).collect(),
        highs: (0..n).map(|i| Some((i as f64 + 2.0).to_bits())).collect(),
        lows: (0..n).map(|i| Some((i as f64 + 0.5).to_bits())).collect(),
        closes: (0..n).map(|i| Some((i as f64 + 1.5).to_bits())).collect(),
        volumes: (0..n).map(|i| Some(100 * i as u64)).collect(),
    }
}

#[test]
fn no_quote_data_gives_no_bars() {
    assert_eq!(aggregate_bars(&vec![], &vec![]), Ok(vec![]));
}

#[test]
fn no_timestamps_is_missing_data() {
    match aggregate_bars(&vec![], &vec![columns(0)]) {
        Err(Error(InnerError::MissingData { reason })) => assert!(reason.contains("no timestamps")),
        other => panic!("unexpected {:?}", other),
    }
}

#[test]
fn columns_that_do_not_line_up_are_missing_data() {
    assert!(matches!(aggregate_bars(&vec![1, 2], &vec![]), Err(Error(InnerError::MissingData { .. }))));
    let mut q = columns(2);
    q.highs.pop();
    assert!(matches!(aggregate_bars(&vec![1, 2], &vec![q]), Err(Error(InnerError::MissingData { .. }))));
}

#[test]
fn incomplete_days_are_skipped() {
    let mut q = columns(3);
    q.lows[1] = None;
    q.volumes[2] = None;
    let bars = aggregate_bars(&vec![10, 20, 30], &vec![q]).unwrap();
    assert_eq!(
        bars,
        vec![
            Bar {
                timestamp: 10_000,
                open: 1.0f64.to_bits(),
                high: 2.0f64.to_bits(),
                low: 0.5f64.to_bits(),
                close: 1.5f64.to_bits(),
                volume: Some(0),
            },
            Bar {
                timestamp: 30_000,
                open: 3.0f64.to_bits(),
                high: 4.0f64.to_bits(),
                low: 2.5f64.to_bits(),
                close: 3.5f64.to_bits(),
                volume: None,
            },
        ]
    );
}

#[test]
fn timestamp_too_large_is_missing_data() {
    assert!(matches!(
        aggregate_bars(&vec![i64::MAX], &vec![columns(1)]),
        Err(Error(InnerError::MissingData { .. }))
    ));
}

#[test]
fn events_in_milliseconds() {
    let (ds, ss) = extract_events(
        vec![Dividend { amount: 0.24f64.to_bits(), timestamp: 1_600_000_000 }],
        vec![Split { denominator: 1, numerator: 4, split_ratio: "4:1".to_string(), timestamp: 1_598_000_000 }],
    )
    .unwrap();
    assert_eq!(ds, vec![Dividend { amount: 0.24f64.to_bits(), timestamp: 1_600_000_000_000 }]);
    assert_eq!(ss[0].timestamp, 1_598_000_000_000);
    assert_eq!(ss[0].split_ratio, "4:1");
    assert!(extract_events(vec![Dividend { amount: 0, timestamp: i64::MIN }], vec![]).is_err());
}

#[test]
fn intraday_interval_is_refused() {
    assert_eq!(
        check_interval(Interval::_1m),
        Err(Error(InnerError::NoIntraday { interval: Interval::_1m }))
    );
    assert_eq!(check_interval(Interval::_6mo), Ok(ChartPeriod::Range(Interval::_6mo)));
}

#[test]
fn range_needs_a_whole_second() {
    let start = Instant { secs: 1_000, nanos: 900_000_000 };
    assert_eq!(
        check_range(start, Instant { secs: 1_001, nanos: 200_000_000 }),
        Err(Error(InnerError::InvalidStartDate))
    );
    assert_eq!(
        check_range(start, Instant { secs: 1_001, nanos: 900_000_000 }),
        Ok(ChartPeriod::Between(1_000, 1_001))
    );
    assert_eq!(
        check_range(Instant { secs: 2_000, nanos: 0 }, Instant { secs: 1_500, nanos: 0 }),
        Err(Error(InnerError::InvalidStartDate))
    );
}

#[test]
fn chart_query_parameters() {
    let pairs = |v: Vec<(String, String)>| v.into_iter().map(|(a, b)| format!("{}={}", a, b)).collect::<Vec<_>>();
    assert_eq!(pairs(query_pairs(ChartPeriod::Range(Interval::_6mo), false)), vec!["range=6mo", "interval=1d"]);
    assert_eq!(
        pairs(query_pairs(ChartPeriod::Between(1_600_000_000, -5), true)),
        vec!["period1=1600000000", "period2=-5", "interval=1d", "events=div|split"]
    );
    assert_eq!(decimal_text(0), "0");
    assert_eq!(decimal_text(i64::MIN), "-9223372036854775808");
    assert_eq!(decimal_text(i64::MAX), "9223372036854775807");
}

#[test]
fn chart_answer_outcomes() {
    assert_eq!(chart_outcome(Some(vec![7, 8]), None), Ok(7));
    assert_eq!(chart_outcome::<i32>(Some(vec![]), None), Err(Error(InnerError::UnexpectedErrorYahoo)));
    assert_eq!(
        chart_outcome::<i32>(
            None,
            Some(ChartFailure { code: "Not Found".to_string(), description: "No data found".to_string() })
        ),
        Err(Error(InnerError::ChartFailed { code: "Not Found".to_string(), description: "No data found".to_string() }))
    );
    assert!(matches!(chart_outcome::<i32>(None, None), Err(Error(InnerError::InternalLogic { .. }))));
}
