use polygon_data::client::{bearer_value, build_target, fetch_target, status_outcome};
use polygon_data::config::{format_for_extension, ConfigFormat};
use polygon_data::error::{Error, ValidationError};
use polygon_data::service::{num_chunks, progress_total, Scheduler, CONCURRENCY_LIMIT};
use polygon_data::stream::{run_scripted, StreamState};
use polygon_data::types::{
    parse_timespan, AggregateRecord, AggregateRequest, AggregateResponse, Timespan,
};

fn record(ts: i64, open: &str, close: &str) -> AggregateRecord {
    AggregateRecord {
        timestamp: ts,
        open: open.to_string(),
        high: close.to_string(),
        low: open.to_string(),
        close: close.to_string(),
        volume: "1000".to_string(),
        transactions: None,
        otc: None,
        vwap: None,
    }
}

fn page(records: Vec<AggregateRecord>, next_url: Option<&str>) -> AggregateResponse {
    AggregateResponse {
        ticker: "AAPL".to_string(),
        adjusted: true,
        query_count: records.len() as i64,
        request_id: "req-1".to_string(),
        results_count: records.len(),
        status: "OK".to_string(),
        results: records,
        next_url: next_url.map(|s| s.to_string()),
    }
}

#[test]
fn build_validates_empty_symbol() {
    let r = AggregateRequest::build("", Timespan::Minute, 0, 1000, 100);
    assert_eq!(r, Err(ValidationError::EmptyTicker));
}

#[test]
fn build_validates_inverted_range() {
    let r = AggregateRequest::build("AAPL", Timespan::Day, 1000, 0, 100);
    assert_eq!(r, Err(ValidationError::InvertedRange));
}

#[test]
fn build_validates_zero_limit() {
    let r = AggregateRequest::build("AAPL", Timespan::Day, 0, 1000, 0);
    assert_eq!(r, Err(ValidationError::ZeroLimit));
}

#[test]
fn build_accepts_valid_parameters() {
    let r = AggregateRequest::build("AAPL", Timespan::Minute, 0, 1000, 100).unwrap();
    assert_eq!(r.ticker, "AAPL");
    assert_eq!(r.timespan, Timespan::Minute);
    assert_eq!(r.from_millis, 0);
    assert_eq!(r.to_millis, 1000);
    assert_eq!(r.next_url, None);
    assert_eq!(r.limit, 100);
}

#[test]
fn build_is_idempotent() {
    let a = AggregateRequest::build("AAPL", Timespan::Minute, 0, 1000, 100).unwrap();
    let b = AggregateRequest::build("AAPL", Timespan::Minute, 0, 1000, 100).unwrap();
    assert_eq!(a, b);
}

#[test]
fn fetch_never_mutates_the_request() {
    let r = AggregateRequest::build("AAPL", Timespan::Minute, 0, 60000, 5000).unwrap();
    let first = fetch_target(&r).unwrap();
    let again = fetch_target(&r).unwrap();
    assert_eq!(first, again);
    assert_eq!(r.ticker, "AAPL");
    assert_eq!(r.next_url, None);
}

#[test]
fn first_page_target_is_synthesized() {
    let r = AggregateRequest::build("AAPL", Timespan::Minute, 0, 60000, 5000).unwrap();
    let t = fetch_target(&r).unwrap();
    assert_eq!(
        t,
        "https://api.polygon.io/v2/aggs/ticker/AAPL/range/1/minute/0/60000?limit=5000"
    );
}

#[test]
fn continuation_is_used_verbatim() {
    let base = AggregateRequest::build("AAPL", Timespan::Minute, 0, 60000, 5000).unwrap();
    let cursor = "https://api.polygon.io/v2/aggs/ticker/AAPL/range/1/minute/0/60000?cursor=abc";
    let r = base.with_cursor(cursor.to_string());
    let t = fetch_target(&r).unwrap();
    assert_eq!(t, cursor);
}

#[test]
fn negative_timestamps_render_in_target() {
    let r = AggregateRequest::build("AAPL", Timespan::Day, -86400000, 0, 10).unwrap();
    let t = build_target(&r);
    assert_eq!(
        t,
        "https://api.polygon.io/v2/aggs/ticker/AAPL/range/1/day/-86400000/0?limit=10"
    );
}

#[test]
fn invalid_continuation_is_rejected() {
    let base = AggregateRequest::build("AAPL", Timespan::Minute, 0, 60000, 5000).unwrap();
    let r = base.with_cursor("not a url at all".to_string());
    match fetch_target(&r) {
        Err(Error::InvalidUrl(u)) => assert_eq!(u, "not a url at all"),
        other => panic!("expected an invalid URL error, got {:?}", other),
    }
}

#[test]
fn status_classification() {
    assert!(status_outcome(200).is_ok());
    assert!(status_outcome(399).is_ok());
    assert_eq!(status_outcome(400), Err(Error::UnexpectedStatus(400)));
    assert_eq!(status_outcome(404), Err(Error::UnexpectedStatus(404)));
    assert_eq!(status_outcome(500), Err(Error::UnexpectedStatus(500)));
}

#[test]
fn bearer_header_text() {
    assert_eq!(bearer_value("abc123"), "Bearer abc123");
}

#[test]
fn scripted_pages_arrive_in_order() {
    let p1 = page(vec![record(0, "1.0", "1.1")], Some("https://api.polygon.io/p2"));
    let p2 = page(vec![record(60000, "1.1", "1.2")], Some("https://api.polygon.io/p3"));
    let p3 = page(vec![record(120000, "1.2", "1.3")], None);
    let (items, cursors, state) =
        run_scripted(vec![Ok(p1.clone()), Ok(p2.clone()), Ok(p3.clone())]);
    assert_eq!(
        items,
        vec![Ok(p1.results), Ok(p2.results), Ok(p3.results)]
    );
    assert_eq!(
        cursors,
        vec![
            None,
            Some("https://api.polygon.io/p2".to_string()),
            Some("https://api.polygon.io/p3".to_string()),
        ]
    );
    assert!(matches!(state, StreamState::Terminal));
}

#[test]
fn failure_ends_the_stream_early() {
    let p1 = page(vec![record(0, "1.0", "1.1")], Some("https://api.polygon.io/p2"));
    let p3 = page(vec![record(120000, "1.2", "1.3")], None);
    let e = Error::UnexpectedStatus(500);
    let (items, cursors, state) =
        run_scripted(vec![Ok(p1.clone()), Err(e.clone()), Ok(p3)]);
    assert_eq!(items, vec![Ok(p1.results), Err(e)]);
    assert_eq!(cursors.len(), 2);
    assert_eq!(cursors[0], None);
    assert_eq!(cursors[1], Some("https://api.polygon.io/p2".to_string()));
    assert!(matches!(state, StreamState::Failed));
}

#[test]
fn stream_request_swaps_only_the_cursor() {
    let base = AggregateRequest::build("AAPL", Timespan::Minute, 0, 60000, 100).unwrap();
    let start = StreamState::Start;
    assert_eq!(start.request_for(&base), Some(base.clone()));
    let paging = StreamState::Paging("https://api.polygon.io/p2".to_string());
    let next = paging.request_for(&base).unwrap();
    assert_eq!(next.ticker, base.ticker);
    assert_eq!(next.from_millis, base.from_millis);
    assert_eq!(next.to_millis, base.to_millis);
    assert_eq!(next.limit, base.limit);
    assert_eq!(next.next_url, Some("https://api.polygon.io/p2".to_string()));
    assert_eq!(StreamState::Terminal.request_for(&base), None);
    assert_eq!(StreamState::Failed.request_for(&base), None);
}

#[test]
fn concurrency_ceiling_holds_for_25_symbols() {
    let mut gate = Scheduler::new(25, CONCURRENCY_LIMIT);
    let mut max_active: usize = 0;
    let mut admitted: Vec<usize> = Vec::new();
    while gate.try_start().is_some() {
        admitted.push(admitted.len());
        let active = gate.active_count();
        if active > max_active {
            max_active = active;
        }
    }
    assert_eq!(admitted.len(), 10);
    assert_eq!(gate.active_count(), 10);
    assert_eq!(max_active, 10);
    let mut done: usize = 0;
    while done < 25 {
        gate.finish();
        done += 1;
        while let Some(i) = gate.try_start() {
            assert!(i < 25);
            let active = gate.active_count();
            if active > max_active {
                max_active = active;
            }
        }
        assert!(gate.active_count() <= 10);
    }
    assert_eq!(max_active, 10);
    assert_eq!(gate.active_count(), 0);
    assert_eq!(gate.try_start(), None);
}

#[test]
fn chunk_estimates_by_timespan() {
    let two_days: i64 = 2 * 86_400_000;
    assert_eq!(num_chunks(Timespan::Minute, 0, two_days, 100), 28);
    assert_eq!(num_chunks(Timespan::Second, 0, 5_000, 2), 2);
    assert_eq!(num_chunks(Timespan::Hour, 0, two_days, 10), 4);
    assert_eq!(num_chunks(Timespan::Day, 0, two_days, 1), 2);
    let ten_weeks: i64 = 10 * 604_800_000;
    assert_eq!(num_chunks(Timespan::Week, 0, ten_weeks, 3), 3);
    assert_eq!(num_chunks(Timespan::Month, 0, ten_weeks, 1), 2);
    let two_years: i64 = 730 * 86_400_000;
    assert_eq!(num_chunks(Timespan::Quarter, 0, two_years, 1), 8);
    assert_eq!(num_chunks(Timespan::Year, 0, two_years, 1), 2);
}

#[test]
fn progress_denominator() {
    assert_eq!(progress_total(3, 28), 84);
    assert_eq!(progress_total(0, 1000), 0);
}

#[test]
fn timespan_names_round_trip() {
    let all = [
        Timespan::Second,
        Timespan::Minute,
        Timespan::Hour,
        Timespan::Day,
        Timespan::Week,
        Timespan::Month,
        Timespan::Quarter,
        Timespan::Year,
    ];
    for t in all {
        assert_eq!(parse_timespan(t.as_str()), Some(t));
    }
    assert_eq!(Timespan::Minute.as_str(), "minute");
    assert_eq!(Timespan::Quarter.as_str(), "quarter");
    assert_eq!(parse_timespan("fortnight"), None);
    assert_eq!(parse_timespan("Minute"), None);
    assert_eq!(Timespan::default(), Timespan::Minute);
}

#[test]
fn config_dialect_by_extension() {
    assert_eq!(format_for_extension("yaml"), Some(ConfigFormat::Yaml));
    assert_eq!(format_for_extension("yml"), Some(ConfigFormat::Yaml));
    assert_eq!(format_for_extension("toml"), Some(ConfigFormat::Toml));
    assert_eq!(format_for_extension("json"), Some(ConfigFormat::Json));
    assert_eq!(format_for_extension("ini"), None);
    assert_eq!(format_for_extension(""), None);
}
