use polygon_data::digits::{i64_to_dec, u64_to_dec};
use polygon_data::error::Error;
use polygon_data::stream::run_scripted;
use polygon_data::types::{AggregateRecord, AggregateResponse, Timespan};
use polygon_data::writer::{output_file_path, page_action, render_row, render_rows, PageAction};

fn bare_record() -> AggregateRecord {
    AggregateRecord {
        timestamp: 1_718_000_000_000,
        open: "10.5".to_string(),
        high: "11.0".to_string(),
        low: "9.8".to_string(),
        close: "10.9".to_string(),
        volume: "1000".to_string(),
        transactions: None,
        otc: None,
        vwap: None,
    }
}

#[test]
fn integer_text() {
    assert_eq!(u64_to_dec(0), "0");
    assert_eq!(u64_to_dec(7), "7");
    assert_eq!(u64_to_dec(1_234_567_890_123), "1234567890123");
    assert_eq!(i64_to_dec(0), "0");
    assert_eq!(i64_to_dec(-1), "-1");
    assert_eq!(i64_to_dec(42), "42");
    assert_eq!(i64_to_dec(i64::MIN), "-9223372036854775808");
    assert_eq!(i64_to_dec(i64::MAX), "9223372036854775807");
}

#[test]
fn row_without_optional_fields() {
    let r = bare_record();
    assert_eq!(render_row(&r), "1718000000000,10.5,11.0,9.8,10.9,1000\n");
}

#[test]
fn row_with_all_optional_fields() {
    let mut r = bare_record();
    r.transactions = Some(123);
    r.otc = Some(true);
    r.vwap = Some("10.75".to_string());
    assert_eq!(
        render_row(&r),
        "1718000000000,10.5,11.0,9.8,10.9,1000,123,true,10.75\n"
    );
}

#[test]
fn row_with_false_otc_still_carries_the_column() {
    let mut r = bare_record();
    r.otc = Some(false);
    assert_eq!(render_row(&r), "1718000000000,10.5,11.0,9.8,10.9,1000,false\n");
}

#[test]
fn unset_optional_fields_leave_no_placeholder() {
    let mut r = bare_record();
    r.vwap = Some("10.75".to_string());
    assert_eq!(render_row(&r), "1718000000000,10.5,11.0,9.8,10.9,1000,10.75\n");
}

#[test]
fn negative_timestamp_row() {
    let mut r = bare_record();
    r.timestamp = -5;
    assert_eq!(render_row(&r), "-5,10.5,11.0,9.8,10.9,1000\n");
}

#[test]
fn two_appends_keep_both_batches_in_order() {
    let mut a = bare_record();
    a.timestamp = 1;
    let mut b = bare_record();
    b.timestamp = 2;
    let first = render_rows(&vec![a.clone()]);
    let second = render_rows(&vec![b.clone()]);
    let combined = render_rows(&vec![a, b]);
    let mut file_text = String::new();
    file_text.push_str(&first);
    file_text.push_str(&second);
    assert_eq!(file_text, combined);
    assert_eq!(
        file_text,
        "1,10.5,11.0,9.8,10.9,1000\n2,10.5,11.0,9.8,10.9,1000\n"
    );
}

#[test]
fn empty_batch_renders_nothing() {
    assert_eq!(render_rows(&Vec::new()), "");
}

#[test]
fn page_actions() {
    let mut r = bare_record();
    r.timestamp = 9;
    match page_action(Ok(vec![r])) {
        PageAction::Append(s) => assert_eq!(s, "9,10.5,11.0,9.8,10.9,1000\n"),
        other => panic!("expected an append, got {:?}", other),
    }
    assert_eq!(page_action(Ok(Vec::new())), PageAction::Skip);
    let e = Error::UnexpectedStatus(429);
    assert_eq!(page_action(Err(e.clone())), PageAction::Halt(e));
}

#[test]
fn output_path_is_deterministic() {
    assert_eq!(
        output_file_path("/data/out", "AAPL", Timespan::Minute),
        "/data/out/AAPL/minute.csv"
    );
    assert_eq!(
        output_file_path("out", "MSFT", Timespan::Quarter),
        "out/MSFT/quarter.csv"
    );
}

#[test]
fn one_page_run_persists_three_rows() {
    let mut r1 = bare_record();
    r1.timestamp = 1;
    let mut r2 = bare_record();
    r2.timestamp = 2;
    let mut r3 = bare_record();
    r3.timestamp = 3;
    let only_page = AggregateResponse {
        ticker: "AAPL".to_string(),
        adjusted: true,
        query_count: 3,
        request_id: "req-7".to_string(),
        results_count: 3,
        status: "OK".to_string(),
        results: vec![r1, r2, r3],
        next_url: None,
    };
    let (items, cursors, _state) = run_scripted(vec![Ok(only_page)]);
    assert_eq!(items.len(), 1);
    assert_eq!(cursors, vec![None]);
    let mut flushes: usize = 0;
    let mut file_text = String::new();
    for item in items {
        match page_action(item) {
            PageAction::Append(s) => {
                file_text.push_str(&s);
                flushes += 1;
            }
            PageAction::Skip => {}
            PageAction::Halt(e) => panic!("unexpected failure: {:?}", e),
        }
    }
    assert_eq!(flushes, 1);
    assert_eq!(
        file_text,
        "1,10.5,11.0,9.8,10.9,1000\n2,10.5,11.0,9.8,10.9,1000\n3,10.5,11.0,9.8,10.9,1000\n"
    );
    assert_eq!(file_text.lines().count(), 3);
    assert_eq!(
        output_file_path("root", "AAPL", Timespan::Minute),
        "root/AAPL/minute.csv"
    );
}
