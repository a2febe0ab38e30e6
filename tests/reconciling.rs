use mse_history::parse_dmy;
use mse_history::plan::Window;
use mse_history::reconcile::{window_result, FetchError, Outcome, Reconciliation, StoredEntry};
use mse_history::record::StockRecord;

fn day(s: &str) -> i64 {
    parse_dmy(s).unwrap() as i64
}

fn rec(date: &str) -> StockRecord {
    let t = |s: &str| s.to_string();
    StockRecord {
        date: t(date),
        last_transaction: t("1 ден."),
        max_value: t("2 ден."),
        min_value: t("1 ден."),
        average: t("1,5 ден."),
        change: t("0,00"),
        volume: t("3"),
        best_sales: t("4 ден."),
        all_sales: t("4 ден."),
    }
}

fn dates(v: &[StockRecord]) -> Vec<&str> {
    v.iter().map(|r| r.date.as_str()).collect()
}

#[test]
fn absent_security_with_no_rows_stays_absent() {
    let today = day("15.06.2024");
    let mut r = Reconciliation::begin(StoredEntry::Absent, today);
    assert!(!r.incremental);
    assert_eq!(r.windows.len(), 10);
    assert_eq!(r.windows[0].to, today);
    let mut calls = 0;
    while let Some(_) = r.next_window() {
        r.record_fetch(Ok(vec![]));
        calls += 1;
    }
    assert_eq!(calls, 10);
    assert!(matches!(r.finish(), Outcome::Unchanged));
}

#[test]
fn empty_and_malformed_entries_rescrape_history() {
    let today = day("15.06.2024");
    for entry in [StoredEntry::Empty, StoredEntry::Malformed] {
        let r = Reconciliation::begin(entry, today);
        assert!(!r.incremental);
        assert_eq!(r.windows.len(), 10);
        assert!(r.existing.is_empty());
    }
    let r = Reconciliation::begin(StoredEntry::Records(vec![rec("not a date")]), today);
    assert!(!r.incremental);
    assert_eq!(r.windows.len(), 10);
    assert!(r.existing.is_empty());
}

#[test]
fn adin_update_requests_one_window() {
    let today = day("15.06.2024");
    let r = Reconciliation::begin(StoredEntry::Records(vec![rec("01.01.2024")]), today);
    assert!(r.incremental);
    assert_eq!(r.windows, vec![Window { from: day("02.01.2024"), to: today }]);
    assert_eq!(dates(&r.existing), vec!["01.01.2024"]);
}

#[test]
fn update_puts_new_rows_ahead_of_stored_ones() {
    let today = day("15.06.2024");
    let stored = vec![rec("01.01.2023"), rec("30.12.2022")];
    let mut r = Reconciliation::begin(StoredEntry::Records(stored), today);
    assert_eq!(r.windows.len(), 2);
    r.record_fetch(Ok(vec![rec("02.01.2024"), rec("03.01.2023")]));
    r.record_fetch(Ok(vec![rec("14.06.2024"), rec("03.01.2024")]));
    assert_eq!(r.next_window(), None);
    match r.finish() {
        Outcome::Store(v) => assert_eq!(
            dates(&v),
            vec!["14.06.2024", "03.01.2024", "02.01.2024", "03.01.2023", "01.01.2023", "30.12.2022"]
        ),
        Outcome::Unchanged => panic!("rows were fetched"),
    }
}

#[test]
fn failed_window_does_not_stop_the_next() {
    let today = day("15.06.2024");
    let mut r = Reconciliation::begin(StoredEntry::Absent, today);
    r.record_fetch(Err(FetchError::Transport));
    assert_eq!(r.next, 1);
    assert_eq!(r.next_window(), Some(r.windows[1]));
    r.record_fetch(Ok(vec![rec("10.06.2023")]));
    r.record_fetch(Err(FetchError::BadRow));
    r.record_fetch(Ok(vec![rec("10.06.2021")]));
    match r.finish() {
        Outcome::Store(v) => assert_eq!(dates(&v), vec!["10.06.2023", "10.06.2021"]),
        Outcome::Unchanged => panic!("rows were fetched"),
    }
}

#[test]
fn up_to_date_security_fetches_nothing() {
    let today = day("15.06.2024");
    let r = Reconciliation::begin(StoredEntry::Records(vec![rec("15.06.2024")]), today);
    assert!(r.incremental);
    assert_eq!(r.next_window(), None);
    assert!(matches!(r.finish(), Outcome::Unchanged));
}

#[test]
fn legacy_marker_updates_from_its_day() {
    let today = day("15.06.2024");
    let r = Reconciliation::begin(StoredEntry::LegacyDateMarker(day("01.06.2024")), today);
    assert!(r.incremental);
    assert_eq!(r.windows, vec![Window { from: day("02.06.2024"), to: today }]);
    assert!(r.existing.is_empty());
}

#[test]
fn window_results_name_their_failure() {
    assert_eq!(window_result(None), Err(FetchError::Transport));
    let bad = "<table><tbody><tr><td>x</td><td>1</td><td>2</td><td>3</td><td>4</td>\
<td>5</td><td>6</td><td>7</td><td>8</td></tr></tbody></table>";
    assert_eq!(window_result(Some(bad)), Err(FetchError::BadRow));
    let good = "<table><tbody><tr><td>03.06.2024</td><td>1</td><td>2</td><td>3</td><td>4</td>\
<td>5</td><td>6</td><td>7</td><td>8</td></tr></tbody></table>";
    let rows = window_result(Some(good)).unwrap();
    assert_eq!(dates(&rows), vec!["03.06.2024"]);
    assert_eq!(rows[0].max_value, "2 ден.");
}
