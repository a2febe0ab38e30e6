use mse_history::page::{parse_history_page, records_from_table};
use mse_history::record::{record_from_cells, RowParseError};

fn cells(v: &[&str]) -> Vec<String> {
    v.iter().map(|s| s.to_string()).collect()
}

const PAGE: &str = "<html><body><table><thead><tr><th>Датум</th></tr></thead><tbody>\
<tr><td> 14.06.2024 </td><td>21.000,00</td><td>21.100,00</td><td>20.900,00</td><td>21.005,12</td><td>0,24</td><td>15</td><td>315.076,80</td><td>315.076,80</td></tr>\
<tr><td>13.06.2024</td><td>20.950,00</td><td></td><td></td><td></td><td>0,00</td><td>0</td><td>0</td><td>0</td></tr>\
<tr><td>12.06.2024</td><td>only</td></tr>\
<tr><td>11.06.2024</td><td>20.900,00</td><td>20.950,00</td><td>20.800,00</td><td>20.880,00</td><td>-0,10</td><td>7</td><td>146.160,00</td><td>146.160,00</td></tr>\
</tbody></table></body></html>";

#[test]
fn page_rows_become_records() {
    let records = parse_history_page(PAGE).unwrap();
    assert_eq!(records.len(), 2);
    let first = &records[0];
    assert_eq!(first.date, "14.06.2024");
    assert_eq!(first.last_transaction, "21.000,00 ден.");
    assert_eq!(first.max_value, "21.100,00 ден.");
    assert_eq!(first.min_value, "20.900,00 ден.");
    assert_eq!(first.average, "21.005,12 ден.");
    assert_eq!(first.change, "0,24");
    assert_eq!(first.volume, "15");
    assert_eq!(first.best_sales, "315.076,80 ден.");
    assert_eq!(first.all_sales, "315.076,80 ден.");
    assert_eq!(records[1].date, "11.06.2024");
    assert_eq!(records[1].change, "-0,10");
}

#[test]
fn page_with_bad_date_is_refused_whole() {
    let page = "<table><tbody>\
<tr><td>11.06.2024</td><td>1</td><td>2</td><td>3</td><td>4</td><td>5</td><td>6</td><td>7</td><td>8</td></tr>\
<tr><td>yesterday</td><td>1</td><td>2</td><td>3</td><td>4</td><td>5</td><td>6</td><td>7</td><td>8</td></tr>\
</tbody></table>";
    assert_eq!(parse_history_page(page), Err(RowParseError::BadDate));
}

#[test]
fn page_without_table_has_no_records() {
    assert_eq!(parse_history_page("<html><body>nothing</body></html>"), Ok(vec![]));
}

#[test]
fn short_and_non_trading_rows_are_skipped() {
    assert_eq!(record_from_cells(&cells(&["11.06.2024", "1", "2"])), Ok(None));
    assert_eq!(
        record_from_cells(&cells(&["11.06.2024", "1", "", "3", "4", "5", "6", "7", "8"])),
        Ok(None)
    );
    assert_eq!(
        record_from_cells(&cells(&["bad", "1", "", "3", "4", "5", "6", "7", "8"])),
        Ok(None)
    );
    assert_eq!(
        record_from_cells(&cells(&["bad", "1", "2", "3", "4", "5", "6", "7", "8"])),
        Err(RowParseError::BadDate)
    );
}

#[test]
fn table_cells_are_trimmed() {
    let rows = vec![cells(&[" 11.06.2024\n", " 1 ", "2", "3", "4", "5", "6", "7", "8", "extra"])];
    let records = records_from_table(&rows).unwrap();
    assert_eq!(records.len(), 1);
    assert_eq!(records[0].date, "11.06.2024");
    assert_eq!(records[0].last_transaction, "1 ден.");
    assert_eq!(records[0].all_sales, "8 ден.");
}
