//! The history page of one security: its address for a window, and the
//! records its table holds.

use vstd::prelude::*;
use crate::date::{day_text, day_text_of, ISO_PATTERN};
use crate::plan::Window;
use crate::record::{
    cells_view, record_from_cells, row_meaning, RowMeaning, RowParseError, StockRecord,
    StockRecordView,
};

verus! {

/// Address of the history pages, followed by the security identifier.
pub const HISTORY_BASE: &'static str = "https://www.mse.mk/mk/stats/symbolhistory/";

/// The cell texts of the rows of a page's table body, as scraper reads them.
pub uninterp spec fn table_cells_of(html: Seq<char>) -> Seq<Seq<Seq<char>>>;

/// `s` without its leading and trailing whitespace, as `str::trim` gives it.
pub uninterp spec fn trimmed_of(s: Seq<char>) -> Seq<char>;

pub open spec fn rows_view(rows: Seq<Vec<String>>) -> Seq<Seq<Seq<char>>> {
    rows.map_values(|r: Vec<String>| cells_view(r@))
}

pub open spec fn records_view(rs: Seq<StockRecord>) -> Seq<StockRecordView> {
    rs.map_values(|r: StockRecord| r@)
}

pub open spec fn trimmed_cells(cells: Seq<Seq<char>>) -> Seq<Seq<char>> {
    cells.map_values(|c: Seq<char>| trimmed_of(c))
}

/// The records that the rows describe, in row order, with the rows that are
/// not trading days left out; `None` when the date of some trading day
/// cannot be read, since a page is taken whole or not at all.
pub open spec fn page_records(rows: Seq<Seq<Seq<char>>>) -> Option<Seq<StockRecordView>>
    decreases rows.len(),
{
    if rows.len() == 0 {
        Some(seq![])
    } else {
        match page_records(rows.drop_last()) {
            None => None,
            Some(prev) => match row_meaning(trimmed_cells(rows.last())) {
                RowMeaning::Skipped => Some(prev),
                RowMeaning::BadDate => None,
                RowMeaning::Day(v) => Some(prev.push(v)),
            },
        }
    }
}

/// Relies on scraper's `Html::parse_document` and `Selector`: the text of
/// each `td` of each `tbody tr` of the document, in document order.
#[verifier::external_body]
fn table_cells(html: &str) -> (r: Vec<Vec<String>>)
    ensures
        rows_view(r@) == table_cells_of(html@),
{
    let document = scraper::Html::parse_document(html);
    let rows = scraper::Selector::parse("tbody tr").unwrap();
    let cells = scraper::Selector::parse("td").unwrap();
    let mut out = Vec::new();
    for row in document.select(&rows) {
        let mut texts = Vec::new();
        for cell in row.select(&cells) {
            texts.push(cell.text().collect::<String>());
        }
        out.push(texts);
    }
    out
}

/// Relies on `str::trim`.
#[verifier::external_body]
fn trim_text(s: &str) -> (r: String)
    ensures
        r@ == trimmed_of(s@),
{
    s.trim().to_string()
}

fn trim_cells(cells: &Vec<String>) -> (r: Vec<String>)
    ensures
        cells_view(r@) == trimmed_cells(cells_view(cells@)),
{
    let mut r: Vec<String> = Vec::new();
    let mut i: usize = 0;
    while i < cells.len()
        invariant
            i <= cells@.len(),
            r@.len() == i,
            forall|j: int| 0 <= j < i ==> #[trigger] r@[j]@ == trimmed_of(cells@[j]@),
        decreases cells@.len() - i,
    {
        r.push(trim_text(cells[i].as_str()));
        i = i + 1;
    }
    assert(cells_view(r@) =~= trimmed_cells(cells_view(cells@)));
    r
}

/// The records of a table given as the cell texts of its rows.
pub fn records_from_table(rows: &Vec<Vec<String>>) -> (r: Result<Vec<StockRecord>, RowParseError>)
    ensures
        match page_records(rows_view(rows@)) {
            None => r is Err,
            Some(v) => r is Ok && records_view(r->Ok_0@) == v,
        },
{
    let mut out: Vec<StockRecord> = Vec::new();
    let mut i: usize = 0;
    while i < rows.len()
        invariant
            i <= rows@.len(),
            page_records(rows_view(rows@).subrange(0, i as int)) == Some(records_view(out@)),
        decreases rows@.len() - i,
    {
        let ghost prefix = rows_view(rows@).subrange(0, i as int);
        let ghost next = rows_view(rows@).subrange(0, i + 1);
        assert(next.drop_last() =~= prefix);
        assert(next.last() == cells_view(rows@[i as int]@));
        let trimmed = trim_cells(&rows[i]);
        match record_from_cells(&trimmed) {
            Ok(Some(rec)) => {
                let ghost before = out@;
                out.push(rec);
                assert(records_view(out@) =~= records_view(before).push(rec@));
            },
            Ok(None) => {},
            Err(e) => {
                proof {
                    lemma_page_records_none_stays(rows_view(rows@), i + 1);
                }
                return Err(e);
            },
        }
        i = i + 1;
    }
    assert(rows_view(rows@).subrange(0, rows@.len() as int) =~= rows_view(rows@));
    Ok(out)
}

proof fn lemma_page_records_none_stays(rows: Seq<Seq<Seq<char>>>, n: int)
    requires
        0 <= n <= rows.len(),
        page_records(rows.subrange(0, n)) is None,
    ensures
        page_records(rows) is None,
    decreases rows.len() - n,
{
    if n < rows.len() {
        let next = rows.subrange(0, n + 1);
        assert(next.drop_last() =~= rows.subrange(0, n));
        lemma_page_records_none_stays(rows, n + 1);
    } else {
        assert(rows.subrange(0, n) =~= rows);
    }
}

/// The records of a history page; an error when the date of one of its
/// trading days cannot be read.
pub fn parse_history_page(html: &str) -> (r: Result<Vec<StockRecord>, RowParseError>)
    ensures
        match page_records(table_cells_of(html@)) {
            None => r is Err,
            Some(v) => r is Ok && records_view(r->Ok_0@) == v,
        },
{
    let rows = table_cells(html);
    records_from_table(&rows)
}

pub open spec fn iso_text(d: int) -> Option<Seq<char>> {
    if i32::MIN <= d <= i32::MAX {
        day_text_of(d, ISO_PATTERN@)
    } else {
        None
    }
}

/// The address of the history page of `security` for the window `w`, or
/// `None` when a day of the window is not a calendar date.
pub open spec fn history_url_of(security: Seq<char>, w: (int, int)) -> Option<Seq<char>> {
    match (iso_text(w.0), iso_text(w.1)) {
        (Some(f), Some(t)) => Some(
            HISTORY_BASE@ + security + "/?FromDate="@ + f + "&ToDate="@ + t,
        ),
        _ => None,
    }
}

fn iso_day(d: i64) -> (r: Option<String>)
    ensures
        match r {
            Some(t) => iso_text(d as int) == Some(t@),
            None => iso_text(d as int) is None,
        },
{
    if d < i32::MIN as i64 || d > i32::MAX as i64 {
        return None;
    }
    day_text(d as i32, ISO_PATTERN)
}

/// The address of the history page of `security` for the window `w`.
pub fn history_url(security: &str, w: Window) -> (r: Option<String>)
    ensures
        match r {
            Some(u) => history_url_of(security@, w@) == Some(u@),
            None => history_url_of(security@, w@) is None,
        },
{
    let from = match iso_day(w.from) {
        Some(t) => t,
        None => return None,
    };
    let to = match iso_day(w.to) {
        Some(t) => t,
        None => return None,
    };
    let mut url = String::from_str(HISTORY_BASE);
    url.append(security);
    url.append("/?FromDate=");
    url.append(from.as_str());
    url.append("&ToDate=");
    url.append(to.as_str());
    Some(url)
}

} // verus!
