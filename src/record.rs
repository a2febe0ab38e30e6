//! One trading day of one security, and how a table row becomes one.

use vstd::prelude::*;
use crate::date::{dmy_day_of, day_text_of, parse_dmy, day_text, DMY_PATTERN};

verus! {

/// Marker that the source's monetary columns carry.
pub const CURRENCY_SUFFIX: &'static str = " ден.";

/// Fewest cells a table row needs to describe a trading day.
pub const ROW_CELLS: usize = 9;

/// One trading day of one security, as the source writes it.
#[derive(Clone, Debug, PartialEq, Eq)]
pub struct StockRecord {
    pub date: String,
    pub last_transaction: String,
    pub max_value: String,
    pub min_value: String,
    pub average: String,
    pub change: String,
    pub volume: String,
    pub best_sales: String,
    pub all_sales: String,
}

pub struct StockRecordView {
    pub date: Seq<char>,
    pub last_transaction: Seq<char>,
    pub max_value: Seq<char>,
    pub min_value: Seq<char>,
    pub average: Seq<char>,
    pub change: Seq<char>,
    pub volume: Seq<char>,
    pub best_sales: Seq<char>,
    pub all_sales: Seq<char>,
}

impl View for StockRecord {
    type V = StockRecordView;

    open spec fn view(&self) -> StockRecordView {
        StockRecordView {
            date: self.date@,
            last_transaction: self.last_transaction@,
            max_value: self.max_value@,
            min_value: self.min_value@,
            average: self.average@,
            change: self.change@,
            volume: self.volume@,
            best_sales: self.best_sales@,
            all_sales: self.all_sales@,
        }
    }
}

/// A row whose date cell cannot be read as a date.
#[derive(Clone, Copy, Debug, PartialEq, Eq, Structural)]
pub enum RowParseError {
    BadDate,
}

/// What a row of cells stands for.
pub enum RowMeaning {
    /// Too few cells, or no maximum price: not a trading day.
    Skipped,
    /// A trading day.
    Day(StockRecordView),
    /// A trading day whose date cannot be read.
    BadDate,
}

pub open spec fn priced(s: Seq<char>) -> Seq<char> {
    s + CURRENCY_SUFFIX@
}

pub open spec fn row_meaning(cells: Seq<Seq<char>>) -> RowMeaning {
    if cells.len() < ROW_CELLS || cells[2].len() == 0 {
        RowMeaning::Skipped
    } else {
        match dmy_day_of(cells[0]) {
            Some(d) if i32::MIN <= d <= i32::MAX => match day_text_of(d, DMY_PATTERN@) {
                Some(t) => RowMeaning::Day(
                    StockRecordView {
                        date: t,
                        last_transaction: priced(cells[1]),
                        max_value: priced(cells[2]),
                        min_value: priced(cells[3]),
                        average: priced(cells[4]),
                        change: cells[5],
                        volume: cells[6],
                        best_sales: priced(cells[7]),
                        all_sales: priced(cells[8]),
                    },
                ),
                None => RowMeaning::BadDate,
            },
            _ => RowMeaning::BadDate,
        }
    }
}

pub open spec fn cells_view(cells: Seq<String>) -> Seq<Seq<char>> {
    cells.map_values(|c: String| c@)
}

fn with_suffix(s: &String) -> (r: String)
    ensures
        r@ == priced(s@),
{
    let mut r = s.clone();
    r.append(CURRENCY_SUFFIX);
    r
}

/// The record a row of (trimmed) cells describes: `Ok(None)` for a row that
/// is not a trading day, an error when its date cannot be read.
pub fn record_from_cells(cells: &Vec<String>) -> (r: Result<Option<StockRecord>, RowParseError>)
    ensures
        match row_meaning(cells_view(cells@)) {
            RowMeaning::Skipped => r == Ok::<Option<StockRecord>, RowParseError>(None),
            RowMeaning::BadDate => r == Err::<Option<StockRecord>, RowParseError>(
                RowParseError::BadDate,
            ),
            RowMeaning::Day(v) => r is Ok && r->Ok_0 is Some && r->Ok_0->Some_0@ == v,
        },
{
    let ghost cv = cells_view(cells@);
    if cells.len() < ROW_CELLS || cells[2].as_str().unicode_len() == 0 {
        proof {
            if cells.len() >= ROW_CELLS {
                assert(cv[2] == cells@[2]@);
            }
        }
        return Ok(None);
    }
    assert(cv[0] == cells@[0]@);
    let day = match parse_dmy(cells[0].as_str()) {
        Some(d) => d,
        None => return Err(RowParseError::BadDate),
    };
    let date = match day_text(day, DMY_PATTERN) {
        Some(t) => t,
        None => return Err(RowParseError::BadDate),
    };
    assert(cv[1] == cells@[1]@ && cv[2] == cells@[2]@ && cv[3] == cells@[3]@ && cv[4] == cells@[4]@);
    assert(cv[5] == cells@[5]@ && cv[6] == cells@[6]@ && cv[7] == cells@[7]@ && cv[8] == cells@[8]@);
    let rec = StockRecord {
        date,
        last_transaction: with_suffix(&cells[1]),
        max_value: with_suffix(&cells[2]),
        min_value: with_suffix(&cells[3]),
        average: with_suffix(&cells[4]),
        change: cells[5].clone(),
        volume: cells[6].clone(),
        best_sales: with_suffix(&cells[7]),
        all_sales: with_suffix(&cells[8]),
    };
    Ok(Some(rec))
}

} // verus!
