//! Reconciliation of one security: what is stored decides between a full
//! history scrape and an incremental update; each planned window is fetched in
//! turn, a failed window adds nothing and does not stop the others; the rows
//! fetched go ahead of the stored ones.

use vstd::prelude::*;
use crate::date::{dmy_day_of, parse_dmy};
use crate::plan::{
    lemma_history_walk, DAY_LIMIT, HISTORY_WINDOWS, history_plan, history_windows, in_day_range, update_plan, update_windows, same_windows,
    Window,
};
use crate::page::{page_records, parse_history_page, records_view, table_cells_of};
use crate::record::StockRecord;

verus! {

/// What the store holds for one security.
pub enum StoredEntry {
    /// Never seen before.
    Absent,
    /// Stored, with no record.
    Empty,
    /// Stored records, most recent first.
    Records(Vec<StockRecord>),
    /// An older form that kept only the day of the last record.
    LegacyDateMarker(i64),
    /// A stored value of no known shape.
    Malformed,
}

/// Why the page of one window could not be had.
#[derive(Clone, Copy, Debug, PartialEq, Eq, Structural)]
pub enum FetchError {
    /// The request failed or the answer was not a success.
    Transport,
    /// A row's date could not be read.
    BadRow,
}

/// The result of fetching one window, given the page text, or `None` when the
/// page could not be had: its records, or why there are none.
pub fn window_result(page: Option<&str>) -> (r: Result<Vec<StockRecord>, FetchError>)
    ensures
        match page {
            None => r == Err::<Vec<StockRecord>, FetchError>(FetchError::Transport),
            Some(html) => match page_records(table_cells_of(html@)) {
                None => r == Err::<Vec<StockRecord>, FetchError>(FetchError::BadRow),
                Some(v) => r is Ok && records_view(r->Ok_0@) == v,
            },
        },
{
    match page {
        None => Err(FetchError::Transport),
        Some(html) => match parse_history_page(html) {
            Ok(rows) => Ok(rows),
            Err(_) => Err(FetchError::BadRow),
        },
    }
}

/// What becomes of a security's stored entry.
pub enum Outcome {
    /// Nothing new: the entry stays as it was.
    Unchanged,
    /// The collection to store in its place.
    Store(Vec<StockRecord>),
}

/// The last stored day, when the entry gives one that can be read; `None`
/// calls for a full history scrape.
pub open spec fn last_known(entry: StoredEntry) -> Option<int> {
    match entry {
        StoredEntry::Records(v) => if v@.len() > 0 {
            match dmy_day_of(v@[0].date@) {
                Some(d) => if in_day_range(d) { Some(d) } else { None },
                None => None,
            }
        } else {
            None
        },
        StoredEntry::LegacyDateMarker(d) => if in_day_range(d as int) { Some(d as int) } else { None },
        _ => None,
    }
}

/// The stored records that an update keeps behind the new ones.
pub open spec fn kept_records(entry: StoredEntry) -> Seq<StockRecord> {
    match entry {
        StoredEntry::Records(v) => if last_known(entry) is Some { v@ } else { seq![] },
        _ => seq![],
    }
}

/// The windows to fetch for `entry`.
pub open spec fn planned_windows(entry: StoredEntry, today: int) -> Seq<(int, int)> {
    match last_known(entry) {
        Some(d) => update_windows(d, today),
        None => history_windows(today),
    }
}

/// The state of the reconciliation of one security.
pub struct Reconciliation {
    /// The windows to fetch, in the order they are fetched.
    pub windows: Vec<Window>,
    /// How many of them have been fetched or given up.
    pub next: usize,
    /// The rows fetched so far, most recent window first.
    pub fetched: Vec<StockRecord>,
    /// The stored rows that stay behind the fetched ones.
    pub existing: Vec<StockRecord>,
    /// Whether this is an incremental update, whose windows go forward in
    /// time; a full history scrape walks back.
    pub incremental: bool,
}

impl Reconciliation {
    pub open spec fn wf(&self) -> bool {
        self.next <= self.windows@.len()
    }

    /// Starts the reconciliation of a security whose store holds `entry`.
    pub fn begin(entry: StoredEntry, today: i64) -> (r: Reconciliation)
        requires
            in_day_range(today as int),
        ensures
            r.wf(),
            r.next == 0,
            r.fetched@.len() == 0,
            r.incremental == last_known(entry) is Some,
            same_windows(r.windows@, planned_windows(entry, today as int)),
            r.existing@ == kept_records(entry),
    {
        let last: Option<i64> = match &entry {
            StoredEntry::Records(v) => {
                if v.len() > 0 {
                    match parse_dmy(v[0].date.as_str()) {
                        Some(d) => Some(d as i64),
                        None => None,
                    }
                } else {
                    None
                }
            },
            StoredEntry::LegacyDateMarker(d) => Some(*d),
            _ => None,
        };
        let last: Option<i64> = match last {
            Some(d) => if -DAY_LIMIT <= d && d <= DAY_LIMIT { Some(d) } else { None },
            None => None,
        };
        assert(match last {
            Some(d) => last_known(entry) == Some(d as int),
            None => last_known(entry) is None,
        });
        match last {
            Some(d) => {
                let existing = match entry {
                    StoredEntry::Records(v) => v,
                    _ => Vec::new(),
                };
                Reconciliation {
                    windows: update_plan(d, today),
                    next: 0,
                    fetched: Vec::new(),
                    existing,
                    incremental: true,
                }
            },
            None => Reconciliation {
                windows: history_plan(today),
                next: 0,
                fetched: Vec::new(),
                existing: Vec::new(),
                incremental: false,
            },
        }
    }

    /// The next window to fetch, if any is left.
    pub fn next_window(&self) -> (r: Option<Window>)
        requires
            self.wf(),
        ensures
            match r {
                Some(w) => self.next < self.windows@.len() && w == self.windows@[self.next as int],
                None => self.next == self.windows@.len(),
            },
    {
        if self.next < self.windows.len() {
            Some(self.windows[self.next])
        } else {
            None
        }
    }

    /// Takes in the result of fetching the next window. Its rows are added
    /// on the side of the more recent rows; a failed fetch adds none. Either
    /// way the reconciliation moves on to the following window.
    pub fn record_fetch(&mut self, result: Result<Vec<StockRecord>, FetchError>)
        requires
            old(self).wf(),
            old(self).next < old(self).windows@.len(),
        ensures
            final(self).wf(),
            final(self).next == old(self).next + 1,
            final(self).windows@ == old(self).windows@,
            final(self).existing@ == old(self).existing@,
            final(self).incremental == old(self).incremental,
            final(self).fetched@ == match result {
                Ok(rows) => if old(self).incremental {
                    rows@ + old(self).fetched@
                } else {
                    old(self).fetched@ + rows@
                },
                Err(_) => old(self).fetched@,
            },
    {
        let planned = self.windows.len();
        assert(self.next < planned);
        let done = self.next + 1;
        match result {
            Ok(rows) => {
                let mut rows = rows;
                if self.incremental {
                    std::mem::swap(&mut rows, &mut self.fetched);
                    self.fetched.append(&mut rows);
                } else {
                    self.fetched.append(&mut rows);
                }
            },
            Err(_) => {},
        }
        self.next = done;
    }

    /// The outcome: the fetched rows ahead of the stored ones, or no change
    /// when nothing was fetched.
    pub fn finish(self) -> (r: Outcome)
        requires
            self.wf(),
        ensures
            match r {
                Outcome::Unchanged => self.fetched@.len() == 0,
                Outcome::Store(v) => self.fetched@.len() > 0 && v@ == self.fetched@
                    + self.existing@,
            },
    {
        if self.fetched.len() == 0 {
            return Outcome::Unchanged;
        }
        let mut rows = self.fetched;
        let mut existing = self.existing;
        rows.append(&mut existing);
        Outcome::Store(rows)
    }
}

/// A security with no usable record (absent, empty or malformed) is planned
/// the full history walk: ten windows of 366 days, the first ending on
/// `today`, each ending the day before the next more recent one begins.
pub proof fn lemma_no_record_plans_history(entry: StoredEntry, today: int)
    requires
        entry is Absent || entry is Empty || entry is Malformed,
    ensures
        planned_windows(entry, today) == history_windows(today),
        planned_windows(entry, today).len() == HISTORY_WINDOWS,
        planned_windows(entry, today)[0].1 == today,
        forall|i: int|
            0 <= i < HISTORY_WINDOWS ==> #[trigger] planned_windows(entry, today)[i].1
                - planned_windows(entry, today)[i].0 + 1 == 366,
        forall|i: int, j: int|
            0 <= i < j < HISTORY_WINDOWS ==> #[trigger] planned_windows(entry, today)[j].1
                < #[trigger] planned_windows(entry, today)[i].0,
{
    lemma_history_walk(today);
}

/// A security whose last stored day is `today` or later is planned no window,
/// so nothing is fetched for it.
pub proof fn lemma_up_to_date_plans_nothing(entry: StoredEntry, today: int)
    requires
        last_known(entry) is Some,
        last_known(entry)->Some_0 >= today,
    ensures
        planned_windows(entry, today).len() == 0,
{
}

} // verus!
