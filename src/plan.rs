//! Date windows still needed to bring a security's history up to today.
//!
//! A day is a number of days from the common era (January 1 of year 1 is day 1).
//! A window is an inclusive range of days.

use vstd::prelude::*;

verus! {

/// Difference between the last and the first day of a full window: 366 days.
pub const WINDOW_SPAN: i64 = 365;

/// Distance between the ends of two consecutive full-history windows.
pub const HISTORY_STRIDE: i64 = 366;

/// Number of windows walked back from today on a first scrape.
pub const HISTORY_WINDOWS: usize = 10;

/// Largest magnitude of a day number the planner works with.
pub const DAY_LIMIT: i64 = 1000000000;

pub open spec fn in_day_range(d: int) -> bool {
    -DAY_LIMIT <= d <= DAY_LIMIT
}

/// An inclusive range of days.
#[derive(Clone, Copy, Debug, PartialEq, Eq, Structural)]
pub struct Window {
    pub from: i64,
    pub to: i64,
}

impl View for Window {
    type V = (int, int);

    open spec fn view(&self) -> (int, int) {
        (self.from as int, self.to as int)
    }
}

pub open spec fn windows_view(ws: Seq<Window>) -> Seq<(int, int)> {
    ws.map_values(|w: Window| w@)
}

/// `ws` holds exactly the windows `vs`, in order.
pub open spec fn same_windows(ws: Seq<Window>, vs: Seq<(int, int)>) -> bool {
    &&& ws.len() == vs.len()
    &&& forall|i: int| 0 <= i < ws.len() ==> #[trigger] ws[i]@ == vs[i]
}

proof fn lemma_same_windows(ws: Seq<Window>, vs: Seq<(int, int)>)
    requires
        windows_view(ws) == vs,
    ensures
        same_windows(ws, vs),
{
    assert forall|i: int| 0 <= i < ws.len() implies #[trigger] ws[i]@ == vs[i] by {
        assert(windows_view(ws)[i] == ws[i]@);
    }
}

/// The `k`-th window of a full-history walk, counted back from `today`.
pub open spec fn history_window(today: int, k: int) -> (int, int) {
    (today - HISTORY_STRIDE * k - WINDOW_SPAN, today - HISTORY_STRIDE * k)
}

/// The full-history walk: consecutive windows going back from `today`.
pub open spec fn history_windows(today: int) -> Seq<(int, int)> {
    Seq::new(HISTORY_WINDOWS as nat, |k: int| history_window(today, k))
}

/// The forward walk from `from` to `today`, each window at most
/// `WINDOW_SPAN + 1` days long and clamped to `today`.
pub open spec fn forward_windows(from: int, today: int) -> Seq<(int, int)>
    decreases today - from + 1,
{
    if from > today {
        seq![]
    } else {
        let to = if from + WINDOW_SPAN < today { from + WINDOW_SPAN } else { today };
        seq![(from, to)] + forward_windows(to + 1, today)
    }
}

/// The windows of an incremental update after the last stored day `last`.
pub open spec fn update_windows(last: int, today: int) -> Seq<(int, int)> {
    forward_windows(last + 1, today)
}

/// The windows of a first scrape, most recent first.
pub fn history_plan(today: i64) -> (r: Vec<Window>)
    requires
        in_day_range(today as int),
    ensures
        same_windows(r@, history_windows(today as int)),
{
    let mut r: Vec<Window> = Vec::new();
    let mut k: usize = 0;
    while k < HISTORY_WINDOWS
        invariant
            k <= HISTORY_WINDOWS,
            in_day_range(today as int),
            r@.len() == k,
            forall|i: int| 0 <= i < k ==> #[trigger] r@[i]@ == history_window(today as int, i),
        decreases HISTORY_WINDOWS - k,
    {
        let to: i64 = today - HISTORY_STRIDE * (k as i64);
        let w = Window { from: to - WINDOW_SPAN, to };
        r.push(w);
        k = k + 1;
    }
    assert(windows_view(r@) =~= history_windows(today as int));
    proof {
        lemma_same_windows(r@, history_windows(today as int));
    }
    r
}

/// The windows of an incremental update after the last stored day `last`:
/// from the day after `last` up to `today`, oldest first; none when `last`
/// is `today` or later.
pub fn update_plan(last: i64, today: i64) -> (r: Vec<Window>)
    requires
        in_day_range(last as int),
        in_day_range(today as int),
    ensures
        same_windows(r@, update_windows(last as int, today as int)),
        last >= today ==> r@.len() == 0,
{
    let mut r: Vec<Window> = Vec::new();
    let mut from: i64 = last + 1;
    while from <= today
        invariant
            in_day_range(today as int),
            last + 1 <= from <= DAY_LIMIT + 1,
            windows_view(r@) + forward_windows(from as int, today as int)
                == update_windows(last as int, today as int),
        decreases today - from + 1,
    {
        let to: i64 = if from + WINDOW_SPAN < today { from + WINDOW_SPAN } else { today };
        let ghost before = r@;
        r.push(Window { from, to });
        assert(windows_view(r@) =~= windows_view(before).push((from as int, to as int)));
        assert(forward_windows(from as int, today as int) == seq![(from as int, to as int)]
            + forward_windows(to + 1, today as int));
        assert(windows_view(r@) + forward_windows(to + 1, today as int) =~= windows_view(before)
            + forward_windows(from as int, today as int));
        from = to + 1;
    }
    assert(forward_windows(from as int, today as int) == Seq::<(int, int)>::empty());
    assert(windows_view(r@) =~= update_windows(last as int, today as int));
    proof {
        lemma_same_windows(r@, update_windows(last as int, today as int));
    }
    r
}

/// A first scrape walks back from today in ten windows of 366 days each,
/// every window ending the day before the next more recent one begins, the
/// first ending on today.
pub proof fn lemma_history_walk(today: int)
    ensures
        history_windows(today).len() == HISTORY_WINDOWS,
        history_windows(today)[0].1 == today,
        forall|i: int|
            0 <= i < HISTORY_WINDOWS ==> #[trigger] history_windows(today)[i].1
                - history_windows(today)[i].0 + 1 == 366,
        forall|i: int|
            0 < i < HISTORY_WINDOWS ==> #[trigger] history_windows(today)[i].1 + 1
                == history_windows(today)[i - 1].0,
        forall|i: int, j: int|
            0 <= i < j < HISTORY_WINDOWS ==> #[trigger] history_windows(today)[j].1
                < #[trigger] history_windows(today)[i].0,
{
    assert forall|i: int, j: int|
        0 <= i < j < HISTORY_WINDOWS implies #[trigger] history_windows(today)[j].1
        < #[trigger] history_windows(today)[i].0 by {
        assert(HISTORY_STRIDE * j >= HISTORY_STRIDE * (i + 1)) by (nonlinear_arith)
            requires
                i < j,
        ;
    }
}

/// A forward walk that starts no later than `today` is not empty, starts on
/// `from`, ends on `today`, and its windows are contiguous, each at most 366
/// days long and none starting after `today`.
pub proof fn lemma_forward_walk(from: int, today: int)
    requires
        from <= today,
    ensures
        forward_windows(from, today).len() > 0,
        forward_windows(from, today)[0].0 == from,
        forward_windows(from, today).last().1 == today,
        forall|i: int|
            0 <= i < forward_windows(from, today).len() ==> from <= #[trigger] forward_windows(
                from,
                today,
            )[i].0 <= forward_windows(from, today)[i].1 <= today,
        forall|i: int|
            0 <= i < forward_windows(from, today).len() ==> #[trigger] forward_windows(
                from,
                today,
            )[i].1 - forward_windows(from, today)[i].0 + 1 <= 366,
        forall|i: int|
            0 < i < forward_windows(from, today).len() ==> #[trigger] forward_windows(
                from,
                today,
            )[i].0 == forward_windows(from, today)[i - 1].1 + 1,
    decreases today - from,
{
    let to = if from + WINDOW_SPAN < today { from + WINDOW_SPAN } else { today };
    let ws = forward_windows(from, today);
    let rest = forward_windows(to + 1, today);
    assert(ws == seq![(from, to)] + rest);
    if to + 1 <= today {
        lemma_forward_walk(to + 1, today);
        assert forall|i: int| 0 < i < ws.len() implies #[trigger] ws[i].0 == ws[i - 1].1 + 1 by {
            if i > 1 {
                assert(ws[i] == rest[i - 1] && ws[i - 1] == rest[i - 2]);
            }
        }
        assert forall|i: int| 0 <= i < ws.len() implies from <= #[trigger] ws[i].0 <= ws[i].1
            <= today by {
            if i > 0 {
                assert(ws[i] == rest[i - 1]);
            }
        }
        assert forall|i: int| 0 <= i < ws.len() implies #[trigger] ws[i].1 - ws[i].0 + 1
            <= 366 by {
            if i > 0 {
                assert(ws[i] == rest[i - 1]);
            }
        }
        assert(ws.last() == rest.last());
    } else {
        assert(rest.len() == 0);
        assert(ws == seq![(from, to)]);
    }
}

/// An update plan for a last stored day before `today` starts on the day
/// after it and ends on `today`, with no window starting after `today`.
pub proof fn lemma_update_reaches_today(last: int, today: int)
    requires
        last < today,
    ensures
        update_windows(last, today).len() > 0,
        update_windows(last, today)[0].0 == last + 1,
        update_windows(last, today).last().1 == today,
        forall|i: int|
            0 <= i < update_windows(last, today).len() ==> #[trigger] update_windows(
                last,
                today,
            )[i].0 <= today,
{
    lemma_forward_walk(last + 1, today);
}

/// Nothing is planned when the last stored day is `today` or later.
pub proof fn lemma_update_up_to_date(last: int, today: int)
    requires
        last >= today,
    ensures
        update_windows(last, today).len() == 0,
{
}

} // verus!
