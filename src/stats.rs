use crate::paging::{Cursor, PAGE_SIZE};
use crate::types::{DailyStats, StatsCache};
use vstd::prelude::*;

verus! {

/// One row of the daily activity table.
pub struct StatsRow {
    pub date: String,
    pub message_count: i64,
    pub session_count: i64,
    pub tool_call_count: i64,
}

/// A count, or zero when the record leaves it out.
pub open spec fn count_or_zero(c: Option<i64>) -> i64 {
    match c {
        Some(n) => n,
        None => 0,
    }
}

/// A date, or the empty text when the record leaves it out.
pub open spec fn date_or_empty(d: Option<String>) -> Seq<char> {
    match d {
        Some(s) => s@,
        None => Seq::empty(),
    }
}

/// Whether `row` is the row of the day `day`.
pub open spec fn is_day_row(row: StatsRow, day: DailyStats) -> bool {
    &&& row.date@ == date_or_empty(day.date)
    &&& row.message_count == count_or_zero(day.message_count)
    &&& row.session_count == count_or_zero(day.session_count)
    &&& row.tool_call_count == count_or_zero(day.tool_call_count)
}

/// The days that a stats cache records; none when there is no cache.
pub open spec fn recorded_days(cache: Option<StatsCache>) -> Seq<DailyStats> {
    match cache {
        Some(c) => match c.daily_activity {
            Some(days) => days@,
            None => Seq::empty(),
        },
        None => Seq::empty(),
    }
}

/// The row set of one query over the stats cache, built once at bind time.
pub struct StatsBindData {
    pub rows: Vec<StatsRow>,
}

/// The read position of one query into its stats row set.
pub struct StatsInitData {
    pub cursor: Cursor,
}

impl StatsBindData {
    pub fn new(cache: Option<StatsCache>) -> (b: StatsBindData)
        ensures
            b.rows@.len() == recorded_days(cache).len(),
            forall|i: int|
                0 <= i < b.rows@.len() ==> is_day_row(#[trigger] b.rows@[i], recorded_days(cache)[i]),
    {
        StatsBindData { rows: ReadStatsVTab::load_rows(cache) }
    }

    /// A fresh cursor at the first row.
    pub fn init(&self) -> (i: StatsInitData)
        ensures
            i.cursor.wf(),
            i.cursor.pos() == 0,
            i.cursor.total() == self.rows@.len(),
            i.cursor.page_size() == PAGE_SIZE,
    {
        StatsInitData { cursor: Cursor::new(self.rows.len()) }
    }
}

pub struct ReadStatsVTab;

impl ReadStatsVTab {
    /// One row per recorded day, in order; an absent date reads as empty and
    /// an absent count as zero. A missing or unreadable cache gives no rows.
    pub fn load_rows(cache: Option<StatsCache>) -> (r: Vec<StatsRow>)
        ensures
            r@.len() == recorded_days(cache).len(),
            forall|i: int|
                0 <= i < r@.len() ==> is_day_row(#[trigger] r@[i], recorded_days(cache)[i]),
    {
        let mut rows: Vec<StatsRow> = Vec::new();
        if let Some(c) = cache {
            if let Some(days) = c.daily_activity {
                let ghost all = days@;
                for day in it: days.into_iter()
                    invariant
                        it.seq() == all,
                        rows@.len() == it.index(),
                        forall|i: int| 0 <= i < rows@.len() ==> is_day_row(#[trigger] rows@[i], all[i]),
                {
                    let date = match day.date {
                        Some(d) => d,
                        None => String::new(),
                    };
                    let row = StatsRow {
                        date,
                        message_count: match day.message_count {
                            Some(n) => n,
                            None => 0,
                        },
                        session_count: match day.session_count {
                            Some(n) => n,
                            None => 0,
                        },
                        tool_call_count: match day.tool_call_count {
                            Some(n) => n,
                            None => 0,
                        },
                    };
                    rows.push(row);
                }
            }
        }
        rows
    }
}

} // verus!
