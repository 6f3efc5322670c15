use crate::paging::{Cursor, PAGE_SIZE};
use crate::types::{opt_chars, HistoryEntry, LineInput};
use vstd::prelude::*;

verus! {

/// One row of the prompt history table.
pub struct HistoryRow {
    pub line_number: i64,
    pub timestamp_ms: Option<i64>,
    pub project: Option<String>,
    pub session_id: Option<String>,
    pub display: Option<String>,
    pub pasted_contents: Option<String>,
}

/// The mathematical content of a `HistoryRow`.
pub struct HistoryRowModel {
    pub line_number: i64,
    pub timestamp_ms: Option<i64>,
    pub project: Option<Seq<char>>,
    pub session_id: Option<Seq<char>>,
    pub display: Option<Seq<char>>,
    pub pasted_contents: Option<Seq<char>>,
}

impl View for HistoryRow {
    type V = HistoryRowModel;

    open spec fn view(&self) -> HistoryRowModel {
        HistoryRowModel {
            line_number: self.line_number,
            timestamp_ms: self.timestamp_ms,
            project: opt_chars(self.project),
            session_id: opt_chars(self.session_id),
            display: opt_chars(self.display),
            pasted_contents: opt_chars(self.pasted_contents),
        }
    }
}

/// The text that precedes a parser diagnostic in an error row.
pub open spec fn history_error_prefix() -> Seq<char> {
    seq!['P', 'a', 'r', 's', 'e', ' ', 'e', 'r', 'r', 'o', 'r', ':', ' ']
}

/// The rows of one line, numbered `n` within its file.
pub open spec fn history_line_rows(line: LineInput<HistoryEntry>, n: int) -> Seq<HistoryRowModel> {
    match line {
        LineInput::Blank => Seq::empty(),
        LineInput::Parsed(e) => seq![
            HistoryRowModel {
                line_number: n as i64,
                timestamp_ms: e.timestamp,
                project: opt_chars(e.project),
                session_id: opt_chars(e.session_id),
                display: opt_chars(e.display),
                pasted_contents: opt_chars(e.pasted_contents),
            },
        ],
        LineInput::Malformed(d) => seq![
            HistoryRowModel {
                line_number: n as i64,
                timestamp_ms: None,
                project: None,
                session_id: None,
                display: Some(history_error_prefix() + d@),
                pasted_contents: None,
            },
        ],
    }
}

/// The rows of the history log's lines, each numbered by its position from 1.
pub open spec fn history_rows(lines: Seq<LineInput<HistoryEntry>>) -> Seq<HistoryRowModel>
    decreases lines.len(),
{
    if lines.len() == 0 {
        Seq::empty()
    } else {
        history_rows(lines.drop_last()) + history_line_rows(lines.last(), lines.len() as int)
    }
}

pub open spec fn history_row_views(rows: Seq<HistoryRow>) -> Seq<HistoryRowModel> {
    rows.map_values(|r: HistoryRow| r@)
}

/// The row set of one query over the history log, built once at bind time.
pub struct HistoryBindData {
    pub rows: Vec<HistoryRow>,
}

/// The read position of one query into its history row set.
pub struct HistoryInitData {
    pub cursor: Cursor,
}

impl HistoryBindData {
    pub fn new(lines: Vec<LineInput<HistoryEntry>>) -> (b: HistoryBindData)
        requires
            lines@.len() <= i64::MAX,
        ensures
            history_row_views(b.rows@) == history_rows(lines@),
    {
        HistoryBindData { rows: ReadHistoryVTab::load_rows(lines) }
    }

    /// A fresh cursor at the first row.
    pub fn init(&self) -> (i: HistoryInitData)
        ensures
            i.cursor.wf(),
            i.cursor.pos() == 0,
            i.cursor.total() == self.rows@.len(),
            i.cursor.page_size() == PAGE_SIZE,
    {
        HistoryInitData { cursor: Cursor::new(self.rows.len()) }
    }
}

pub struct ReadHistoryVTab;

impl ReadHistoryVTab {
    /// Builds the rows of the history log: blank lines give no row, a line that
    /// did not parse gives a row that holds only its number and the diagnostic.
    pub fn load_rows(lines: Vec<LineInput<HistoryEntry>>) -> (r: Vec<HistoryRow>)
        requires
            lines@.len() <= i64::MAX,
        ensures
            history_row_views(r@) == history_rows(lines@),
    {
        proof {
            reveal_strlit("Parse error: ");
        }
        assert("Parse error: "@ =~= history_error_prefix());
        let ghost all = lines@;
        let mut rows: Vec<HistoryRow> = Vec::new();
        let mut line_no: i64 = 0;
        for line in it: lines.into_iter()
            invariant
                it.seq() == all,
                all.len() <= i64::MAX,
                line_no == it.index(),
                "Parse error: "@ == history_error_prefix(),
                history_row_views(rows@) == history_rows(all.take(it.index() as int)),
        {
            let ghost k = it.index() as int;
            let ghost before = history_row_views(rows@);
            assert(all.take(k + 1).drop_last() =~= all.take(k));
            assert(all.take(k + 1).last() == all[k]);
            line_no = line_no + 1;
            match line {
                LineInput::Blank => {},
                LineInput::Parsed(e) => {
                    let row = HistoryRow {
                        line_number: line_no,
                        timestamp_ms: e.timestamp,
                        project: e.project,
                        session_id: e.session_id,
                        display: e.display,
                        pasted_contents: e.pasted_contents,
                    };
                    rows.push(row);
                    assert(history_row_views(rows@) =~= before.push(row@));
                },
                LineInput::Malformed(d) => {
                    let text = "Parse error: ".to_owned().concat(d.as_str());
                    let row = HistoryRow {
                        line_number: line_no,
                        timestamp_ms: None,
                        project: None,
                        session_id: None,
                        display: Some(text),
                        pasted_contents: None,
                    };
                    rows.push(row);
                    assert(history_row_views(rows@) =~= before.push(row@));
                },
            }
        }
        assert(all.take(all.len() as int) =~= all);
        rows
    }
}

} // verus!
