use crate::conversations::{
    all_rows, event_row, lemma_total_lines_nonneg, line_rows, lines_rows, own_session_id,
    session_key, total_lines, SourceStream,
};
use crate::types::{ConversationMessage, LineInput};
use vstd::prelude::*;

verus! {

/// How many of the lines are not blank.
pub open spec fn nonblank_count(lines: Seq<LineInput<ConversationMessage>>) -> nat
    decreases lines.len(),
{
    if lines.len() == 0 {
        0
    } else {
        nonblank_count(lines.drop_last()) + match lines.last() {
            LineInput::Blank => 0nat,
            _ => 1nat,
        }
    }
}

/// Every line that is not blank yields exactly one row, parsed or not, and a
/// blank line none; yet every line, blank or not, advances the line counter:
/// the row of the line at index `j` carries the number `base + j + 1`.
pub proof fn lemma_row_count_parity(
    lines: Seq<LineInput<ConversationMessage>>,
    project_path: Seq<char>,
    file_name: Seq<char>,
    is_agent: bool,
    fallback: Seq<char>,
    base: int,
)
    requires
        0 <= base,
        base + lines.len() <= i64::MAX,
    ensures
        lines_rows(lines, project_path, file_name, is_agent, fallback, base).len()
            == nonblank_count(lines),
        forall|j: int|
            0 <= j < lines.len() && !(#[trigger] lines[j] is Blank) ==> lines_rows(
                lines,
                project_path,
                file_name,
                is_agent,
                fallback,
                base,
            )[nonblank_count(lines.take(j)) as int].line_number == base + j + 1,
    decreases lines.len(),
{
    if lines.len() > 0 {
        let prefix = lines.drop_last();
        let last = lines.last();
        let n = base + lines.len();
        lemma_row_count_parity(prefix, project_path, file_name, is_agent, fallback, base);
        lemma_line_rows_shape(last, project_path, file_name, is_agent, fallback, n);
        let rows = lines_rows(lines, project_path, file_name, is_agent, fallback, base);
        let head = lines_rows(prefix, project_path, file_name, is_agent, fallback, base);
        assert(rows == head + line_rows(last, project_path, file_name, is_agent, fallback, n));
        assert forall|j: int|
            0 <= j < lines.len() && !(#[trigger] lines[j] is Blank) implies rows[nonblank_count(
                lines.take(j),
            ) as int].line_number == base + j + 1 by {
            if j < lines.len() - 1 {
                assert(lines.take(j) =~= prefix.take(j));
                assert(prefix[j] == lines[j]);
                assert(prefix.take(j + 1).drop_last() =~= prefix.take(j));
                lemma_nonblank_prefix(prefix, j + 1);
                assert(rows[nonblank_count(lines.take(j)) as int] == head[nonblank_count(
                    prefix.take(j),
                ) as int]);
            } else {
                assert(lines.take(j) =~= prefix);
            }
        }
    }
}

proof fn lemma_nonblank_prefix(lines: Seq<LineInput<ConversationMessage>>, i: int)
    requires
        0 <= i <= lines.len(),
    ensures
        nonblank_count(lines.take(i)) <= nonblank_count(lines),
    decreases lines.len(),
{
    if i == lines.len() {
        assert(lines.take(i) =~= lines);
    } else {
        assert(lines.drop_last().take(i) =~= lines.take(i));
        lemma_nonblank_prefix(lines.drop_last(), i);
    }
}

/// A line yields no row when blank and one row numbered `n` otherwise.
proof fn lemma_line_rows_shape(
    line: LineInput<ConversationMessage>,
    project_path: Seq<char>,
    file_name: Seq<char>,
    is_agent: bool,
    fallback: Seq<char>,
    n: int,
)
    requires
        0 < n <= i64::MAX,
    ensures
        line_rows(line, project_path, file_name, is_agent, fallback, n).len() == if line is Blank {
            0int
        } else {
            1int
        },
        !(line is Blank) ==> line_rows(line, project_path, file_name, is_agent, fallback, n)[0].line_number
            == n,
{
    if let LineInput::Parsed(m) = line {
        lemma_event_row_line(m, project_path, file_name, is_agent, fallback, n as i64);
    }
}

proof fn lemma_event_row_line(
    msg: ConversationMessage,
    project_path: Seq<char>,
    file_name: Seq<char>,
    is_agent: bool,
    fallback: Seq<char>,
    line_number: i64,
)
    ensures
        event_row(msg, project_path, file_name, is_agent, fallback, line_number).line_number
            == line_number,
{
}

/// An event's own session id is preferred to the one derived from its file:
/// whatever the fallback, the row carries the event's own id when it has one,
/// and the fallback only when it has none.
pub proof fn lemma_own_session_preferred(
    msg: ConversationMessage,
    project_path: Seq<char>,
    file_name: Seq<char>,
    is_agent: bool,
    fallback: Seq<char>,
    line_number: i64,
)
    ensures
        match own_session_id(msg) {
            Some(s) => event_row(msg, project_path, file_name, is_agent, fallback, line_number).session_id
                == s@,
            None => event_row(msg, project_path, file_name, is_agent, fallback, line_number).session_id
                == fallback,
        },
{
}

/// Line numbers within one stream lie after `base`, within its lines, and increase.
proof fn lemma_stream_numbers(
    lines: Seq<LineInput<ConversationMessage>>,
    project_path: Seq<char>,
    file_name: Seq<char>,
    is_agent: bool,
    fallback: Seq<char>,
    base: int,
)
    requires
        0 <= base,
        base + lines.len() <= i64::MAX,
    ensures
        ({
            let rows = lines_rows(lines, project_path, file_name, is_agent, fallback, base);
            &&& forall|i: int|
                0 <= i < rows.len() ==> base < #[trigger] rows[i].line_number <= base + lines.len()
            &&& forall|i: int, j: int|
                0 <= i < j < rows.len() ==> #[trigger] rows[i].line_number
                    < #[trigger] rows[j].line_number
        }),
    decreases lines.len(),
{
    if lines.len() > 0 {
        lemma_stream_numbers(lines.drop_last(), project_path, file_name, is_agent, fallback, base);
        lemma_line_rows_shape(lines.last(), project_path, file_name, is_agent, fallback, base + lines.len());
    }
}

/// Line numbers over all streams are positive, within the line count, and
/// strictly increase in row order, so no two rows share one.
pub proof fn lemma_line_numbers_increase(ss: Seq<SourceStream>)
    requires
        total_lines(ss) <= i64::MAX,
    ensures
        forall|i: int|
            0 <= i < all_rows(ss).len() ==> 0 < #[trigger] all_rows(ss)[i].line_number <= total_lines(ss),
        forall|i: int, j: int|
            0 <= i < j < all_rows(ss).len() ==> #[trigger] all_rows(ss)[i].line_number
                < #[trigger] all_rows(ss)[j].line_number,
    decreases ss.len(),
{
    if ss.len() > 0 {
        let prefix = ss.drop_last();
        let s = ss.last();
        lemma_total_lines_nonneg(prefix);
        lemma_line_numbers_increase(prefix);
        match s.lines {
            Ok(v) => {
                lemma_stream_numbers(
                    v@,
                    s.project_path@,
                    s.file_name@,
                    s.is_agent,
                    session_key(s.file_name@),
                    total_lines(prefix),
                );
            },
            Err(_) => {},
        }
        let a = all_rows(prefix);
        let all = all_rows(ss);
        assert forall|i: int, j: int|
            0 <= i < j < all.len() implies #[trigger] all[i].line_number
            < #[trigger] all[j].line_number by {
            if j >= a.len() && i < a.len() {
                assert(all[i] == a[i]);
            }
        }
    }
}

} // verus!
