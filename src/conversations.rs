use crate::paging::{Cursor, PAGE_SIZE};
use crate::text::{block_texts, content_text, extract_text_content, join_lines, join_text_blocks};
use crate::types::{
    opt_chars, AssistantMessageContent, BaseFields, ContentBlock, ConversationMessage, LineInput,
    StreamError, UsageInfo,
};
use vstd::prelude::*;
use vstd::string::*;

verus! {

/// The message type given to the row of a line that did not parse.
pub open spec fn parse_error_tag() -> Seq<char> {
    seq!['_', 'p', 'a', 'r', 's', 'e', '_', 'e', 'r', 'r', 'o', 'r']
}

/// The text that precedes a parser diagnostic in an error row.
pub open spec fn parse_error_prefix() -> Seq<char> {
    seq!['P', 'a', 'r', 's', 'e', ' ', 'e', 'r', 'r', 'o', 'r', ':', ' ']
}

/// A flattened conversation event: the same columns whatever the event's kind.
pub struct ConversationRow {
    pub session_id: String,
    pub project_path: String,
    pub file_name: String,
    pub is_agent: bool,
    pub line_number: i64,
    pub message_type: String,
    pub uuid: Option<String>,
    pub parent_uuid: Option<String>,
    pub timestamp: Option<String>,
    pub message_role: Option<String>,
    pub message_content: Option<String>,
    pub model: Option<String>,
    pub tool_name: Option<String>,
    pub tool_use_id: Option<String>,
    pub tool_input: Option<String>,
    pub input_tokens: Option<i64>,
    pub output_tokens: Option<i64>,
    pub cache_creation_tokens: Option<i64>,
    pub cache_read_tokens: Option<i64>,
    pub slug: Option<String>,
    pub git_branch: Option<String>,
    pub cwd: Option<String>,
    pub version: Option<String>,
    pub stop_reason: Option<String>,
}

/// The mathematical content of a `ConversationRow`.
pub struct RowModel {
    pub session_id: Seq<char>,
    pub project_path: Seq<char>,
    pub file_name: Seq<char>,
    pub is_agent: bool,
    pub line_number: i64,
    pub message_type: Seq<char>,
    pub uuid: Option<Seq<char>>,
    pub parent_uuid: Option<Seq<char>>,
    pub timestamp: Option<Seq<char>>,
    pub message_role: Option<Seq<char>>,
    pub message_content: Option<Seq<char>>,
    pub model: Option<Seq<char>>,
    pub tool_name: Option<Seq<char>>,
    pub tool_use_id: Option<Seq<char>>,
    pub tool_input: Option<Seq<char>>,
    pub input_tokens: Option<i64>,
    pub output_tokens: Option<i64>,
    pub cache_creation_tokens: Option<i64>,
    pub cache_read_tokens: Option<i64>,
    pub slug: Option<Seq<char>>,
    pub git_branch: Option<Seq<char>>,
    pub cwd: Option<Seq<char>>,
    pub version: Option<Seq<char>>,
    pub stop_reason: Option<Seq<char>>,
}

impl View for ConversationRow {
    type V = RowModel;

    open spec fn view(&self) -> RowModel {
        RowModel {
            session_id: self.session_id@,
            project_path: self.project_path@,
            file_name: self.file_name@,
            is_agent: self.is_agent,
            line_number: self.line_number,
            message_type: self.message_type@,
            uuid: opt_chars(self.uuid),
            parent_uuid: opt_chars(self.parent_uuid),
            timestamp: opt_chars(self.timestamp),
            message_role: opt_chars(self.message_role),
            message_content: opt_chars(self.message_content),
            model: opt_chars(self.model),
            tool_name: opt_chars(self.tool_name),
            tool_use_id: opt_chars(self.tool_use_id),
            tool_input: opt_chars(self.tool_input),
            input_tokens: self.input_tokens,
            output_tokens: self.output_tokens,
            cache_creation_tokens: self.cache_creation_tokens,
            cache_read_tokens: self.cache_read_tokens,
            slug: opt_chars(self.slug),
            git_branch: opt_chars(self.git_branch),
            cwd: opt_chars(self.cwd),
            version: opt_chars(self.version),
            stop_reason: opt_chars(self.stop_reason),
        }
    }
}

/// A row with the given position, kind and session, and every other column absent.
pub open spec fn bare_row(
    project_path: Seq<char>,
    file_name: Seq<char>,
    is_agent: bool,
    line_number: i64,
    message_type: Seq<char>,
    session_id: Seq<char>,
) -> RowModel {
    RowModel {
        session_id,
        project_path,
        file_name,
        is_agent,
        line_number,
        message_type,
        uuid: None,
        parent_uuid: None,
        timestamp: None,
        message_role: None,
        message_content: None,
        model: None,
        tool_name: None,
        tool_use_id: None,
        tool_input: None,
        input_tokens: None,
        output_tokens: None,
        cache_creation_tokens: None,
        cache_read_tokens: None,
        slug: None,
        git_branch: None,
        cwd: None,
        version: None,
        stop_reason: None,
    }
}

/// `row` with the identity and context columns taken from `base`.
pub open spec fn with_base(row: RowModel, base: BaseFields) -> RowModel {
    RowModel {
        uuid: opt_chars(base.uuid),
        parent_uuid: opt_chars(base.parent_uuid),
        timestamp: opt_chars(base.timestamp),
        slug: opt_chars(base.slug),
        git_branch: opt_chars(base.git_branch),
        cwd: opt_chars(base.cwd),
        version: opt_chars(base.version),
        ..row
    }
}

/// The event's own session id, or else the fallback.
pub open spec fn session_or(own: Option<String>, fallback: Seq<char>) -> Seq<char> {
    match own {
        Some(s) => s@,
        None => fallback,
    }
}

/// The session id that an event carries itself, for the kinds that carry one.
pub open spec fn own_session_id(msg: ConversationMessage) -> Option<String> {
    match msg {
        ConversationMessage::User(u) => u.base.session_id,
        ConversationMessage::Assistant(a) => a.base.session_id,
        ConversationMessage::System(s) => s.base.session_id,
        ConversationMessage::QueueOperation(q) => q.session_id,
        _ => None,
    }
}

/// Name, id and serialized input of the first `ToolUse` block, if there is one.
pub open spec fn first_tool_use(blocks: Seq<ContentBlock>) -> Option<
    (Option<Seq<char>>, Option<Seq<char>>, Option<Seq<char>>),
>
    decreases blocks.len(),
{
    if blocks.len() == 0 {
        None
    } else {
        match blocks[0] {
            ContentBlock::ToolUse { id, name, input } => Some(
                (opt_chars(name), opt_chars(id), opt_chars(input)),
            ),
            _ => first_tool_use(blocks.drop_first()),
        }
    }
}

/// The row of an assistant turn, before its identity columns are filled in.
pub open spec fn assistant_columns(row: RowModel, msg: AssistantMessageContent) -> RowModel {
    let tool = match msg.content {
        Some(blocks) => first_tool_use(blocks@),
        None => None,
    };
    let usage = msg.usage;
    RowModel {
        message_content: match msg.content {
            Some(blocks) => Some(join_lines(block_texts(blocks@))),
            None => None,
        },
        model: opt_chars(msg.model),
        tool_name: match tool {
            Some(t) => t.0,
            None => None,
        },
        tool_use_id: match tool {
            Some(t) => t.1,
            None => None,
        },
        tool_input: match tool {
            Some(t) => t.2,
            None => None,
        },
        input_tokens: match usage {
            Some(u) => u.input_tokens,
            None => None,
        },
        output_tokens: match usage {
            Some(u) => u.output_tokens,
            None => None,
        },
        cache_creation_tokens: match usage {
            Some(u) => u.cache_creation_input_tokens,
            None => None,
        },
        cache_read_tokens: match usage {
            Some(u) => u.cache_read_input_tokens,
            None => None,
        },
        stop_reason: opt_chars(msg.stop_reason),
        ..row
    }
}

/// The row that one parsed event becomes.
pub open spec fn event_row(
    msg: ConversationMessage,
    project_path: Seq<char>,
    file_name: Seq<char>,
    is_agent: bool,
    fallback: Seq<char>,
    line_number: i64,
) -> RowModel {
    let bare = |tag: Seq<char>, sid: Seq<char>|
        bare_row(project_path, file_name, is_agent, line_number, tag, sid);
    match msg {
        ConversationMessage::User(u) => {
            let row = with_base(bare("user"@, session_or(u.base.session_id, fallback)), u.base);
            RowModel {
                message_role: Some("user"@),
                message_content: match u.message {
                    Some(m) => match m.content {
                        Some(c) => Some(content_text(c)),
                        None => None,
                    },
                    None => None,
                },
                ..row
            }
        },
        ConversationMessage::Assistant(a) => {
            let row = with_base(
                bare("assistant"@, session_or(a.base.session_id, fallback)),
                a.base,
            );
            let row = RowModel { message_role: Some("assistant"@), ..row };
            match a.message {
                Some(m) => assistant_columns(row, m),
                None => row,
            }
        },
        ConversationMessage::System(s) => {
            let row = with_base(bare("system"@, session_or(s.base.session_id, fallback)), s.base);
            RowModel {
                message_content: match s.content {
                    Some(c) => Some(content_text(c)),
                    None => None,
                },
                ..row
            }
        },
        ConversationMessage::Summary(s) => RowModel {
            message_content: opt_chars(s.summary),
            ..bare("summary"@, fallback)
        },
        ConversationMessage::FileHistorySnapshot(_) => bare("file-history-snapshot"@, fallback),
        ConversationMessage::QueueOperation(q) => RowModel {
            timestamp: opt_chars(q.timestamp),
            message_content: opt_chars(q.content),
            ..bare("queue-operation"@, session_or(q.session_id, fallback))
        },
    }
}

/// The row that stands for a line that did not parse.
pub open spec fn error_row_model(
    diagnostic: Seq<char>,
    project_path: Seq<char>,
    file_name: Seq<char>,
    is_agent: bool,
    fallback: Seq<char>,
    line_number: i64,
) -> RowModel {
    RowModel {
        message_content: Some(parse_error_prefix() + diagnostic),
        ..bare_row(project_path, file_name, is_agent, line_number, parse_error_tag(), fallback)
    }
}

fn clone_opt(o: &Option<String>) -> (r: Option<String>)
    ensures
        r == *o,
{
    match o {
        Some(s) => Some(s.clone()),
        None => None,
    }
}

fn new_row(
    project_path: &str,
    file_name: &str,
    is_agent: bool,
    line_number: i64,
    message_type: &str,
    session_id: String,
) -> (r: ConversationRow)
    ensures
        r@ == bare_row(project_path@, file_name@, is_agent, line_number, message_type@, session_id@),
{
    ConversationRow {
        session_id,
        project_path: project_path.to_owned(),
        file_name: file_name.to_owned(),
        is_agent,
        line_number,
        message_type: message_type.to_owned(),
        uuid: None,
        parent_uuid: None,
        timestamp: None,
        message_role: None,
        message_content: None,
        model: None,
        tool_name: None,
        tool_use_id: None,
        tool_input: None,
        input_tokens: None,
        output_tokens: None,
        cache_creation_tokens: None,
        cache_read_tokens: None,
        slug: None,
        git_branch: None,
        cwd: None,
        version: None,
        stop_reason: None,
    }
}

fn session_of(own: Option<String>, fallback: &str) -> (r: String)
    ensures
        r@ == session_or(own, fallback@),
{
    match own {
        Some(s) => s,
        None => fallback.to_owned(),
    }
}

fn fill_base(row: &mut ConversationRow, base: BaseFields)
    ensures
        final(row)@ == with_base(old(row)@, base),
{
    row.uuid = base.uuid;
    row.parent_uuid = base.parent_uuid;
    row.timestamp = base.timestamp;
    row.slug = base.slug;
    row.git_branch = base.git_branch;
    row.cwd = base.cwd;
    row.version = base.version;
}

/// Name, id and serialized input of the first `ToolUse` block.
fn find_first_tool_use(blocks: &Vec<ContentBlock>) -> (r: Option<
    (Option<String>, Option<String>, Option<String>),
>)
    ensures
        match r {
            Some(t) => first_tool_use(blocks@) == Some(
                (opt_chars(t.0), opt_chars(t.1), opt_chars(t.2)),
            ),
            None => first_tool_use(blocks@) is None,
        },
{
    let mut i: usize = 0;
    assert(blocks@.subrange(0, blocks@.len() as int) =~= blocks@);
    while i < blocks.len()
        invariant
            i <= blocks@.len(),
            first_tool_use(blocks@) == first_tool_use(blocks@.subrange(i as int, blocks@.len() as int)),
        decreases blocks@.len() - i,
    {
        let ghost rest = blocks@.subrange(i as int, blocks@.len() as int);
        assert(rest[0] == blocks@[i as int]);
        assert(rest.drop_first() =~= blocks@.subrange(i as int + 1, blocks@.len() as int));
        if let ContentBlock::ToolUse { id, name, input } = &blocks[i] {
            return Some((clone_opt(name), clone_opt(id), clone_opt(input)));
        }
        i = i + 1;
    }
    None
}

fn usage_columns(row: &mut ConversationRow, usage: &Option<UsageInfo>)
    ensures
        final(row)@ == (RowModel {
            input_tokens: match *usage {
                Some(u) => u.input_tokens,
                None => None,
            },
            output_tokens: match *usage {
                Some(u) => u.output_tokens,
                None => None,
            },
            cache_creation_tokens: match *usage {
                Some(u) => u.cache_creation_input_tokens,
                None => None,
            },
            cache_read_tokens: match *usage {
                Some(u) => u.cache_read_input_tokens,
                None => None,
            },
            ..old(row)@
        }),
{
    if let Some(u) = usage {
        row.input_tokens = u.input_tokens;
        row.output_tokens = u.output_tokens;
        row.cache_creation_tokens = u.cache_creation_input_tokens;
        row.cache_read_tokens = u.cache_read_input_tokens;
    } else {
        row.input_tokens = None;
        row.output_tokens = None;
        row.cache_creation_tokens = None;
        row.cache_read_tokens = None;
    }
}

/// The file name without a trailing `.jsonl` extension: the session a log file
/// stands for when its records do not name one.
pub open spec fn session_key(name: Seq<char>) -> Seq<char> {
    if name.len() >= 6 && name.subrange(name.len() - 6, name.len() as int) == ".jsonl"@ {
        name.subrange(0, name.len() - 6)
    } else {
        name
    }
}

/// The fallback session id of a log file, derived from its name.
pub fn extract_session_id_from_filename(name: &str) -> (r: String)
    ensures
        r@ == session_key(name@),
{
    let n = name.unicode_len();
    if n >= 6 {
        let tail = name.substring_char(n - 6, n).to_owned();
        let ext = ".jsonl".to_owned();
        if tail == ext {
            return name.substring_char(0, n - 6).to_owned();
        }
    }
    name.to_owned()
}

/// One input log as discovery found it: its project, its file name, whether an
/// agent wrote it, and its lines, or why it could not be read.
pub struct SourceStream {
    pub project_path: String,
    pub file_name: String,
    pub is_agent: bool,
    pub lines: Result<Vec<LineInput<ConversationMessage>>, StreamError>,
}

/// The rows of one line, whose global line number is `n`.
pub open spec fn line_rows(
    line: LineInput<ConversationMessage>,
    project_path: Seq<char>,
    file_name: Seq<char>,
    is_agent: bool,
    fallback: Seq<char>,
    n: int,
) -> Seq<RowModel> {
    match line {
        LineInput::Blank => Seq::empty(),
        LineInput::Parsed(m) => seq![event_row(m, project_path, file_name, is_agent, fallback, n as i64)],
        LineInput::Malformed(d) => seq![error_row_model(d@, project_path, file_name, is_agent, fallback, n as i64)],
    }
}

/// The rows of a sequence of lines whose first line has global number `base + 1`.
pub open spec fn lines_rows(
    lines: Seq<LineInput<ConversationMessage>>,
    project_path: Seq<char>,
    file_name: Seq<char>,
    is_agent: bool,
    fallback: Seq<char>,
    base: int,
) -> Seq<RowModel>
    decreases lines.len(),
{
    if lines.len() == 0 {
        Seq::empty()
    } else {
        lines_rows(lines.drop_last(), project_path, file_name, is_agent, fallback, base)
            + line_rows(lines.last(), project_path, file_name, is_agent, fallback, base + lines.len())
    }
}

/// How many physical lines a stream contributes to the global count.
pub open spec fn line_count(s: SourceStream) -> int {
    match s.lines {
        Ok(v) => v@.len() as int,
        Err(_) => 0,
    }
}

/// The physical lines of all the streams together.
pub open spec fn total_lines(ss: Seq<SourceStream>) -> int
    decreases ss.len(),
{
    if ss.len() == 0 {
        0
    } else {
        total_lines(ss.drop_last()) + line_count(ss.last())
    }
}

/// The rows of one stream, whose lines follow the `base` lines before it.
pub open spec fn source_rows(s: SourceStream, base: int) -> Seq<RowModel> {
    match s.lines {
        Ok(v) => lines_rows(v@, s.project_path@, s.file_name@, s.is_agent, session_key(s.file_name@), base),
        Err(_) => Seq::empty(),
    }
}

/// The row set of the streams, in the order given.
pub open spec fn all_rows(ss: Seq<SourceStream>) -> Seq<RowModel>
    decreases ss.len(),
{
    if ss.len() == 0 {
        Seq::empty()
    } else {
        all_rows(ss.drop_last()) + source_rows(ss.last(), total_lines(ss.drop_last()))
    }
}

pub open spec fn row_views(rows: Seq<ConversationRow>) -> Seq<RowModel> {
    rows.map_values(|r: ConversationRow| r@)
}

/// Line counts are never negative.
pub proof fn lemma_total_lines_nonneg(ss: Seq<SourceStream>)
    ensures
        0 <= total_lines(ss),
    decreases ss.len(),
{
    if ss.len() > 0 {
        lemma_total_lines_nonneg(ss.drop_last());
    }
}

proof fn lemma_total_lines_prefix(ss: Seq<SourceStream>, i: int)
    requires
        0 <= i <= ss.len(),
    ensures
        0 <= total_lines(ss.take(i)) <= total_lines(ss),
    decreases ss.len(),
{
    lemma_total_lines_nonneg(ss.take(i));
    if i < ss.len() {
        assert(ss.drop_last().take(i) =~= ss.take(i));
        lemma_total_lines_prefix(ss.drop_last(), i);
    } else {
        assert(ss.take(i) =~= ss);
    }
}

/// The row set of one query over the conversation logs, built once at bind time.
pub struct ConversationsBindData {
    pub rows: Vec<ConversationRow>,
}

/// The read position of one query into its conversation row set.
pub struct ConversationsInitData {
    pub cursor: Cursor,
}

impl ConversationsBindData {
    /// Materializes the row set of the streams.
    pub fn new(streams: Vec<SourceStream>) -> (b: ConversationsBindData)
        requires
            total_lines(streams@) <= i64::MAX,
        ensures
            row_views(b.rows@) == all_rows(streams@),
    {
        ConversationsBindData { rows: ReadConversationsVTab::load_rows(streams) }
    }

    /// A fresh cursor at the first row.
    pub fn init(&self) -> (i: ConversationsInitData)
        ensures
            i.cursor.wf(),
            i.cursor.pos() == 0,
            i.cursor.total() == self.rows@.len(),
            i.cursor.page_size() == PAGE_SIZE,
    {
        ConversationsInitData { cursor: Cursor::new(self.rows.len()) }
    }
}

/// The number of physical lines of all the streams, when it fits the line counter.
pub fn total_line_count(streams: &Vec<SourceStream>) -> (r: Option<i64>)
    ensures
        match r {
            Some(n) => n == total_lines(streams@),
            None => total_lines(streams@) > i64::MAX,
        },
{
    let mut sum: i64 = 0;
    let mut i: usize = 0;
    while i < streams.len()
        invariant
            i <= streams@.len(),
            0 <= sum,
            sum == total_lines(streams@.take(i as int)),
        decreases streams@.len() - i,
    {
        assert(streams@.take(i as int + 1).drop_last() =~= streams@.take(i as int));
        let n: usize = match &streams[i].lines {
            Ok(v) => v.len(),
            Err(_) => 0,
        };
        if n as u64 > (i64::MAX - sum) as u64 {
            assert(total_lines(streams@.take(i as int + 1)) > i64::MAX);
            proof {
                lemma_total_lines_prefix(streams@, i as int + 1);
            }
            return None;
        }
        sum = sum + n as i64;
        i = i + 1;
    }
    assert(streams@.take(streams@.len() as int) =~= streams@);
    Some(sum)
}

pub struct ReadConversationsVTab;

impl ReadConversationsVTab {
    /// Flattens one parsed event into a row; never fails.
    pub fn message_to_row(
        msg: ConversationMessage,
        project_path: &str,
        file_name: &str,
        is_agent: bool,
        file_session_id: &str,
        line_number: i64,
    ) -> (r: ConversationRow)
        ensures
            r@ == event_row(msg, project_path@, file_name@, is_agent, file_session_id@, line_number),
    {
        match msg {
            ConversationMessage::User(u) => {
                let sid = session_of(clone_opt(&u.base.session_id), file_session_id);
                let mut row = new_row(project_path, file_name, is_agent, line_number, "user", sid);
                fill_base(&mut row, u.base);
                row.message_role = Some("user".to_owned());
                if let Some(m) = &u.message {
                    if let Some(c) = &m.content {
                        row.message_content = Some(extract_text_content(c));
                    }
                }
                row
            },
            ConversationMessage::Assistant(a) => {
                let sid = session_of(clone_opt(&a.base.session_id), file_session_id);
                let mut row = new_row(
                    project_path,
                    file_name,
                    is_agent,
                    line_number,
                    "assistant",
                    sid,
                );
                fill_base(&mut row, a.base);
                row.message_role = Some("assistant".to_owned());
                if let Some(m) = a.message {
                    if let Some(blocks) = &m.content {
                        row.message_content = Some(join_text_blocks(blocks));
                        if let Some(t) = find_first_tool_use(blocks) {
                            row.tool_name = t.0;
                            row.tool_use_id = t.1;
                            row.tool_input = t.2;
                        }
                    }
                    usage_columns(&mut row, &m.usage);
                    row.model = m.model;
                    row.stop_reason = m.stop_reason;
                }
                row
            },
            ConversationMessage::System(s) => {
                let sid = session_of(clone_opt(&s.base.session_id), file_session_id);
                let mut row = new_row(project_path, file_name, is_agent, line_number, "system", sid);
                fill_base(&mut row, s.base);
                if let Some(c) = &s.content {
                    row.message_content = Some(extract_text_content(c));
                }
                row
            },
            ConversationMessage::Summary(s) => {
                let sid = file_session_id.to_owned();
                let mut row = new_row(project_path, file_name, is_agent, line_number, "summary", sid);
                row.message_content = s.summary;
                row
            },
            ConversationMessage::FileHistorySnapshot(_) => {
                let sid = file_session_id.to_owned();
                new_row(project_path, file_name, is_agent, line_number, "file-history-snapshot", sid)
            },
            ConversationMessage::QueueOperation(q) => {
                let sid = session_of(q.session_id, file_session_id);
                let mut row = new_row(
                    project_path,
                    file_name,
                    is_agent,
                    line_number,
                    "queue-operation",
                    sid,
                );
                row.timestamp = q.timestamp;
                row.message_content = q.content;
                row
            },
        }
    }

    /// The row that stands for a line that did not parse: the parse-error tag,
    /// the fallback session, the diagnostic behind a fixed prefix, nothing else.
    pub fn error_row(
        diagnostic: &str,
        project_path: &str,
        file_name: &str,
        is_agent: bool,
        file_session_id: &str,
        line_number: i64,
    ) -> (r: ConversationRow)
        ensures
            r@ == error_row_model(diagnostic@, project_path@, file_name@, is_agent, file_session_id@, line_number),
    {
        proof {
            reveal_strlit("_parse_error");
            reveal_strlit("Parse error: ");
        }
        let sid = file_session_id.to_owned();
        let mut row = new_row(project_path, file_name, is_agent, line_number, "_parse_error", sid);
        let text = "Parse error: ".to_owned().concat(diagnostic);
        row.message_content = Some(text);
        assert("_parse_error"@ =~= parse_error_tag());
        assert("Parse error: "@ =~= parse_error_prefix());
        row
    }

    /// Appends the rows of one readable stream; `base` lines came before it.
    fn load_stream(
        rows: &mut Vec<ConversationRow>,
        lines: Vec<LineInput<ConversationMessage>>,
        project_path: &str,
        file_name: &str,
        is_agent: bool,
        base: i64,
    )
        requires
            0 <= base,
            base + lines@.len() <= i64::MAX,
        ensures
            row_views(final(rows)@) == row_views(old(rows)@) + lines_rows(
                lines@,
                project_path@,
                file_name@,
                is_agent,
                session_key(file_name@),
                base as int,
            ),
    {
        let file_session_id = extract_session_id_from_filename(file_name);
        let ghost all = lines@;
        let ghost start = row_views(rows@);
        let mut line_no: i64 = base;
        for line in it: lines.into_iter()
            invariant
                it.seq() == all,
                line_no == base + it.index(),
                base + all.len() <= i64::MAX,
                file_session_id@ == session_key(file_name@),
                row_views(rows@) == start + lines_rows(
                    all.take(it.index() as int),
                    project_path@,
                    file_name@,
                    is_agent,
                    file_session_id@,
                    base as int,
                ),
        {
            let ghost k = it.index() as int;
            let ghost before = row_views(rows@);
            assert(all.take(k + 1).drop_last() =~= all.take(k));
            assert(all.take(k + 1).last() == all[k]);
            line_no = line_no + 1;
            match line {
                LineInput::Blank => {},
                LineInput::Parsed(m) => {
                    let row = Self::message_to_row(
                        m,
                        project_path,
                        file_name,
                        is_agent,
                        file_session_id.as_str(),
                        line_no,
                    );
                    rows.push(row);
                    assert(row_views(rows@) =~= before.push(row@));
                },
                LineInput::Malformed(d) => {
                    let row = Self::error_row(
                        d.as_str(),
                        project_path,
                        file_name,
                        is_agent,
                        file_session_id.as_str(),
                        line_no,
                    );
                    rows.push(row);
                    assert(row_views(rows@) =~= before.push(row@));
                },
            }
        }
        assert(all.take(all.len() as int) =~= all);
    }

    /// Builds the row set of the streams, in order. Every physical line of a
    /// readable stream advances one line counter shared by all streams; blank
    /// lines give no row, lines that did not parse give an error row, and
    /// streams that could not be read are passed over.
    pub fn load_rows(streams: Vec<SourceStream>) -> (r: Vec<ConversationRow>)
        requires
            total_lines(streams@) <= i64::MAX,
        ensures
            row_views(r@) == all_rows(streams@),
    {
        let ghost all = streams@;
        let mut rows: Vec<ConversationRow> = Vec::new();
        let mut global_line: i64 = 0;
        for stream in it: streams.into_iter()
            invariant
                it.seq() == all,
                total_lines(all) <= i64::MAX,
                global_line == total_lines(all.take(it.index() as int)),
                row_views(rows@) == all_rows(all.take(it.index() as int)),
        {
            let ghost k = it.index() as int;
            assert(all.take(k + 1).drop_last() =~= all.take(k));
            assert(all.take(k + 1).last() == all[k]);
            proof {
                lemma_total_lines_prefix(all, k);
                lemma_total_lines_prefix(all, k + 1);
            }
            match stream.lines {
                Ok(lines) => {
                    let n = lines.len();
                    Self::load_stream(
                        &mut rows,
                        lines,
                        stream.project_path.as_str(),
                        stream.file_name.as_str(),
                        stream.is_agent,
                        global_line,
                    );
                    global_line = global_line + n as i64;
                },
                Err(_) => {},
            }
        }
        assert(all.take(all.len() as int) =~= all);
        rows
    }
}

} // verus!
