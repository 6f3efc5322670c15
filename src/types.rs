use vstd::prelude::*;

verus! {

/// Identity and context fields shared by user, assistant and system events.
/// Every field is optional: records omit whatever they do not know.
pub struct BaseFields {
    pub uuid: Option<String>,
    pub parent_uuid: Option<String>,
    pub timestamp: Option<String>,
    pub session_id: Option<String>,
    pub cwd: Option<String>,
    pub version: Option<String>,
    pub slug: Option<String>,
    pub git_branch: Option<String>,
    pub user_type: Option<String>,
    pub is_sidechain: Option<bool>,
    pub agent_id: Option<String>,
}

/// Free-form message content: either a plain string, or a sequence of blocks,
/// each carrying the text it bears (`None` for a block that bears no text),
/// or any other JSON value, carried as its serialized text.
pub enum ContentValue {
    Text(String),
    Blocks(Vec<Option<String>>),
    Other(String),
}

/// One content block of an assistant message.
/// JSON payloads (`input`, `content`) are carried in serialized form.
pub enum ContentBlock {
    Text { text: String },
    Thinking { thinking: String, signature: Option<String> },
    ToolUse { id: Option<String>, name: Option<String>, input: Option<String> },
    ToolResult { tool_use_id: Option<String>, content: Option<String>, is_error: Option<bool> },
}

/// Token counters of an assistant turn; each is present or absent on its own.
pub struct UsageInfo {
    pub input_tokens: Option<i64>,
    pub output_tokens: Option<i64>,
    pub cache_creation_input_tokens: Option<i64>,
    pub cache_read_input_tokens: Option<i64>,
}

pub struct UserMessageContent {
    pub role: Option<String>,
    pub content: Option<ContentValue>,
}

pub struct UserMessage {
    pub base: BaseFields,
    pub message: Option<UserMessageContent>,
}

pub struct AssistantMessageContent {
    pub model: Option<String>,
    pub id: Option<String>,
    pub role: Option<String>,
    pub content: Option<Vec<ContentBlock>>,
    pub stop_reason: Option<String>,
    pub usage: Option<UsageInfo>,
}

pub struct AssistantMessage {
    pub base: BaseFields,
    pub message: Option<AssistantMessageContent>,
}

pub struct SystemMessage {
    pub base: BaseFields,
    pub subtype: Option<String>,
    pub content: Option<ContentValue>,
    pub level: Option<String>,
}

pub struct FileHistorySnapshotMessage {
    pub message_id: Option<String>,
    pub is_snapshot_update: Option<bool>,
}

pub struct QueueOperationMessage {
    pub operation: Option<String>,
    pub timestamp: Option<String>,
    pub session_id: Option<String>,
    pub content: Option<String>,
}

pub struct SummaryMessage {
    pub summary: Option<String>,
    pub leaf_uuid: Option<String>,
}

/// One event of a conversation log; exactly one variant per record.
pub enum ConversationMessage {
    User(UserMessage),
    Assistant(AssistantMessage),
    System(SystemMessage),
    FileHistorySnapshot(FileHistorySnapshotMessage),
    QueueOperation(QueueOperationMessage),
    Summary(SummaryMessage),
}

/// One prompt of the prompt history log. The timestamp is in whole
/// milliseconds; pasted contents are carried as serialized JSON.
pub struct HistoryEntry {
    pub display: Option<String>,
    pub pasted_contents: Option<String>,
    pub timestamp: Option<i64>,
    pub project: Option<String>,
    pub session_id: Option<String>,
}

pub struct TodoItem {
    pub content: Option<String>,
    pub status: Option<String>,
    pub active_form: Option<String>,
}

pub struct StatsCache {
    pub version: Option<i64>,
    pub last_computed_date: Option<String>,
    pub daily_activity: Option<Vec<DailyStats>>,
}

pub struct DailyStats {
    pub date: Option<String>,
    pub message_count: Option<i64>,
    pub session_count: Option<i64>,
    pub tool_call_count: Option<i64>,
}

/// What one physical line of a log turned out to be.
pub enum LineInput<T> {
    /// Empty or white space only: produces no row.
    Blank,
    /// A record that parsed.
    Parsed(T),
    /// A non-blank line that did not parse, with the parser's diagnostic.
    Malformed(String),
}

/// Why an input stream yielded no lines.
pub enum StreamError {
    Unavailable,
}

/// `Some(s@)` for `Some(s)`.
pub open spec fn opt_chars(o: Option<String>) -> Option<Seq<char>> {
    match o {
        Some(s) => Some(s@),
        None => None,
    }
}

} // verus!
