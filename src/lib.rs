//! Flattening of line-delimited agent event logs into uniform tabular rows,
//! and the paged delivery of those rows to a query engine.
//!
//! `types` models the records, `text` extracts display text from content,
//! `conversations` flattens events and aggregates log files into one row set,
//! `history` and `stats` build the rows of the two auxiliary tables, and
//! `paging` hands a row set out in pages.

pub mod conversations;
pub mod history;
pub mod laws;
pub mod paging;
pub mod stats;
pub mod text;
pub mod types;

pub use conversations::{
    extract_session_id_from_filename, total_line_count, ConversationRow, ConversationsBindData,
    ConversationsInitData, ReadConversationsVTab, SourceStream,
};
pub use history::{HistoryBindData, HistoryInitData, HistoryRow, ReadHistoryVTab};
pub use paging::{Cursor, Page, PAGE_SIZE};
pub use stats::{ReadStatsVTab, StatsBindData, StatsInitData, StatsRow};
pub use text::{extract_text_content, is_blank_line, join_text_blocks};
pub use types::{
    AssistantMessage, AssistantMessageContent, BaseFields, ContentBlock, ContentValue,
    ConversationMessage, DailyStats, FileHistorySnapshotMessage, HistoryEntry, LineInput,
    QueueOperationMessage, StatsCache, StreamError, SummaryMessage, SystemMessage, TodoItem,
    UsageInfo, UserMessage, UserMessageContent,
};
