use agent_data::{
    extract_session_id_from_filename, extract_text_content, is_blank_line, total_line_count,
    AssistantMessage, AssistantMessageContent, BaseFields, ContentBlock, ContentValue,
    ConversationMessage, ConversationRow, ConversationsBindData, FileHistorySnapshotMessage,
    LineInput, QueueOperationMessage, ReadConversationsVTab, SourceStream, StreamError,
    SummaryMessage, SystemMessage, UsageInfo, UserMessage, UserMessageContent,
};

fn s(t: &str) -> String {
    t.to_string()
}

fn some(t: &str) -> Option<String> {
    Some(t.to_string())
}

fn empty_base() -> BaseFields {
    BaseFields {
        uuid: None,
        parent_uuid: None,
        timestamp: None,
        session_id: None,
        cwd: None,
        version: None,
        slug: None,
        git_branch: None,
        user_type: None,
        is_sidechain: None,
        agent_id: None,
    }
}

fn user_event(session: Option<String>, uuid: Option<String>, text: &str) -> ConversationMessage {
    let mut base = empty_base();
    base.session_id = session;
    base.uuid = uuid;
    ConversationMessage::User(UserMessage {
        base,
        message: Some(UserMessageContent {
            role: some("user"),
            content: Some(ContentValue::Text(s(text))),
        }),
    })
}

fn flatten(msg: ConversationMessage, fallback: &str) -> ConversationRow {
    ReadConversationsVTab::message_to_row(msg, "/proj", "f.jsonl", false, fallback, 7)
}

fn stream(name: &str, lines: Vec<LineInput<ConversationMessage>>) -> SourceStream {
    SourceStream { project_path: s("proj"), file_name: s(name), is_agent: false, lines: Ok(lines) }
}

fn assert_no_tool_or_usage(r: &ConversationRow) {
    assert_eq!(r.model, None);
    assert_eq!(r.tool_name, None);
    assert_eq!(r.tool_use_id, None);
    assert_eq!(r.tool_input, None);
    assert_eq!(r.input_tokens, None);
    assert_eq!(r.output_tokens, None);
    assert_eq!(r.cache_creation_tokens, None);
    assert_eq!(r.cache_read_tokens, None);
    assert_eq!(r.stop_reason, None);
}

#[test]
fn user_line_flattens() {
    let r = flatten(user_event(some("s1"), some("u1"), "hi"), "fallback");
    assert_eq!(r.message_type, "user");
    assert_eq!(r.message_role, some("user"));
    assert_eq!(r.message_content, some("hi"));
    assert_eq!(r.session_id, "s1");
    assert_eq!(r.uuid, some("u1"));
    assert_eq!(r.project_path, "/proj");
    assert_eq!(r.file_name, "f.jsonl");
    assert_eq!(r.line_number, 7);
    assert!(!r.is_agent);
    assert_no_tool_or_usage(&r);
}

#[test]
fn assistant_line_with_tool_use_flattens() {
    let msg = ConversationMessage::Assistant(AssistantMessage {
        base: empty_base(),
        message: Some(AssistantMessageContent {
            model: some("m1"),
            id: None,
            role: None,
            content: Some(vec![
                ContentBlock::ToolUse { id: some("t1"), name: some("bash"), input: some("{\"cmd\":\"ls\"}") },
                ContentBlock::Text { text: s("done") },
            ]),
            stop_reason: None,
            usage: Some(UsageInfo {
                input_tokens: Some(5),
                output_tokens: None,
                cache_creation_input_tokens: None,
                cache_read_input_tokens: None,
            }),
        }),
    });
    let r = flatten(msg, "sess-from-filename");
    assert_eq!(r.message_type, "assistant");
    assert_eq!(r.message_role, some("assistant"));
    assert_eq!(r.tool_name, some("bash"));
    assert_eq!(r.tool_use_id, some("t1"));
    assert_eq!(r.tool_input, some("{\"cmd\":\"ls\"}"));
    assert_eq!(r.message_content, some("done"));
    assert_eq!(r.model, some("m1"));
    assert_eq!(r.input_tokens, Some(5));
    assert_eq!(r.output_tokens, None);
    assert_eq!(r.cache_creation_tokens, None);
    assert_eq!(r.cache_read_tokens, None);
    assert_eq!(r.session_id, "sess-from-filename");
}

#[test]
fn assistant_keeps_first_tool_use_and_joins_texts() {
    let msg = ConversationMessage::Assistant(AssistantMessage {
        base: empty_base(),
        message: Some(AssistantMessageContent {
            model: None,
            id: None,
            role: None,
            content: Some(vec![
                ContentBlock::Text { text: s("a") },
                ContentBlock::Thinking { thinking: s("hmm"), signature: None },
                ContentBlock::ToolUse { id: some("first"), name: some("read"), input: None },
                ContentBlock::Text { text: s("b") },
                ContentBlock::ToolUse { id: some("second"), name: some("write"), input: some("{}") },
            ]),
            stop_reason: some("tool_use"),
            usage: Some(UsageInfo {
                input_tokens: Some(1),
                output_tokens: Some(2),
                cache_creation_input_tokens: Some(3),
                cache_read_input_tokens: Some(4),
            }),
        }),
    });
    let r = flatten(msg, "fb");
    assert_eq!(r.message_content, some("a\nb"));
    assert_eq!(r.tool_name, some("read"));
    assert_eq!(r.tool_use_id, some("first"));
    assert_eq!(r.tool_input, None);
    assert_eq!(r.stop_reason, some("tool_use"));
    assert_eq!(
        (r.input_tokens, r.output_tokens, r.cache_creation_tokens, r.cache_read_tokens),
        (Some(1), Some(2), Some(3), Some(4))
    );
}

#[test]
fn assistant_without_content_has_no_text() {
    let msg = ConversationMessage::Assistant(AssistantMessage { base: empty_base(), message: None });
    let r = flatten(msg, "fb");
    assert_eq!(r.message_content, None);
    assert_eq!(r.message_role, some("assistant"));
    assert_no_tool_or_usage(&r);
}

#[test]
fn malformed_line_becomes_error_row() {
    let lines = vec![
        LineInput::Malformed(s("key must be a string at line 1 column 2")),
        LineInput::Parsed(user_event(None, None, "after")),
    ];
    let rows = ReadConversationsVTab::load_rows(vec![stream("abc.jsonl", lines)]);
    assert_eq!(rows.len(), 2);
    let e = &rows[0];
    assert_eq!(e.message_type, "_parse_error");
    assert_eq!(e.message_content, some("Parse error: key must be a string at line 1 column 2"));
    assert!(e.message_content.as_ref().unwrap().starts_with("Parse error: "));
    assert_eq!(e.session_id, "abc");
    assert_eq!(e.uuid, None);
    assert_eq!(e.message_role, None);
    assert_no_tool_or_usage(e);
    assert_eq!(rows[1].message_content, some("after"));
    assert_eq!(rows[1].line_number, 2);
}

#[test]
fn unreadable_stream_is_skipped() {
    let unreadable = SourceStream {
        project_path: s("p"),
        file_name: s("locked.jsonl"),
        is_agent: true,
        lines: Err(StreamError::Unavailable),
    };
    let readable = stream(
        "open.jsonl",
        vec![
            LineInput::Parsed(user_event(None, None, "1")),
            LineInput::Parsed(user_event(None, None, "2")),
            LineInput::Parsed(user_event(None, None, "3")),
        ],
    );
    let rows = ReadConversationsVTab::load_rows(vec![unreadable, readable]);
    assert_eq!(rows.len(), 3);
    let numbers: Vec<i64> = rows.iter().map(|r| r.line_number).collect();
    assert_eq!(numbers, vec![1, 2, 3]);
    assert!(rows.iter().all(|r| r.file_name == "open.jsonl" && r.session_id == "open"));
}

#[test]
fn blank_lines_advance_counter_without_rows() {
    let lines = vec![
        LineInput::Blank,
        LineInput::Parsed(user_event(None, None, "x")),
        LineInput::Blank,
        LineInput::Blank,
        LineInput::Malformed(s("eof")),
    ];
    let rows = ReadConversationsVTab::load_rows(vec![stream("a.jsonl", lines)]);
    assert_eq!(rows.len(), 2);
    assert_eq!(rows[0].line_number, 2);
    assert_eq!(rows[1].line_number, 5);
}

#[test]
fn empty_stream_gives_no_rows() {
    let rows = ReadConversationsVTab::load_rows(vec![stream("a.jsonl", vec![])]);
    assert!(rows.is_empty());
    assert!(ReadConversationsVTab::load_rows(vec![]).is_empty());
}

#[test]
fn own_session_preferred_over_fallback() {
    let with_own = flatten(user_event(some("mine"), None, "t"), "derived");
    assert_eq!(with_own.session_id, "mine");
    let without = flatten(user_event(None, None, "t"), "derived");
    assert_eq!(without.session_id, "derived");
    let q = ConversationMessage::QueueOperation(QueueOperationMessage {
        operation: some("enqueue"),
        timestamp: some("ts"),
        session_id: some("qs"),
        content: some("queued"),
    });
    let r = flatten(q, "derived");
    assert_eq!(r.session_id, "qs");
    assert_eq!(r.message_type, "queue-operation");
    assert_eq!(r.timestamp, some("ts"));
    assert_eq!(r.message_content, some("queued"));
    assert_eq!(r.message_role, None);
}

#[test]
fn line_numbers_increase_across_streams() {
    let a = stream("a.jsonl", vec![LineInput::Parsed(user_event(None, None, "1")), LineInput::Blank]);
    let b = stream(
        "b.jsonl",
        vec![LineInput::Parsed(user_event(None, None, "2")), LineInput::Malformed(s("bad"))],
    );
    let rows = ReadConversationsVTab::load_rows(vec![a, b]);
    let numbers: Vec<i64> = rows.iter().map(|r| r.line_number).collect();
    assert_eq!(numbers, vec![1, 3, 4]);
    assert_eq!(rows[0].session_id, "a");
    assert_eq!(rows[1].session_id, "b");
}

#[test]
fn system_summary_and_snapshot_rows() {
    let mut base = empty_base();
    base.slug = some("slug");
    base.git_branch = some("main");
    base.cwd = some("/w");
    base.version = some("1.0");
    base.parent_uuid = some("p");
    let sys = ConversationMessage::System(SystemMessage {
        base,
        subtype: some("info"),
        content: Some(ContentValue::Text(s("notice"))),
        level: None,
    });
    let r = flatten(sys, "fb");
    assert_eq!(r.message_type, "system");
    assert_eq!(r.message_role, None);
    assert_eq!(r.message_content, some("notice"));
    assert_eq!(r.session_id, "fb");
    assert_eq!((r.slug.clone(), r.git_branch.clone()), (some("slug"), some("main")));
    assert_eq!((r.cwd.clone(), r.version.clone()), (some("/w"), some("1.0")));
    assert_eq!(r.parent_uuid, some("p"));

    let sum = ConversationMessage::Summary(SummaryMessage { summary: some("recap"), leaf_uuid: some("l") });
    let r = flatten(sum, "fb");
    assert_eq!(r.message_type, "summary");
    assert_eq!(r.message_content, some("recap"));
    assert_eq!(r.session_id, "fb");
    assert_eq!(r.uuid, None);

    let snap = ConversationMessage::FileHistorySnapshot(FileHistorySnapshotMessage {
        message_id: some("m"),
        is_snapshot_update: Some(true),
    });
    let r = flatten(snap, "fb");
    assert_eq!(r.message_type, "file-history-snapshot");
    assert_eq!(r.message_content, None);
    assert_eq!(r.timestamp, None);
    assert_eq!(r.session_id, "fb");
    assert_no_tool_or_usage(&r);
}

#[test]
fn user_block_content_joins_text_blocks() {
    let c = ContentValue::Blocks(vec![some("one"), None, some("two")]);
    assert_eq!(extract_text_content(&c), "one\ntwo");
    assert_eq!(extract_text_content(&ContentValue::Blocks(vec![None])), "");
    assert_eq!(extract_text_content(&ContentValue::Other(s("42"))), "42");
    let msg = ConversationMessage::User(UserMessage {
        base: empty_base(),
        message: Some(UserMessageContent { role: None, content: Some(c) }),
    });
    assert_eq!(flatten(msg, "fb").message_content, some("one\ntwo"));
    let bare = ConversationMessage::User(UserMessage { base: empty_base(), message: None });
    assert_eq!(flatten(bare, "fb").message_content, None);
}

#[test]
fn session_id_from_file_name() {
    assert_eq!(extract_session_id_from_filename("abc-123.jsonl"), "abc-123");
    assert_eq!(extract_session_id_from_filename("notes.txt"), "notes.txt");
    assert_eq!(extract_session_id_from_filename(".jsonl"), "");
    assert_eq!(extract_session_id_from_filename("jsonl"), "jsonl");
    assert_eq!(extract_session_id_from_filename("é.jsonl"), "é");
}

#[test]
fn blank_line_detection() {
    assert!(is_blank_line(""));
    assert!(is_blank_line("  \t\r"));
    assert!(is_blank_line("\u{3000}\u{a0}"));
    assert!(!is_blank_line(" {} "));
}

#[test]
fn line_count_check() {
    let a = stream("a.jsonl", vec![LineInput::Blank, LineInput::Blank]);
    let b = SourceStream { project_path: s("p"), file_name: s("b"), is_agent: false, lines: Err(StreamError::Unavailable) };
    assert_eq!(total_line_count(&vec![a, b]), Some(2));
}

#[test]
fn bind_data_pages_rows() {
    let lines = (0..5).map(|i| LineInput::Parsed(user_event(None, None, &i.to_string()))).collect();
    let bind = ConversationsBindData::new(vec![stream("a.jsonl", lines)]);
    let mut init = bind.init();
    let p = init.cursor.fetch_page();
    assert_eq!((p.start, p.len), (0, 5));
    assert_eq!(bind.rows[p.start + 4].message_content, some("4"));
    assert_eq!(init.cursor.fetch_page().len, 0);
}
