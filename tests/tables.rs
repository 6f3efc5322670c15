use agent_data::{
    DailyStats, HistoryBindData, HistoryEntry, LineInput, ReadHistoryVTab, ReadStatsVTab,
    StatsBindData, StatsCache,
};

fn entry(display: &str, ts: Option<i64>) -> HistoryEntry {
    HistoryEntry {
        display: Some(display.to_string()),
        pasted_contents: Some("{}".to_string()),
        timestamp: ts,
        project: Some("/p".to_string()),
        session_id: Some("s".to_string()),
    }
}

#[test]
fn history_rows_numbered_per_line() {
    let rows = ReadHistoryVTab::load_rows(vec![
        LineInput::Parsed(entry("first", Some(1700000000123))),
        LineInput::Blank,
        LineInput::Malformed("expected value".to_string()),
        LineInput::Parsed(entry("last", None)),
    ]);
    assert_eq!(rows.len(), 3);
    assert_eq!(rows[0].line_number, 1);
    assert_eq!(rows[0].timestamp_ms, Some(1700000000123));
    assert_eq!(rows[0].display.as_deref(), Some("first"));
    assert_eq!(rows[0].pasted_contents.as_deref(), Some("{}"));
    assert_eq!(rows[0].project.as_deref(), Some("/p"));
    assert_eq!(rows[1].line_number, 3);
    assert_eq!(rows[1].display.as_deref(), Some("Parse error: expected value"));
    assert_eq!(rows[1].session_id, None);
    assert_eq!(rows[1].timestamp_ms, None);
    assert_eq!(rows[2].line_number, 4);
    assert_eq!(rows[2].timestamp_ms, None);
}

#[test]
fn history_bind_and_page() {
    let bind = HistoryBindData::new(vec![LineInput::Parsed(entry("a", None))]);
    let mut init = bind.init();
    assert_eq!(init.cursor.fetch_page().len, 1);
    assert_eq!(init.cursor.fetch_page().len, 0);
}

#[test]
fn stats_rows_default_missing_values() {
    let cache = StatsCache {
        version: Some(1),
        last_computed_date: None,
        daily_activity: Some(vec![
            DailyStats {
                date: Some("2025-01-02".to_string()),
                message_count: Some(10),
                session_count: Some(2),
                tool_call_count: Some(7),
            },
            DailyStats { date: None, message_count: None, session_count: Some(1), tool_call_count: None },
        ]),
    };
    let rows = ReadStatsVTab::load_rows(Some(cache));
    assert_eq!(rows.len(), 2);
    assert_eq!(rows[0].date, "2025-01-02");
    assert_eq!((rows[0].message_count, rows[0].session_count, rows[0].tool_call_count), (10, 2, 7));
    assert_eq!(rows[1].date, "");
    assert_eq!((rows[1].message_count, rows[1].session_count, rows[1].tool_call_count), (0, 1, 0));
}

#[test]
fn stats_without_cache_or_days() {
    assert!(ReadStatsVTab::load_rows(None).is_empty());
    let cache = StatsCache { version: None, last_computed_date: None, daily_activity: None };
    let bind = StatsBindData::new(Some(cache));
    assert!(bind.rows.is_empty());
    assert!(bind.init().cursor.is_exhausted());
}
