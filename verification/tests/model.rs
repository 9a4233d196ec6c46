use audit_viewer::json::{parse_text, Json};
use audit_viewer::model::{row_from_json, AuditData, Row, LOG_LIMIT};

#[test]
fn a_record_becomes_a_row() {
    let record = parse_text(
        "{\"platform\": \"twitch\", \"user_uuid7\": 7, \"raw_message\": \"hi\", \
         \"pipeline_status\": \"complete\", \"error_message\": null, \"persisted_at\": 1000}",
    )
    .unwrap();
    let row = row_from_json(121_000, &record);
    assert_eq!(
        row,
        Row {
            platform: "twitch".to_string(),
            user: "7".to_string(),
            content: "hi".to_string(),
            status: "complete".to_string(),
            error: String::new(),
            age: "2m".to_string(),
        }
    );
    assert_eq!(row.clone(), row);
}

#[test]
fn missing_members_leave_a_row_blank() {
    assert_eq!(row_from_json(5, &Json::Null), Row::default());
    let record = parse_text("{\"persisted_at\": \"1000\"}").unwrap();
    assert_eq!(row_from_json(5, &record), Row::default());
}

#[test]
fn a_new_viewer_knows_nothing() {
    let data = AuditData::default();
    assert!(data.messages.is_empty() && data.errors.is_empty() && data.audit.is_empty());
    assert!(data.logs.is_empty() && data.modules.is_empty());
    assert!(!data.connected);
    assert_eq!(data.last_refresh, None);
}

#[test]
fn the_log_keeps_the_newest_lines() {
    let mut data = AuditData::default();
    for i in 0..LOG_LIMIT {
        data.push_log(i.to_string());
    }
    assert_eq!(data.logs.len(), 400);
    assert_eq!(data.logs[0], "0");
    data.push_log("next".to_string());
    assert_eq!(data.logs.len(), 400);
    assert_eq!(data.logs[0], "1");
    assert_eq!(data.logs[399], "next");
}

#[test]
fn a_log_beyond_the_limit_does_not_grow() {
    let mut data = AuditData::default();
    for i in 0..450 {
        data.logs.push(i.to_string());
    }
    data.push_log("next".to_string());
    assert_eq!(data.logs.len(), 450);
    assert_eq!(data.logs[0], "1");
    assert_eq!(data.logs[449], "next");
}
