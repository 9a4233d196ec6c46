use audit_viewer::engine::DatabaseQueryResult;
use audit_viewer::json::{parse_text, Json};
use audit_viewer::model::AuditData;
use audit_viewer::refresh::{
    archive_line_text, document_of, kind_from_flags, log_line_text, readings_for, refresh,
    RefreshStep, Refreshed,
};

fn reply(success: bool, blob: &str) -> Result<DatabaseQueryResult, String> {
    Ok(DatabaseQueryResult {
        query_id: "q".to_string(),
        success,
        result_blob: blob.as_bytes().to_vec(),
    })
}

fn refresh_at(
    now: i64,
    step: RefreshStep,
    reply: &Result<DatabaseQueryResult, String>,
    data: &mut AuditData,
) -> Refreshed {
    let document = document_of(reply);
    let moments = vec![now; readings_for(step, &document)];
    audit_viewer::refresh::refresh_at(&moments, step, document, data)
}

#[test]
fn a_refresh_asks_for_everything_in_order() {
    let mut ids = vec![];
    let mut step = Some(RefreshStep::first());
    while let Some(s) = step {
        ids.push(s.query_id());
        step = s.next();
    }
    assert_eq!(ids, vec!["audit_msgs", "audit_err", "audit_held", "audit_logs", "module_list"]);
    assert_eq!(RefreshStep::Modules.sql(), "SELECT 1");
    assert_eq!(
        RefreshStep::Held.sql(),
        "SELECT platform, raw_message, pipeline_status, persisted_at FROM timeline_events WHERE pipeline_status = 'audit' ORDER BY persisted_at DESC LIMIT 40"
    );
    assert_eq!(
        RefreshStep::Errors.sql(),
        "SELECT platform, raw_message, pipeline_status, error_message, persisted_at FROM timeline_events WHERE (error_message IS NOT NULL AND error_message != '') OR pipeline_status = 'failed' ORDER BY persisted_at DESC LIMIT 40"
    );
    assert_eq!(
        RefreshStep::Messages.sql(),
        "SELECT platform, raw_message, user_uuid7, pipeline_status, error_message, persisted_at FROM timeline_events WHERE event_type = 1 ORDER BY persisted_at DESC LIMIT 60"
    );
    assert_eq!(
        RefreshStep::Logs.sql(),
        "SELECT raw_message, flags, persisted_at FROM timeline_events WHERE event_type = 5 ORDER BY persisted_at DESC LIMIT 40"
    );
}

#[test]
fn rows_go_to_their_own_list() {
    let blob = reply(true, "[{\"platform\": \"kick\", \"persisted_at\": 0}, {}]");
    for step in [RefreshStep::Messages, RefreshStep::Errors, RefreshStep::Held] {
        let mut data = AuditData::default();
        assert_eq!(refresh_at(7_200_000, step, &blob, &mut data), Refreshed::Updated);
        let (rows, others) = match step {
            RefreshStep::Messages => (&data.messages, data.errors.len() + data.audit.len()),
            RefreshStep::Errors => (&data.errors, data.messages.len() + data.audit.len()),
            _ => (&data.audit, data.messages.len() + data.errors.len()),
        };
        assert_eq!(others, 0);
        assert_eq!(rows.len(), 2);
        assert_eq!(rows[0].platform, "kick");
        assert_eq!(rows[0].age, "2h");
        assert_eq!(rows[1].age, "");
        assert!(!data.connected);
    }
}

#[test]
fn a_document_that_is_no_array_empties_a_list() {
    let mut data = AuditData::default();
    refresh_at(0, RefreshStep::Messages, &reply(true, "[{}]"), &mut data);
    assert_eq!(data.messages.len(), 1);
    assert_eq!(
        refresh_at(0, RefreshStep::Messages, &reply(true, "{}"), &mut data),
        Refreshed::Updated
    );
    assert!(data.messages.is_empty());
}

#[test]
fn a_failed_query_changes_nothing() {
    let mut data = AuditData::default();
    data.push_log("kept".to_string());
    for step in [RefreshStep::Messages, RefreshStep::Logs, RefreshStep::Modules] {
        let failed = Err("timed out".to_string());
        assert_eq!(refresh_at(0, step, &failed, &mut data), Refreshed::Unchanged);
        assert_eq!(refresh_at(0, step, &reply(false, "[]"), &mut data), Refreshed::Unchanged);
        assert_eq!(refresh_at(0, step, &reply(true, "[1"), &mut data), Refreshed::Unchanged);
    }
    assert_eq!(data.logs, vec!["kept"]);
    assert!(!data.connected);
}

#[test]
fn archival_rows_become_log_lines() {
    let mut data = AuditData::default();
    data.push_log("old".to_string());
    let blob = "[{\"raw_message\": \"joined\", \"flags\": \"{\\\"kind\\\": \\\"module\\\"}\", \"persisted_at\": 0},\
                {\"raw_message\": \"sent\", \"flags\": \"nothing\", \"persisted_at\": 30000},\
                {\"raw_message\": \"bare\"}]";
    assert_eq!(
        refresh_at(60_000, RefreshStep::Logs, &reply(true, blob), &mut data),
        Refreshed::Updated
    );
    assert_eq!(data.logs, vec!["[1m module] joined", "[30s archive] sent", "[ archive] bare"]);
    assert_eq!(
        refresh_at(60_000, RefreshStep::Logs, &reply(true, "{}"), &mut data),
        Refreshed::Unchanged
    );
    assert_eq!(data.logs.len(), 3);
}

#[test]
fn the_module_list_connects_the_viewer() {
    let mut data = AuditData::default();
    let blob = reply(true, "[{\"name\": \"chat\"}, 3]");
    assert_eq!(refresh_at(5, RefreshStep::Modules, &blob, &mut data), Refreshed::Updated);
    assert!(data.connected);
    assert_eq!(data.last_refresh, Some("0s".to_string()));
    assert_eq!(data.modules.len(), 2);
    assert_eq!(data.modules[0], parse_text("{\"name\": \"chat\"}").unwrap());
    assert_eq!(
        refresh_at(5, RefreshStep::Modules, &reply(true, "null"), &mut data),
        Refreshed::Updated
    );
    assert!(data.modules.is_empty());
    assert!(data.connected);
}

#[test]
fn an_age_out_of_range_is_reported() {
    let mut data = AuditData::default();
    let blob = reply(true, "[{}, {\"persisted_at\": -9223372036854775808}]");
    for step in [RefreshStep::Messages, RefreshStep::Logs] {
        assert_eq!(refresh_at(1, step, &blob, &mut data), Refreshed::AgeOverflow);
    }
    assert_eq!(refresh_at(1, RefreshStep::Modules, &blob, &mut data), Refreshed::Updated);
    assert!(data.messages.is_empty() && data.logs.is_empty());
}

#[test]
fn refresh_goes_by_the_clock() {
    let mut data = AuditData::default();
    let blob = reply(true, "[{\"persisted_at\": 9223372036854775807}]");
    assert_eq!(refresh(RefreshStep::Messages, &blob, &mut data), Refreshed::Updated);
    assert_eq!(data.messages[0].age, "0s");
    let blob = reply(true, "[{\"persisted_at\": 0}]");
    assert_eq!(refresh(RefreshStep::Messages, &blob, &mut data), Refreshed::Updated);
    assert!(data.messages[0].age.ends_with('h') && data.messages[0].age.len() >= 7);
}

#[test]
fn flags_may_name_a_kind() {
    assert_eq!(kind_from_flags(&None), "");
    assert_eq!(kind_from_flags(&Some(Json::Null)), "");
    assert_eq!(kind_from_flags(&parse_text("{\"kind\": 5}")), "5");
    assert_eq!(kind_from_flags(&parse_text("{\"kind\": []}")), "");
    let record = parse_text("{\"raw_message\": \"m\", \"flags\": \"{\\\"kind\\\":\\\"k\\\"}\"}").unwrap();
    assert_eq!(archive_line_text(0, &record, &None), "[ archive] m");
    assert_eq!(log_line_text(0, &record), "[ k] m");
}

#[test]
fn steps_may_come_in_either_order() {
    let messages = reply(true, "[{\"platform\": \"kick\"}]");
    let modules = reply(true, "[1]");
    let mut a = AuditData::default();
    refresh_at(9, RefreshStep::Messages, &messages, &mut a);
    refresh_at(9, RefreshStep::Modules, &modules, &mut a);
    let mut b = AuditData::default();
    refresh_at(9, RefreshStep::Modules, &modules, &mut b);
    refresh_at(9, RefreshStep::Messages, &messages, &mut b);
    assert_eq!(a, b);
}

#[test]
fn a_newer_answer_replaces_an_older_one() {
    let older = reply(true, "[{\"raw_message\": \"a\"}, {\"raw_message\": \"b\"}]");
    let newer = reply(true, "[{\"raw_message\": \"c\"}]");
    for step in [RefreshStep::Messages, RefreshStep::Errors, RefreshStep::Held, RefreshStep::Logs] {
        let mut twice = AuditData::default();
        refresh_at(9, step, &older, &mut twice);
        refresh_at(10, step, &newer, &mut twice);
        let mut once = AuditData::default();
        refresh_at(10, step, &newer, &mut once);
        assert_eq!(twice, once);
    }
}

#[test]
fn a_full_refresh_leaves_nothing_behind() {
    let blob = reply(true, "[{\"raw_message\": \"a\"}]");
    let mut used = AuditData::default();
    used.push_log("old".to_string());
    refresh_at(1, RefreshStep::Held, &reply(true, "[1, 2, 3]"), &mut used);
    let mut fresh = AuditData::default();
    for data in [&mut used, &mut fresh] {
        let mut step = Some(RefreshStep::first());
        while let Some(s) = step {
            assert_eq!(refresh_at(50, s, &blob, data), Refreshed::Updated);
            step = s.next();
        }
    }
    assert_eq!(used, fresh);
    assert!(used.connected);
}

#[test]
fn every_record_has_its_own_moment() {
    let blob = reply(true, "[{\"persisted_at\": 0}, {\"persisted_at\": 0}, {}]");
    let mut data = AuditData::default();
    let document = document_of(&blob);
    assert_eq!(readings_for(RefreshStep::Messages, &document), 3);
    let moments = vec![5_000, 61_000, 0];
    assert_eq!(
        audit_viewer::refresh::refresh_at(&moments, RefreshStep::Messages, document, &mut data),
        Refreshed::Updated
    );
    let ages: Vec<&str> = data.messages.iter().map(|r| r.age.as_str()).collect();
    assert_eq!(ages, vec!["5s", "1m", ""]);
}

#[test]
fn the_refresh_itself_has_an_age() {
    let mut data = AuditData::default();
    let document = document_of(&reply(true, "[]"));
    assert_eq!(readings_for(RefreshStep::Modules, &document), 2);
    let moments = vec![1_000, 4_500];
    audit_viewer::refresh::refresh_at(&moments, RefreshStep::Modules, document, &mut data);
    assert_eq!(data.last_refresh, Some("3s".to_string()));
    let document = document_of(&reply(true, "[]"));
    let far = vec![i64::MIN, i64::MAX];
    assert_eq!(
        audit_viewer::refresh::refresh_at(&far, RefreshStep::Modules, document, &mut data),
        Refreshed::AgeOverflow
    );
    assert_eq!(data.last_refresh, Some("3s".to_string()));
}

#[test]
fn only_json_of_a_successful_query_is_read() {
    assert_eq!(document_of(&reply(true, "null")), Some(Json::Null));
    assert_eq!(document_of(&reply(false, "null")), None);
    assert_eq!(document_of(&reply(true, "nul")), None);
    assert_eq!(document_of(&Err("gone".to_string())), None);
    assert_eq!(readings_for(RefreshStep::Modules, &None), 0);
    assert_eq!(readings_for(RefreshStep::Logs, &Some(Json::Null)), 0);
}
