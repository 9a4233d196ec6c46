use audit_viewer::engine::{
    encode_error, send_error, Container, DatabaseQueryResult, EngineHandle, Payload, QueryEvent,
    QueryStep, Reaction, QUERY_TIMEOUT_NANOS,
};
use audit_viewer::model::AuditData;

fn handle() -> EngineHandle {
    EngineHandle::new("token".to_string(), "audit-viewer".to_string(), "uuid".to_string())
}

fn answer(id: &str) -> DatabaseQueryResult {
    DatabaseQueryResult { query_id: id.to_string(), success: true, result_blob: vec![1, 2] }
}

fn envelope(payload: Payload) -> Container {
    Container {
        version: 1,
        auth_token: "token".to_string(),
        module_name: "audit-viewer".to_string(),
        module_instance_uuid7: "uuid".to_string(),
        payload: Some(payload),
    }
}

#[test]
fn send_payload_fills_the_envelope() {
    let payload = Payload::Log { log: "x".to_string() };
    assert_eq!(handle().send_payload(payload), envelope(Payload::Log { log: "x".to_string() }));
    assert_eq!(handle().clone().send_payload(Payload::Other), envelope(Payload::Other));
}

#[test]
fn db_query_sends_the_query_and_waits_for_its_id() {
    let (container, pending) = handle().db_query("audit_msgs", "SELECT 1");
    assert_eq!(
        container,
        envelope(Payload::DatabaseQuery {
            query_id: "audit_msgs".to_string(),
            sql: "SELECT 1".to_string(),
        })
    );
    assert_eq!(pending.query_id, "audit_msgs");
}

#[test]
fn answers_to_other_queries_are_passed_over() {
    let (_, pending) = handle().db_query("mine", "SELECT 1");
    assert_eq!(pending.on_event(QueryEvent::Answer(answer("other"))), QueryStep::Wait);
    assert_eq!(
        pending.on_event(QueryEvent::Answer(answer("mine"))),
        QueryStep::Done(Ok(answer("mine")))
    );
}

#[test]
fn a_closed_channel_and_a_timeout_end_a_query() {
    let (_, pending) = handle().db_query("mine", "SELECT 1");
    assert_eq!(
        pending.on_event(QueryEvent::Closed),
        QueryStep::Done(Err("query channel closed".to_string()))
    );
    assert_eq!(
        pending.on_event(QueryEvent::TimedOut),
        QueryStep::Done(Err("timed out waiting for 'mine'".to_string()))
    );
}

#[test]
fn a_query_waits_ten_seconds() {
    let (_, pending) = handle().db_query("mine", "SELECT 1");
    assert_eq!(pending.remaining(0), Ok(10_000_000_000));
    assert_eq!(pending.remaining(QUERY_TIMEOUT_NANOS - 1), Ok(1));
    assert_eq!(
        pending.remaining(QUERY_TIMEOUT_NANOS),
        Err("timed out waiting for 'mine'".to_string())
    );
    assert_eq!(pending.remaining(u128::MAX), Err("timed out waiting for 'mine'".to_string()));
}

#[test]
fn a_probe_is_answered_with_the_token() {
    let mut data = AuditData::default();
    let probe = Payload::AuthVerify { cur_auth: "something else".to_string() };
    assert_eq!(
        handle().on_payload(probe, &mut data),
        Reaction::Reply(envelope(Payload::AuthVerify { cur_auth: "token".to_string() }))
    );
    assert_eq!(data, AuditData::default());
}

#[test]
fn answers_are_handed_on() {
    let mut data = AuditData::default();
    let r = handle().on_payload(Payload::DatabaseQueryResult(answer("a")), &mut data);
    assert_eq!(r, Reaction::Forward(answer("a")));
    assert_eq!(data, AuditData::default());
}

#[test]
fn messages_are_logged_with_their_origin() {
    let mut data = AuditData::default();
    let h = handle();
    assert_eq!(h.on_payload(Payload::Log { log: "up".to_string() }, &mut data), Reaction::Nothing);
    assert_eq!(h.on_payload(Payload::Error { log: "bad".to_string() }, &mut data), Reaction::Nothing);
    assert_eq!(
        h.on_payload(Payload::ModuleControlResult { message: "done".to_string() }, &mut data),
        Reaction::Nothing
    );
    assert_eq!(h.on_payload(Payload::Other, &mut data), Reaction::Nothing);
    assert_eq!(data.logs, vec!["[engine] up", "[error] bad", "[module] done"]);
}

#[test]
fn complaints_name_the_reason() {
    assert_eq!(encode_error("too big"), "encode error: too big");
    assert_eq!(send_error("gone"), "send error: gone");
}
