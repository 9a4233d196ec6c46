//! The conversation with the engine: envelopes, queries and live messages.
use vstd::prelude::*;
use vstd::string::*;

use crate::model;
use crate::model::AuditData;
use crate::text;

verus! {

/// The engine's answer to a database query.
#[derive(Debug, PartialEq, Eq)]
pub struct DatabaseQueryResult {
    pub query_id: String,
    pub success: bool,
    pub result_blob: Vec<u8>,
}

impl Clone for DatabaseQueryResult {
    fn clone(&self) -> (r: DatabaseQueryResult)
        ensures
            r.query_id == self.query_id,
            r.success == self.success,
            r.result_blob@ == self.result_blob@,
    {
        let result_blob = self.result_blob.clone();
        assert(result_blob@ =~= self.result_blob@);
        DatabaseQueryResult { query_id: self.query_id.clone(), success: self.success, result_blob }
    }
}

/// A message of the engine's protocol, as far as the viewer reads or writes it.
/// A query is sent without bind parameters.
#[derive(Debug, PartialEq, Eq)]
pub enum Payload {
    AuthVerify { cur_auth: String },
    DatabaseQuery { query_id: String, sql: String },
    DatabaseQueryResult(DatabaseQueryResult),
    Log { log: String },
    Error { log: String },
    ModuleControlResult { message: String },
    Other,
}

/// The envelope around a message.
#[derive(Debug, PartialEq, Eq)]
pub struct Container {
    pub version: u32,
    pub auth_token: String,
    pub module_name: String,
    pub module_instance_uuid7: String,
    pub payload: Option<Payload>,
}

/// Who the viewer is to the engine.
pub struct EngineHandle {
    pub auth_token: String,
    pub module_name: String,
    pub instance_uuid7: String,
}

impl Clone for EngineHandle {
    fn clone(&self) -> (r: EngineHandle)
        ensures
            r == *self,
    {
        EngineHandle {
            auth_token: self.auth_token.clone(),
            module_name: self.module_name.clone(),
            instance_uuid7: self.instance_uuid7.clone(),
        }
    }
}

/// The envelope that `handle` puts around `payload`.
pub open spec fn is_envelope(handle: EngineHandle, payload: Payload, c: Container) -> bool {
    &&& c.version == 1
    &&& c.auth_token@ == handle.auth_token@
    &&& c.module_name@ == handle.module_name@
    &&& c.module_instance_uuid7@ == handle.instance_uuid7@
    &&& c.payload == Some(payload)
}

/// What the viewer does about a message from the engine.
#[derive(Debug, PartialEq, Eq)]
pub enum Reaction {
    /// Send this envelope.
    Reply(Container),
    /// Hand this answer to whoever waits for it.
    Forward(DatabaseQueryResult),
    /// Nothing is sent or handed on.
    Nothing,
}

/// The line that a message adds to the log, if it is one that is logged.
pub open spec fn log_line_of(payload: Payload) -> Option<Seq<char>> {
    match payload {
        Payload::Log { log } => Some("[engine] "@ + log@),
        Payload::Error { log } => Some("[error] "@ + log@),
        Payload::ModuleControlResult { message } => Some("[module] "@ + message@),
        _ => None,
    }
}

/// A message puts the query `sql` under the id `query_id`.
pub open spec fn asks(payload: Payload, query_id: Seq<char>, sql: Seq<char>) -> bool {
    payload matches Payload::DatabaseQuery { query_id: id, sql: s } && id@ == query_id && s@ == sql
}

/// What the viewer does about a message.
pub open spec fn reacts(handle: EngineHandle, payload: Payload, r: Reaction) -> bool {
    match payload {
        Payload::AuthVerify { .. } => {
            &&& r matches Reaction::Reply(c)
            &&& c.payload matches Some(Payload::AuthVerify { cur_auth })
            &&& cur_auth@ == handle.auth_token@
            &&& is_envelope(handle, c.payload->0, c)
        },
        Payload::DatabaseQueryResult(answer) => r == Reaction::Forward(answer),
        _ => r is Nothing,
    }
}

/// The data after a message.
pub open spec fn after_payload(d: model::AuditView, payload: Payload) -> model::AuditView {
    match log_line_of(payload) {
        Some(line) => model::AuditView { logs: model::logged(d.logs, line), ..d },
        None => d,
    }
}

impl EngineHandle {
    /// A handle for a module that the engine has admitted.
    pub fn new(auth_token: String, module_name: String, instance_uuid7: String) -> (r: EngineHandle)
        ensures
            r.auth_token == auth_token,
            r.module_name == module_name,
            r.instance_uuid7 == instance_uuid7,
    {
        EngineHandle { auth_token, module_name, instance_uuid7 }
    }

    /// Puts a message into the envelope in which it is sent.
    pub fn send_payload(&self, payload: Payload) -> (r: Container)
        ensures
            is_envelope(*self, payload, r),
    {
        Container {
            version: 1,
            auth_token: self.auth_token.clone(),
            module_name: self.module_name.clone(),
            module_instance_uuid7: self.instance_uuid7.clone(),
            payload: Some(payload),
        }
    }

    /// Starts a query: the envelope to send, and what to wait for.
    pub fn db_query(&self, query_id: &str, sql: &str) -> (r: (Container, PendingQuery))
        ensures
            r.0.payload matches Some(Payload::DatabaseQuery { query_id: id, sql: s }) && id@
                == query_id@ && s@ == sql@,
            is_envelope(*self, r.0.payload->0, r.0),
            r.1.query_id@ == query_id@,
            r.0.payload is Some && asks(r.0.payload->0, query_id@, sql@),
    {
        let query = Payload::DatabaseQuery { query_id: query_id.to_string(), sql: sql.to_string() };
        (self.send_payload(query), PendingQuery { query_id: query_id.to_string() })
    }

    /// Handles a message from the engine: a liveness probe is answered with the
    /// token, an answer is handed on, and what is to be logged is logged.
    pub fn on_payload(&self, payload: Payload, data: &mut AuditData) -> (r: Reaction)
        ensures
            match payload {
                Payload::AuthVerify { .. } => {
                    &&& r matches Reaction::Reply(c)
                    &&& c.payload matches Some(Payload::AuthVerify { cur_auth })
                    &&& cur_auth@ == self.auth_token@
                    &&& is_envelope(*self, c.payload->0, c)
                },
                Payload::DatabaseQueryResult(answer) => r == Reaction::Forward(answer),
                _ => r is Nothing,
            },
            match log_line_of(payload) {
                Some(line) => final(data)@ == (model::AuditView {
                    logs: model::logged(old(data)@.logs, line),
                    ..old(data)@
                }),
                None => *final(data) == *old(data),
            },
            reacts(*self, payload, r),
            final(data)@ == after_payload(old(data)@, payload),
    {
        match payload {
            Payload::AuthVerify { .. } => {
                Reaction::Reply(
                    self.send_payload(Payload::AuthVerify { cur_auth: self.auth_token.clone() }),
                )
            },
            Payload::DatabaseQueryResult(answer) => Reaction::Forward(answer),
            Payload::Log { log } => {
                data.push_log("[engine] ".to_string().concat(log.as_str()));
                Reaction::Nothing
            },
            Payload::Error { log } => {
                data.push_log("[error] ".to_string().concat(log.as_str()));
                Reaction::Nothing
            },
            Payload::ModuleControlResult { message } => {
                data.push_log("[module] ".to_string().concat(message.as_str()));
                Reaction::Nothing
            },
            _ => Reaction::Nothing,
        }
    }
}

/// What is said about an envelope that could not be encoded.
pub open spec fn encode_complaint(reason: Seq<char>) -> Seq<char> {
    "encode error: "@ + reason
}

/// What is said about an envelope that could not be sent.
pub open spec fn send_complaint(reason: Seq<char>) -> Seq<char> {
    "send error: "@ + reason
}

/// The complaint about an envelope that could not be encoded.
pub fn encode_error(reason: &str) -> (r: String)
    ensures
        r@ == "encode error: "@ + reason@,
        r@ == encode_complaint(reason@),
{
    "encode error: ".to_string().concat(reason)
}

/// The complaint about an envelope that could not be sent.
pub fn send_error(reason: &str) -> (r: String)
    ensures
        r@ == "send error: "@ + reason@,
        r@ == send_complaint(reason@),
{
    "send error: ".to_string().concat(reason)
}

/// How long an answer is waited for, in nanoseconds.
pub const QUERY_TIMEOUT_NANOS: u128 = 10_000_000_000;

/// A query that was sent and whose answer is outstanding.
#[derive(Debug, PartialEq, Eq)]
pub struct PendingQuery {
    pub query_id: String,
}

/// What can come of waiting for an answer.
#[derive(Debug, PartialEq, Eq)]
pub enum QueryEvent {
    /// An answer arrived, to this query or to another.
    Answer(DatabaseQueryResult),
    /// No answer will arrive any more, or some were missed.
    Closed,
    /// The wait ended without anything.
    TimedOut,
}

/// What to do after an event.
#[derive(Debug, PartialEq, Eq)]
pub enum QueryStep {
    /// Go on waiting.
    Wait,
    /// The query is over, with this outcome.
    Done(Result<DatabaseQueryResult, String>),
}

/// A [`QueryStep`], with the error as its characters.
pub enum QueryStepView {
    Wait,
    Answered(DatabaseQueryResult),
    Failed(Seq<char>),
}

impl View for QueryStep {
    type V = QueryStepView;

    open spec fn view(&self) -> QueryStepView {
        match self {
            QueryStep::Wait => QueryStepView::Wait,
            QueryStep::Done(Ok(answer)) => QueryStepView::Answered(*answer),
            QueryStep::Done(Err(e)) => QueryStepView::Failed(e@),
        }
    }
}

/// The nanoseconds left to wait when `elapsed` of them have passed; none when the
/// time is up.
pub open spec fn time_left(elapsed: int) -> Option<int> {
    if elapsed < QUERY_TIMEOUT_NANOS {
        Some(QUERY_TIMEOUT_NANOS - elapsed)
    } else {
        None
    }
}

/// The complaint about an answer that did not come in time.
pub open spec fn timeout_text(query_id: Seq<char>) -> Seq<char> {
    "timed out waiting for '"@ + query_id + "'"@
}

/// What an event means for the query `query_id`.
pub open spec fn query_step(query_id: Seq<char>, event: QueryEvent) -> QueryStepView {
    match event {
        QueryEvent::Answer(answer) => if answer.query_id@ == query_id {
            QueryStepView::Answered(answer)
        } else {
            QueryStepView::Wait
        },
        QueryEvent::Closed => QueryStepView::Failed("query channel closed"@),
        QueryEvent::TimedOut => QueryStepView::Failed(timeout_text(query_id)),
    }
}

impl PendingQuery {
    /// The nanoseconds left to wait when `elapsed` of them have passed since
    /// the query was sent; an error when none are.
    pub fn remaining(&self, elapsed: u128) -> (r: Result<u128, String>)
        ensures
            match r {
                Ok(left) => elapsed < QUERY_TIMEOUT_NANOS && left == QUERY_TIMEOUT_NANOS - elapsed,
                Err(e) => elapsed >= QUERY_TIMEOUT_NANOS && e@ == timeout_text(self.query_id@),
            },
            time_left(elapsed as int) == (match r {
                Ok(left) => Some(left as int),
                Err(_) => None,
            }),
    {
        if elapsed >= QUERY_TIMEOUT_NANOS {
            Err(self.timeout_error())
        } else {
            Ok(QUERY_TIMEOUT_NANOS - elapsed)
        }
    }

    /// What an event means: only an answer that bears the query's own id is its
    /// answer, and any other is passed over.
    pub fn on_event(&self, event: QueryEvent) -> (r: QueryStep)
        ensures
            r@ == query_step(self.query_id@, event),
    {
        match event {
            QueryEvent::Answer(answer) => {
                if text::same_text(answer.query_id.as_str(), self.query_id.as_str()) {
                    QueryStep::Done(Ok(answer))
                } else {
                    QueryStep::Wait
                }
            },
            QueryEvent::Closed => QueryStep::Done(Err("query channel closed".to_string())),
            QueryEvent::TimedOut => QueryStep::Done(Err(self.timeout_error())),
        }
    }

    fn timeout_error(&self) -> (r: String)
        ensures
            r@ == timeout_text(self.query_id@),
    {
        "timed out waiting for '".to_string().concat(self.query_id.as_str()).concat("'")
    }
}

/// What has become of a query after `events`, in the order in which they came.
pub open spec fn query_outcome(query_id: Seq<char>, events: Seq<QueryEvent>) -> QueryStepView
    decreases events.len(),
{
    if events.len() == 0 {
        QueryStepView::Wait
    } else {
        match query_step(query_id, events[0]) {
            QueryStepView::Wait => query_outcome(query_id, events.skip(1)),
            over => over,
        }
    }
}

/// Answers to other queries are passed over: the first event of another kind
/// decides, whatever comes after it.
pub proof fn first_own_event_decides(query_id: Seq<char>, events: Seq<QueryEvent>, k: int)
    requires
        0 <= k < events.len(),
        forall|i: int|
            0 <= i < k ==> (#[trigger] events[i] matches QueryEvent::Answer(a) && a.query_id@
                != query_id),
        !(events[k] matches QueryEvent::Answer(a) && a.query_id@ != query_id),
    ensures
        query_outcome(query_id, events) == query_step(query_id, events[k]),
        query_outcome(query_id, events) !is Wait,
    decreases k,
{
    if k > 0 {
        assert(events[0] matches QueryEvent::Answer(a) && a.query_id@ != query_id);
        let rest = events.skip(1);
        assert forall|i: int| 0 <= i < k - 1 implies (#[trigger] rest[i] matches QueryEvent::Answer(
            a,
        ) && a.query_id@ != query_id) by {
            assert(rest[i] == events[i + 1]);
        }
        first_own_event_decides(query_id, rest, k - 1);
    }
}

/// A query is answered only by an answer that bears its id and arrived.
pub proof fn answer_is_its_own(query_id: Seq<char>, events: Seq<QueryEvent>, answer: DatabaseQueryResult)
    requires
        query_outcome(query_id, events) == QueryStepView::Answered(answer),
    ensures
        answer.query_id@ == query_id,
        events.contains(QueryEvent::Answer(answer)),
    decreases events.len(),
{
    if query_step(query_id, events[0]) is Wait {
        let rest = events.skip(1);
        answer_is_its_own(query_id, rest, answer);
        let i = choose|i: int| 0 <= i < rest.len() && rest[i] == QueryEvent::Answer(answer);
        assert(events[i + 1] == rest[i]);
    } else {
        assert(events[0] == QueryEvent::Answer(answer));
    }
}

/// An envelope tells whose it is and what it holds: all of the handle's token,
/// name and instance, and the message itself.
pub proof fn envelope_tells_its_sender(handle: EngineHandle, payload: Payload, c: Container)
    requires
        is_envelope(handle, payload, c),
    ensures
        c.version == 1,
        handle.auth_token@ == c.auth_token@,
        handle.module_name@ == c.module_name@,
        handle.instance_uuid7@ == c.module_instance_uuid7@,
        c.payload == Some(payload),
{
}

/// Two senders or two messages never share an envelope.
pub proof fn envelopes_differ(
    a: EngineHandle,
    b: EngineHandle,
    p: Payload,
    q: Payload,
    c: Container,
)
    requires
        is_envelope(a, p, c),
        is_envelope(b, q, c),
    ensures
        p == q,
        a.auth_token@ == b.auth_token@,
        a.module_name@ == b.module_name@,
        a.instance_uuid7@ == b.instance_uuid7@,
{
}

/// A logged message ends its line whole, behind the mark of where it came from.
pub proof fn log_line_holds_the_message(text: String)
    ensures
        log_line_of(Payload::Log { log: text }) matches Some(line) && line.take(9)
            == "[engine] "@ && line.skip(9) == text@,
        log_line_of(Payload::Error { log: text }) matches Some(line) && line.take(8) == "[error] "@
            && line.skip(8) == text@,
        log_line_of(Payload::ModuleControlResult { message: text }) matches Some(line)
            && line.take(9) == "[module] "@ && line.skip(9) == text@,
{
    reveal_strlit("[engine] ");
    reveal_strlit("[error] ");
    reveal_strlit("[module] ");
    assert(("[engine] "@ + text@).take(9) =~= "[engine] "@);
    assert(("[engine] "@ + text@).skip(9) =~= text@);
    assert(("[error] "@ + text@).take(8) =~= "[error] "@);
    assert(("[error] "@ + text@).skip(8) =~= text@);
    assert(("[module] "@ + text@).take(9) =~= "[module] "@);
    assert(("[module] "@ + text@).skip(9) =~= text@);
}

/// Nothing but what an engine or a module says is logged.
pub proof fn only_reports_are_logged(payload: Payload)
    ensures
        log_line_of(payload) is Some <==> (payload is Log || payload is Error
            || payload is ModuleControlResult),
{
}

/// An answer with the query's id is its answer, whatever it carries, and one
/// with another id never is.
pub proof fn own_answer_is_taken(query_id: Seq<char>, answer: DatabaseQueryResult)
    ensures
        answer.query_id@ == query_id ==> query_step(query_id, QueryEvent::Answer(answer))
            == QueryStepView::Answered(answer),
        answer.query_id@ != query_id ==> query_step(query_id, QueryEvent::Answer(answer))
            == QueryStepView::Wait,
{
}

/// The first answer with the query's id is its outcome, whatever it carries and
/// however many answers to other queries came before it.
pub proof fn first_own_answer_is_the_outcome(
    query_id: Seq<char>,
    events: Seq<QueryEvent>,
    k: int,
    answer: DatabaseQueryResult,
)
    requires
        0 <= k < events.len(),
        forall|i: int|
            0 <= i < k ==> (#[trigger] events[i] matches QueryEvent::Answer(a) && a.query_id@
                != query_id),
        events[k] == QueryEvent::Answer(answer),
        answer.query_id@ == query_id,
    ensures
        query_outcome(query_id, events) == QueryStepView::Answered(answer),
{
    first_own_event_decides(query_id, events, k);
    own_answer_is_taken(query_id, answer);
}

/// A query without an answer of its own is open until the wait ends or the
/// answers stop, and fails then; it never succeeds.
pub proof fn without_own_answer_nothing_is_answered(query_id: Seq<char>, events: Seq<QueryEvent>)
    requires
        forall|i: int|
            0 <= i < events.len() ==> !(#[trigger] events[i] matches QueryEvent::Answer(a)
                && a.query_id@ == query_id),
    ensures
        query_outcome(query_id, events) !is Answered,
        query_outcome(query_id, events) is Wait <==> forall|i: int|
            0 <= i < events.len() ==> (#[trigger] events[i]) is Answer,
    decreases events.len(),
{
    if events.len() > 0 {
        let rest = events.skip(1);
        assert forall|i: int| 0 <= i < rest.len() implies !(
        #[trigger] rest[i] matches QueryEvent::Answer(a) && a.query_id@ == query_id) by {
            assert(rest[i] == events[i + 1]);
        }
        without_own_answer_nothing_is_answered(query_id, rest);
        assert(!(events[0] matches QueryEvent::Answer(a) && a.query_id@ == query_id));
        if events[0] is Answer {
            own_answer_is_taken(query_id, events[0]->Answer_0);
            if forall|i: int| 0 <= i < rest.len() ==> (#[trigger] rest[i]) is Answer {
                assert forall|i: int| 0 <= i < events.len() implies (#[trigger] events[i]) is Answer by {
                    if i > 0 {
                        assert(rest[i - 1] is Answer);
                    }
                }
            }
            if forall|i: int| 0 <= i < events.len() ==> (#[trigger] events[i]) is Answer {
                assert forall|i: int| 0 <= i < rest.len() implies (#[trigger] rest[i]) is Answer by {
                    assert(events[i + 1] is Answer);
                }
            }
        }
    }
}

/// A query that ends without an answer says why, and after a timeout which
/// query it was.
pub proof fn failure_tells_its_reason(query_id: Seq<char>)
    ensures
        query_step(query_id, QueryEvent::Closed) == QueryStepView::Failed(
            "query channel closed"@,
        ),
        query_step(query_id, QueryEvent::TimedOut) matches QueryStepView::Failed(e) && {
            &&& e.len() == 24 + query_id.len()
            &&& e.take(23) == "timed out waiting for '"@
            &&& e.subrange(23, 23 + query_id.len() as int) == query_id
            &&& e.last() == '\''
        },
{
    reveal_strlit("timed out waiting for '");
    reveal_strlit("'");
    let e = timeout_text(query_id);
    assert(e.take(23) =~= "timed out waiting for '"@);
    assert(e.subrange(23, 23 + query_id.len() as int) =~= query_id);
}

/// The view of a step keeps the answer or the error.
pub proof fn step_view_keeps_the_outcome(answer: DatabaseQueryResult, error: String)
    ensures
        QueryStep::Wait@ == QueryStepView::Wait,
        QueryStep::Done(Ok(answer))@ == QueryStepView::Answered(answer),
        QueryStep::Done(Err(error))@ == QueryStepView::Failed(error@),
{
}

/// A liveness probe is answered with the handle's own token, in its envelope
/// and in the message, whatever token the probe held.
pub proof fn probe_is_answered_with_the_token(handle: EngineHandle, probe: String, r: Reaction)
    requires
        reacts(handle, Payload::AuthVerify { cur_auth: probe }, r),
    ensures
        r matches Reaction::Reply(c) && c.auth_token@ == handle.auth_token@ && c.module_name@
            == handle.module_name@ && c.module_instance_uuid7@ == handle.instance_uuid7@
            && c.version == 1 && (c.payload matches Some(Payload::AuthVerify { cur_auth })
            && cur_auth@ == handle.auth_token@),
{
}

/// An answer is handed on as it came, and nothing else is handed on or sent.
pub proof fn answers_are_handed_on_whole(
    handle: EngineHandle,
    payload: Payload,
    answer: DatabaseQueryResult,
    r: Reaction,
)
    requires
        reacts(handle, payload, r),
    ensures
        r == Reaction::Forward(answer) <==> payload == Payload::DatabaseQueryResult(answer),
        r is Reply <==> payload is AuthVerify,
{
}

/// A message adds at most one line to the log and changes nothing else.
pub proof fn message_changes_the_log_alone(d: model::AuditView, payload: Payload)
    ensures
        ({
            let after = after_payload(d, payload);
            &&& after.messages == d.messages
            &&& after.errors == d.errors
            &&& after.audit == d.audit
            &&& after.modules == d.modules
            &&& after.connected == d.connected
            &&& after.last_refresh == d.last_refresh
            &&& payload is AuthVerify || payload is DatabaseQuery || payload is DatabaseQueryResult
                || payload is Other ==> after.logs == d.logs
            &&& d.logs.len() < model::LOG_LIMIT ==> after.logs.len() <= d.logs.len() + 1
        }),
{
}

/// What the engine says becomes the newest line of the log, whole.
pub proof fn report_is_the_newest_line(d: model::AuditView, text: String)
    ensures
        after_payload(d, Payload::Log { log: text }).logs.last() == "[engine] "@ + text@,
        after_payload(d, Payload::Error { log: text }).logs.last() == "[error] "@ + text@,
        after_payload(d, Payload::ModuleControlResult { message: text }).logs.last()
            == "[module] "@ + text@,
{
}

/// The lines that were in the log before a report stay in order before it, but
/// for the oldest of a full log.
pub proof fn report_keeps_the_older_lines(d: model::AuditView, payload: Payload)
    requires
        payload is Log || payload is Error || payload is ModuleControlResult,
    ensures
        d.logs.len() < 400 ==> after_payload(d, payload).logs.drop_last() == d.logs,
        d.logs.len() >= 400 ==> after_payload(d, payload).logs.drop_last() == d.logs.skip(1),
{
    model::older_lines_keep_their_order(d.logs, log_line_of(payload)->0);
}

/// The time that has passed and the time that is left make up ten seconds, and
/// none is left only when ten seconds have passed.
pub proof fn wait_lasts_ten_seconds(elapsed: int)
    ensures
        time_left(elapsed) matches Some(left) ==> left > 0 && elapsed + left == 10_000_000_000,
        time_left(elapsed) is None <==> elapsed >= 10_000_000_000,
{
}

/// A complaint ends with its reason, whole.
pub proof fn complaints_give_the_whole_reason(reason: Seq<char>)
    ensures
        encode_complaint(reason).take(14) == "encode error: "@,
        encode_complaint(reason).skip(14) == reason,
        send_complaint(reason).take(12) == "send error: "@,
        send_complaint(reason).skip(12) == reason,
{
    reveal_strlit("encode error: ");
    reveal_strlit("send error: ");
    assert(encode_complaint(reason).take(14) =~= "encode error: "@);
    assert(encode_complaint(reason).skip(14) =~= reason);
    assert(send_complaint(reason).take(12) =~= "send error: "@);
    assert(send_complaint(reason).skip(12) =~= reason);
}

/// A query is sent whole: one message cannot put two queries, or one query under
/// two ids.
pub proof fn queries_are_sent_whole(
    payload: Payload,
    id_a: Seq<char>,
    sql_a: Seq<char>,
    id_b: Seq<char>,
    sql_b: Seq<char>,
)
    requires
        asks(payload, id_a, sql_a),
        asks(payload, id_b, sql_b),
    ensures
        id_a == id_b,
        sql_a == sql_b,
        payload matches Payload::DatabaseQuery { query_id, sql } && query_id@ == id_a && sql@
            == sql_a,
{
}

}
