//! Refreshing the viewer: five queries, each with its own part of the data.
use vstd::prelude::*;
use vstd::string::*;

use crate::clock;
use crate::engine::DatabaseQueryResult;
use crate::json;
use crate::json::{Json, JsonView};
use crate::model;
use crate::model::{AuditData, AuditView, Row, RowView};

verus! {

/// One query of a refresh.
#[derive(Clone, Copy, Debug, PartialEq, Eq, Structural)]
pub enum RefreshStep {
    /// Recent chat messages with their pipeline status.
    Messages,
    /// Rows with an error, or that failed.
    Errors,
    /// Messages held for audit.
    Held,
    /// Recent archival rows: module connects, module logs, sends.
    Logs,
    /// The list of modules, a query that the engine answers without a database.
    Modules,
}

/// The id under which a step's query is sent.
pub open spec fn query_id_of(step: RefreshStep) -> Seq<char> {
    match step {
        RefreshStep::Messages => "audit_msgs"@,
        RefreshStep::Errors => "audit_err"@,
        RefreshStep::Held => "audit_held"@,
        RefreshStep::Logs => "audit_logs"@,
        RefreshStep::Modules => "module_list"@,
    }
}

/// The text of a step's query.
pub open spec fn sql_of(step: RefreshStep) -> Seq<char> {
    match step {
        RefreshStep::Messages => "SELECT platform, raw_message, user_uuid7, pipeline_status, error_message, persisted_at FROM timeline_events WHERE event_type = 1 ORDER BY persisted_at DESC LIMIT 60"@,
        RefreshStep::Errors => "SELECT platform, raw_message, pipeline_status, error_message, persisted_at FROM timeline_events WHERE (error_message IS NOT NULL AND error_message != '') OR pipeline_status = 'failed' ORDER BY persisted_at DESC LIMIT 40"@,
        RefreshStep::Held => "SELECT platform, raw_message, pipeline_status, persisted_at FROM timeline_events WHERE pipeline_status = 'audit' ORDER BY persisted_at DESC LIMIT 40"@,
        RefreshStep::Logs => "SELECT raw_message, flags, persisted_at FROM timeline_events WHERE event_type = 5 ORDER BY persisted_at DESC LIMIT 40"@,
        RefreshStep::Modules => "SELECT 1"@,
    }
}

/// The step that follows, if any.
pub open spec fn step_after(step: RefreshStep) -> Option<RefreshStep> {
    match step {
        RefreshStep::Messages => Some(RefreshStep::Errors),
        RefreshStep::Errors => Some(RefreshStep::Held),
        RefreshStep::Held => Some(RefreshStep::Logs),
        RefreshStep::Logs => Some(RefreshStep::Modules),
        RefreshStep::Modules => None,
    }
}

impl RefreshStep {
    /// The step with which a refresh begins.
    pub fn first() -> (r: RefreshStep)
        ensures
            r == RefreshStep::Messages,
    {
        RefreshStep::Messages
    }

    /// The step that follows, whatever came of this one.
    pub fn next(self) -> (r: Option<RefreshStep>)
        ensures
            r == step_after(self),
    {
        match self {
            RefreshStep::Messages => Some(RefreshStep::Errors),
            RefreshStep::Errors => Some(RefreshStep::Held),
            RefreshStep::Held => Some(RefreshStep::Logs),
            RefreshStep::Logs => Some(RefreshStep::Modules),
            RefreshStep::Modules => None,
        }
    }

    /// The id under which the query is sent.
    pub fn query_id(self) -> (r: &'static str)
        ensures
            r@ == query_id_of(self),
    {
        match self {
            RefreshStep::Messages => "audit_msgs",
            RefreshStep::Errors => "audit_err",
            RefreshStep::Held => "audit_held",
            RefreshStep::Logs => "audit_logs",
            RefreshStep::Modules => "module_list",
        }
    }

    /// The text of the query.
    pub fn sql(self) -> (r: &'static str)
        ensures
            r@ == sql_of(self),
    {
        match self {
            RefreshStep::Messages => "SELECT platform, raw_message, user_uuid7, pipeline_status, error_message, persisted_at FROM timeline_events WHERE event_type = 1 ORDER BY persisted_at DESC LIMIT 60",
            RefreshStep::Errors => "SELECT platform, raw_message, pipeline_status, error_message, persisted_at FROM timeline_events WHERE (error_message IS NOT NULL AND error_message != '') OR pipeline_status = 'failed' ORDER BY persisted_at DESC LIMIT 40",
            RefreshStep::Held => "SELECT platform, raw_message, pipeline_status, persisted_at FROM timeline_events WHERE pipeline_status = 'audit' ORDER BY persisted_at DESC LIMIT 40",
            RefreshStep::Logs => "SELECT raw_message, flags, persisted_at FROM timeline_events WHERE event_type = 5 ORDER BY persisted_at DESC LIMIT 40",
            RefreshStep::Modules => "SELECT 1",
        }
    }
}

/// How often a step reads the clock: once for each record of a timeline, and
/// twice for the list of modules, when it arrives and when its age is taken.
pub open spec fn readings_needed(step: RefreshStep, document: JsonView) -> nat {
    match step {
        RefreshStep::Modules => 2,
        _ => match json::items_of(document) {
            Some(items) => items.len(),
            None => 0,
        },
    }
}

/// The rows of a document that is an array of records, each with its age at its
/// own moment; none of any other.
pub open spec fn rows_of(moments: Seq<i64>, document: JsonView) -> Seq<RowView> {
    match json::items_of(document) {
        Some(items) => Seq::new(
            items.len(),
            |i: int| model::row_of(moments[i] as int, items[i]),
        ),
        None => Seq::empty(),
    }
}

/// The kind of an archival row, which its flags may name; empty where they do not.
pub open spec fn kind_of(flags: Option<JsonView>) -> Seq<char> {
    match flags {
        Some(flags) => json::member_text(flags, "kind"@),
        None => Seq::empty(),
    }
}

/// The log line of an archival row, given what its flags parse to.
pub open spec fn archive_line(now: int, record: JsonView, flags: Option<JsonView>) -> Seq<char> {
    let kind = kind_of(flags);
    "["@ + model::record_age(now, record) + " "@ + (if kind.len() == 0 {
        "archive"@
    } else {
        kind
    }) + "] "@ + json::member_text(record, "raw_message"@)
}

/// The log line of an archival row.
pub open spec fn log_line(now: int, record: JsonView) -> Seq<char> {
    archive_line(now, record, json::json_of_text(json::member_text(record, "flags"@)))
}

/// The log lines of archival rows, each with its age at its own moment.
pub open spec fn log_lines(moments: Seq<i64>, records: Seq<JsonView>) -> Seq<Seq<char>> {
    Seq::new(records.len(), |i: int| log_line(moments[i] as int, records[i]))
}

/// The data after a step's query was answered with `document`.
pub open spec fn refreshed(
    moments: Seq<i64>,
    step: RefreshStep,
    document: JsonView,
    d: AuditView,
) -> AuditView {
    match step {
        RefreshStep::Messages => AuditView { messages: rows_of(moments, document), ..d },
        RefreshStep::Errors => AuditView { errors: rows_of(moments, document), ..d },
        RefreshStep::Held => AuditView { audit: rows_of(moments, document), ..d },
        RefreshStep::Logs => match json::items_of(document) {
            Some(records) => AuditView { logs: log_lines(moments, records), ..d },
            None => d,
        },
        RefreshStep::Modules => AuditView {
            modules: match json::items_of(document) {
                Some(items) => items,
                None => Seq::empty(),
            },
            connected: true,
            last_refresh: Some(clock::age_text(moments[1] as int, moments[0] as int)),
            ..d
        },
    }
}

/// The age of every record at its moment can be worked out.
pub open spec fn record_ages_fit(moments: Seq<i64>, records: Seq<JsonView>) -> bool {
    forall|i: int|
        0 <= i < records.len() ==> model::record_age_fits(moments[i] as int, #[trigger] records[i])
}

/// Every age that a step works out from `document` can be worked out.
pub open spec fn ages_fit(moments: Seq<i64>, step: RefreshStep, document: JsonView) -> bool {
    match step {
        RefreshStep::Modules => clock::span_fits(moments[1] as int, moments[0] as int),
        _ => match json::items_of(document) {
            Some(items) => record_ages_fit(moments, items),
            None => true,
        },
    }
}

/// What came of an answer.
#[derive(Clone, Copy, Debug, PartialEq, Eq, Structural)]
pub enum Refreshed {
    /// The step's part of the data is up to date.
    Updated,
    /// The query failed, or its answer is not such a document: nothing changed.
    Unchanged,
    /// Something lies further from the clock than an age can tell: nothing changed.
    AgeOverflow,
}

fn rows_from_json(moments: &Vec<i64>, document: &Json) -> (rows: Vec<Row>)
    requires
        moments@.len() >= readings_needed(RefreshStep::Messages, document@),
        ages_fit(moments@, RefreshStep::Messages, document@),
    ensures
        model::rows_view(rows@) == rows_of(moments@, document@),
{
    let mut rows: Vec<Row> = Vec::new();
    match document {
        Json::Array(items) => {
            let ghost parts = document@->Array_0;
            proof {
                json::array_view(*document);
                assert(json::items_of(document@) == Some(parts));
            }
            for i in 0..items.len()
                invariant
                    record_ages_fit(moments@, parts),
                    moments@.len() >= parts.len(),
                    parts.len() == items@.len(),
                    forall|j: int| 0 <= j < items@.len() ==> parts[j] == (#[trigger] items@[j])@,
                    rows@.len() == i,
                    forall|j: int|
                        0 <= j < i ==> (#[trigger] rows@[j])@ == model::row_of(
                            moments@[j] as int,
                            parts[j],
                        ),
            {
                assert(parts[i as int] == items@[i as int]@);
                rows.push(model::row_from_json(moments[i], &items[i]));
            }
        },
        _ => {},
    }
    assert(model::rows_view(rows@) =~= rows_of(moments@, document@));
    rows
}

/// The kind that the parsed flags of an archival row name.
pub fn kind_from_flags(flags: &Option<Json>) -> (r: String)
    ensures
        r@ == kind_of(
            match flags {
                Some(f) => Some(f@),
                None => None,
            },
        ),
{
    match flags {
        Some(flags) => json::member_cell(flags, "kind"),
        None => String::new(),
    }
}

/// Writes the log line of an archival row whose flags parse to `flags`.
pub fn archive_line_text(now: i64, record: &Json, flags: &Option<Json>) -> (r: String)
    requires
        model::record_age_fits(now as int, record@),
    ensures
        r@ == archive_line(
            now as int,
            record@,
            match flags {
                Some(f) => Some(f@),
                None => None,
            },
        ),
{
    let message = json::member_cell(record, "raw_message");
    let age = clock::rel_time(now, json::member_i64(record, "persisted_at"));
    let kind = kind_from_flags(flags);
    let shown = if kind.as_str().is_empty() {
        "archive"
    } else {
        kind.as_str()
    };
    "[".to_string().concat(age.as_str()).concat(" ").concat(shown).concat("] ").concat(
        message.as_str(),
    )
}

/// Writes the log line of an archival row.
pub fn log_line_text(now: i64, record: &Json) -> (r: String)
    requires
        model::record_age_fits(now as int, record@),
    ensures
        r@ == log_line(now as int, record@),
{
    let flags = json::member_cell(record, "flags");
    archive_line_text(now, record, &json::parse_text(flags.as_str()))
}

/// Tells whether every age that a step works out from `document` is known.
pub fn ages_are_known(moments: &Vec<i64>, step: RefreshStep, document: &Json) -> (r: bool)
    requires
        moments@.len() >= readings_needed(step, document@),
    ensures
        r == ages_fit(moments@, step, document@),
{
    match step {
        RefreshStep::Modules => clock::age_is_known(moments[1], Some(moments[0])),
        _ => match document {
            Json::Array(items) => {
                let ghost parts = document@->Array_0;
                proof {
                    json::array_view(*document);
                }
                for i in 0..items.len()
                    invariant
                        step != RefreshStep::Modules,
                        json::items_of(document@) == Some(parts),
                        moments@.len() >= parts.len(),
                        parts.len() == items@.len(),
                        forall|j: int|
                            0 <= j < items@.len() ==> parts[j] == (#[trigger] items@[j])@,
                        forall|j: int|
                            0 <= j < i ==> model::record_age_fits(
                                moments@[j] as int,
                                #[trigger] parts[j],
                            ),
                {
                    assert(parts[i as int] == items@[i as int]@);
                    if !clock::age_is_known(moments[i], json::member_i64(&items[i], "persisted_at")) {
                        return false;
                    }
                }
                true
            },
            _ => true,
        },
    }
}

/// Takes the document that answers a step's query into the data.
pub fn apply_document(
    moments: &Vec<i64>,
    step: RefreshStep,
    document: Json,
    data: &mut AuditData,
) -> (r: Refreshed)
    requires
        moments@.len() >= readings_needed(step, document@),
        ages_fit(moments@, step, document@),
    ensures
        final(data)@ == refreshed(moments@, step, document@, old(data)@),
        r == (if step == RefreshStep::Logs && json::items_of(document@) is None {
            Refreshed::Unchanged
        } else {
            Refreshed::Updated
        }),
{
    match step {
        RefreshStep::Messages => {
            data.messages = rows_from_json(moments, &document);
            Refreshed::Updated
        },
        RefreshStep::Errors => {
            data.errors = rows_from_json(moments, &document);
            Refreshed::Updated
        },
        RefreshStep::Held => {
            data.audit = rows_from_json(moments, &document);
            Refreshed::Updated
        },
        RefreshStep::Logs => {
            match &document {
                Json::Array(records) => {
                    let ghost parts = document@->Array_0;
                    proof {
                        json::array_view(document);
                    }
                    let mut lines: Vec<String> = Vec::new();
                    for i in 0..records.len()
                        invariant
                            record_ages_fit(moments@, parts),
                            moments@.len() >= parts.len(),
                            parts.len() == records@.len(),
                            forall|j: int|
                                0 <= j < records@.len() ==> parts[j] == (#[trigger] records@[j])@,
                            lines@.len() == i,
                            forall|j: int|
                                0 <= j < i ==> (#[trigger] lines@[j])@ == log_line(
                                    moments@[j] as int,
                                    parts[j],
                                ),
                    {
                        assert(parts[i as int] == records@[i as int]@);
                        lines.push(log_line_text(moments[i], &records[i]));
                    }
                    assert(model::lines_view(lines@) =~= log_lines(moments@, parts));
                    data.logs = lines;
                    Refreshed::Updated
                },
                _ => Refreshed::Unchanged,
            }
        },
        RefreshStep::Modules => {
            let ghost whole = document;
            data.modules = match document {
                Json::Array(items) => {
                    proof {
                        json::array_view(whole);
                        assert(model::documents_view(items@) =~= whole@->Array_0);
                    }
                    items
                },
                _ => Vec::new(),
            };
            assert(whole !is Array ==> data@.modules =~= Seq::empty());
            data.connected = true;
            data.last_refresh = Some(clock::rel_time(moments[1], Some(moments[0])));
            Refreshed::Updated
        },
    }
}

/// The document in an answer: there is one where the query succeeded and
/// brought JSON.
pub open spec fn document_in(reply: Result<DatabaseQueryResult, String>) -> Option<JsonView> {
    match reply {
        Ok(answer) => if answer.success {
            json::json_of_bytes(answer.result_blob@)
        } else {
            None
        },
        Err(_) => None,
    }
}

/// What comes of the document that answers a step's query, if there is one, and
/// what it makes of the data.
pub open spec fn document_effect(
    moments: Seq<i64>,
    step: RefreshStep,
    document: Option<JsonView>,
    d: AuditView,
) -> (Refreshed, AuditView) {
    match document {
        Some(document) => if !ages_fit(moments, step, document) {
            (Refreshed::AgeOverflow, d)
        } else if step == RefreshStep::Logs && json::items_of(document) is None {
            (Refreshed::Unchanged, d)
        } else {
            (Refreshed::Updated, refreshed(moments, step, document, d))
        },
        None => (Refreshed::Unchanged, d),
    }
}

/// What comes of the answer to a step's query, and what it makes of the data.
pub open spec fn reply_effect(
    moments: Seq<i64>,
    step: RefreshStep,
    reply: Result<DatabaseQueryResult, String>,
    d: AuditView,
) -> (Refreshed, AuditView) {
    document_effect(moments, step, document_in(reply), d)
}

/// Reads the document in an answer.
pub fn document_of(reply: &Result<DatabaseQueryResult, String>) -> (r: Option<Json>)
    ensures
        document_in(*reply) == (match r {
            Some(document) => Some(document@),
            None => None,
        }),
        r matches Some(document) ==> json::well_formed(document@),
{
    match reply {
        Ok(answer) => if answer.success {
            json::parse_bytes(answer.result_blob.as_slice())
        } else {
            None
        },
        Err(_) => None,
    }
}

/// How often the clock is read for a step's document.
pub fn readings_for(step: RefreshStep, document: &Option<Json>) -> (r: usize)
    ensures
        r == (match document {
            Some(document) => readings_needed(step, document@),
            None => 0,
        }),
{
    match document {
        Some(document) => match step {
            RefreshStep::Modules => 2,
            _ => match document {
                Json::Array(items) => {
                    proof {
                        json::array_view(*document);
                    }
                    items.len()
                },
                _ => 0,
            },
        },
        None => 0,
    }
}

/// Takes the document that answers a step's query, if there is one, into the
/// data; `moments` are the clock's readings, in the order in which they are used.
pub fn refresh_at(
    moments: &Vec<i64>,
    step: RefreshStep,
    document: Option<Json>,
    data: &mut AuditData,
) -> (r: Refreshed)
    requires
        document matches Some(document) ==> moments@.len() >= readings_needed(step, document@),
    ensures
        (r, final(data)@) == document_effect(
            moments@,
            step,
            match document {
                Some(document) => Some(document@),
                None => None,
            },
            old(data)@,
        ),
{
    match document {
        Some(document) => if ages_are_known(moments, step, &document) {
            apply_document(moments, step, document, data)
        } else {
            Refreshed::AgeOverflow
        },
        None => Refreshed::Unchanged,
    }
}

/// The readings of the clock are as many as the document in an answer needs.
pub open spec fn readings_suffice(
    readings: Seq<std::time::SystemTime>,
    step: RefreshStep,
    reply: Result<DatabaseQueryResult, String>,
) -> bool {
    readings.len() == (match document_in(reply) {
        Some(document) => readings_needed(step, document),
        None => 0,
    })
}

/// Takes the answer to a step's query into the data, with each age as of the
/// moment that the clock shows when it is read for it.
pub fn refresh(
    step: RefreshStep,
    reply: &Result<DatabaseQueryResult, String>,
    data: &mut AuditData,
) -> (r: Refreshed)
    ensures
        exists|readings: Seq<std::time::SystemTime>|
            readings_suffice(readings, step, *reply) && (r, final(data)@) == reply_effect(
                #[trigger] clock::readings_ms(readings),
                step,
                *reply,
                old(data)@,
            ),
{
    let document = document_of(reply);
    let needed: usize = readings_for(step, &document);
    let mut moments: Vec<i64> = Vec::new();
    let ghost mut readings: Seq<std::time::SystemTime> = Seq::empty();
    for i in 0..needed
        invariant
            moments@.len() == i,
            readings.len() == i,
            moments@ =~= clock::readings_ms(readings),
    {
        let now = clock::now_ms();
        moments.push(now);
        proof {
            let reading = choose|reading: std::time::SystemTime|
                now == #[trigger] clock::reading_ms(reading);
            readings = readings.push(reading);
        }
    }
    let r = refresh_at(&moments, step, document, data);
    assert(moments@ == clock::readings_ms(readings));
    assert(readings_suffice(readings, step, *reply));
    r
}

/// The number of steps after `step`.
pub open spec fn steps_left(step: RefreshStep) -> nat {
    match step {
        RefreshStep::Messages => 4,
        RefreshStep::Errors => 3,
        RefreshStep::Held => 2,
        RefreshStep::Logs => 1,
        RefreshStep::Modules => 0,
    }
}

/// The steps from `step` on.
pub open spec fn steps_from(step: RefreshStep) -> Seq<RefreshStep>
    decreases steps_left(step),
{
    match step_after(step) {
        Some(next) => seq![step] + steps_from(next),
        None => seq![step],
    }
}

/// A refresh asks for everything once: messages, errors, held messages, logs
/// and modules, in this order.
pub proof fn refresh_asks_for_everything_once()
    ensures
        steps_from(RefreshStep::Messages) == seq![
            RefreshStep::Messages,
            RefreshStep::Errors,
            RefreshStep::Held,
            RefreshStep::Logs,
            RefreshStep::Modules,
        ],
{
    reveal_with_fuel(steps_from, 5);
    assert(steps_from(RefreshStep::Messages) =~= seq![
        RefreshStep::Messages,
        RefreshStep::Errors,
        RefreshStep::Held,
        RefreshStep::Logs,
        RefreshStep::Modules,
    ]);
}

/// No two queries share an id, so an answer belongs to one step only.
pub proof fn query_ids_are_distinct(a: RefreshStep, b: RefreshStep)
    requires
        a != b,
    ensures
        query_id_of(a) != query_id_of(b),
{
    reveal_strlit("audit_msgs");
    reveal_strlit("audit_err");
    reveal_strlit("audit_held");
    reveal_strlit("audit_logs");
    reveal_strlit("module_list");
    let x = query_id_of(a);
    let y = query_id_of(b);
    if x.len() == y.len() {
        assert(x[6] != y[6]);
    }
}

/// The part of the data that a step may change is its own; the rest stays.
pub proof fn step_keeps_to_its_part(
    moments: Seq<i64>,
    step: RefreshStep,
    reply: Result<DatabaseQueryResult, String>,
    d: AuditView,
)
    ensures
        ({
            let after = reply_effect(moments, step, reply, d).1;
            &&& step != RefreshStep::Messages ==> after.messages == d.messages
            &&& step != RefreshStep::Errors ==> after.errors == d.errors
            &&& step != RefreshStep::Held ==> after.audit == d.audit
            &&& step != RefreshStep::Logs ==> after.logs == d.logs
            &&& step != RefreshStep::Modules ==> after.modules == d.modules && after.connected
                == d.connected && after.last_refresh == d.last_refresh
        }),
{
}

/// A query that fails, or whose answer is not JSON, changes nothing.
pub proof fn failed_query_changes_nothing(
    moments: Seq<i64>,
    step: RefreshStep,
    reply: Result<DatabaseQueryResult, String>,
    d: AuditView,
)
    requires
        document_in(reply) is None,
    ensures
        reply_effect(moments, step, reply, d) == (Refreshed::Unchanged, d),
{
}

/// Whatever is not reported as an update changed nothing.
pub proof fn only_updates_change_the_data(
    moments: Seq<i64>,
    step: RefreshStep,
    reply: Result<DatabaseQueryResult, String>,
    d: AuditView,
)
    ensures
        reply_effect(moments, step, reply, d).0 != Refreshed::Updated ==> reply_effect(
            moments,
            step,
            reply,
            d,
        ).1 == d,
{
}

/// Once connected, the viewer stays connected, and only a list of modules
/// connects it.
pub proof fn connection_is_kept(
    moments: Seq<i64>,
    step: RefreshStep,
    reply: Result<DatabaseQueryResult, String>,
    d: AuditView,
)
    ensures
        reply_effect(moments, step, reply, d).1.connected == (d.connected || (step
            == RefreshStep::Modules && reply_effect(moments, step, reply, d).0
            == Refreshed::Updated)),
{
}

/// A new document takes the place of what an earlier one left, and keeps
/// nothing of it.
pub proof fn newer_document_replaces_older(
    earlier: Seq<i64>,
    later: Seq<i64>,
    step: RefreshStep,
    old_document: JsonView,
    new_document: JsonView,
    d: AuditView,
)
    requires
        step == RefreshStep::Logs ==> json::items_of(new_document) is Some,
    ensures
        refreshed(later, step, new_document, refreshed(earlier, step, old_document, d))
            == refreshed(later, step, new_document, d),
{
}

/// Steps do not disturb each other: two different ones have the same effect in
/// either order.
pub proof fn different_steps_commute(
    moments_a: Seq<i64>,
    a: RefreshStep,
    document_a: JsonView,
    moments_b: Seq<i64>,
    b: RefreshStep,
    document_b: JsonView,
    d: AuditView,
)
    requires
        a != b,
    ensures
        refreshed(moments_b, b, document_b, refreshed(moments_a, a, document_a, d)) == refreshed(
            moments_a,
            a,
            document_a,
            refreshed(moments_b, b, document_b, d),
        ),
{
}

/// Every record of an answer has its row or its log line, in the same place.
pub proof fn one_line_per_record(moments: Seq<i64>, records: Seq<JsonView>, i: int)
    requires
        0 <= i < records.len(),
    ensures
        rows_of(moments, JsonView::Array(records)).len() == records.len(),
        rows_of(moments, JsonView::Array(records))[i] == model::row_of(moments[i] as int, records[i]),
        log_lines(moments, records).len() == records.len(),
        log_lines(moments, records)[i] == log_line(moments[i] as int, records[i]),
{
}

/// The log stays within its limit through a refresh whose answer does.
pub proof fn refresh_keeps_the_log_bounded(
    moments: Seq<i64>,
    step: RefreshStep,
    document: JsonView,
    d: AuditView,
)
    requires
        d.logs.len() <= model::LOG_LIMIT,
        json::items_of(document) matches Some(records) ==> records.len() <= model::LOG_LIMIT,
    ensures
        refreshed(moments, step, document, d).logs.len() <= model::LOG_LIMIT,
{
}

/// The data after a refresh in which `documents` answered the steps in order,
/// each with its own readings of the clock.
pub open spec fn refreshed_in_full(
    moments: Seq<Seq<i64>>,
    documents: Seq<JsonView>,
    d: AuditView,
) -> AuditView {
    let d = refreshed(moments[0], RefreshStep::Messages, documents[0], d);
    let d = refreshed(moments[1], RefreshStep::Errors, documents[1], d);
    let d = refreshed(moments[2], RefreshStep::Held, documents[2], d);
    let d = refreshed(moments[3], RefreshStep::Logs, documents[3], d);
    refreshed(moments[4], RefreshStep::Modules, documents[4], d)
}

/// A refresh in which every query is answered leaves nothing of what was known
/// before, and connects the viewer.
pub proof fn full_refresh_replaces_everything(
    moments: Seq<Seq<i64>>,
    documents: Seq<JsonView>,
    d: AuditView,
    e: AuditView,
)
    requires
        moments.len() == 5,
        documents.len() == 5,
        json::items_of(documents[3]) is Some,
    ensures
        refreshed_in_full(moments, documents, d) == refreshed_in_full(moments, documents, e),
        refreshed_in_full(moments, documents, d).connected,
{
}

/// `word` stands in `text` at `at`.
pub open spec fn stands_at(text: Seq<char>, word: Seq<char>, at: int) -> bool {
    0 <= at && at + word.len() <= text.len() && text.subrange(at, at + word.len() as int) == word
}

/// The queries for rows select the columns that a row is made of, by the names
/// under which the row reads them.
pub proof fn queries_select_what_rows_show()
    ensures
        stands_at(sql_of(RefreshStep::Messages), "SELECT platform, raw_message, "@, 0),
        stands_at(sql_of(RefreshStep::Messages), "user_uuid7"@, 30),
        stands_at(sql_of(RefreshStep::Messages), "pipeline_status"@, 42),
        stands_at(sql_of(RefreshStep::Messages), "error_message"@, 59),
        stands_at(sql_of(RefreshStep::Messages), "persisted_at"@, 74),
        stands_at(sql_of(RefreshStep::Errors), "SELECT platform, raw_message, "@, 0),
        stands_at(sql_of(RefreshStep::Errors), "pipeline_status"@, 30),
        stands_at(sql_of(RefreshStep::Errors), "error_message"@, 47),
        stands_at(sql_of(RefreshStep::Errors), "persisted_at"@, 62),
        stands_at(sql_of(RefreshStep::Held), "SELECT platform, raw_message, "@, 0),
        stands_at(sql_of(RefreshStep::Held), "pipeline_status"@, 30),
        stands_at(sql_of(RefreshStep::Held), "persisted_at"@, 47),
        stands_at(sql_of(RefreshStep::Logs), "SELECT raw_message, flags, persisted_at"@, 0),
{
    reveal_strlit(
        "SELECT platform, raw_message, user_uuid7, pipeline_status, error_message, persisted_at FROM timeline_events WHERE event_type = 1 ORDER BY persisted_at DESC LIMIT 60",
    );
    reveal_strlit(
        "SELECT platform, raw_message, pipeline_status, error_message, persisted_at FROM timeline_events WHERE (error_message IS NOT NULL AND error_message != '') OR pipeline_status = 'failed' ORDER BY persisted_at DESC LIMIT 40",
    );
    reveal_strlit(
        "SELECT platform, raw_message, pipeline_status, persisted_at FROM timeline_events WHERE pipeline_status = 'audit' ORDER BY persisted_at DESC LIMIT 40",
    );
    reveal_strlit(
        "SELECT raw_message, flags, persisted_at FROM timeline_events WHERE event_type = 5 ORDER BY persisted_at DESC LIMIT 40",
    );
    reveal_strlit("SELECT platform, raw_message, ");
    reveal_strlit("SELECT raw_message, flags, persisted_at");
    reveal_strlit("user_uuid7");
    reveal_strlit("pipeline_status");
    reveal_strlit("error_message");
    reveal_strlit("persisted_at");
    let m = sql_of(RefreshStep::Messages);
    assert(m.subrange(0, 30) =~= "SELECT platform, raw_message, "@);
    assert(m.subrange(30, 40) =~= "user_uuid7"@);
    assert(m.subrange(42, 57) =~= "pipeline_status"@);
    assert(m.subrange(59, 72) =~= "error_message"@);
    assert(m.subrange(74, 86) =~= "persisted_at"@);
    let e = sql_of(RefreshStep::Errors);
    assert(e.subrange(0, 30) =~= "SELECT platform, raw_message, "@);
    assert(e.subrange(30, 45) =~= "pipeline_status"@);
    assert(e.subrange(47, 60) =~= "error_message"@);
    assert(e.subrange(62, 74) =~= "persisted_at"@);
    let h = sql_of(RefreshStep::Held);
    assert(h.subrange(0, 30) =~= "SELECT platform, raw_message, "@);
    assert(h.subrange(30, 45) =~= "pipeline_status"@);
    assert(h.subrange(47, 59) =~= "persisted_at"@);
    let l = sql_of(RefreshStep::Logs);
    assert(l.subrange(0, 39) =~= "SELECT raw_message, flags, persisted_at"@);
}

/// Flags that are an object name the kind under `kind`; a string is taken whole.
pub proof fn kind_is_what_the_flags_name(
    entries: Seq<(Seq<char>, JsonView)>,
    i: int,
    kind: Seq<char>,
)
    requires
        json::names_distinct(entries),
        0 <= i < entries.len(),
        entries[i] == ("kind"@, JsonView::Text(kind)),
    ensures
        kind_of(Some(JsonView::Object(entries))) == kind,
{
    json::member_is_its_entry(entries, i);
}

/// Whatever the flags hold under `kind` is shown as a cell shows it.
pub proof fn kind_is_shown_as_a_cell(entries: Seq<(Seq<char>, JsonView)>, i: int)
    requires
        json::names_distinct(entries),
        0 <= i < entries.len(),
        entries[i].0 == "kind"@,
    ensures
        kind_of(Some(JsonView::Object(entries))) == json::cell_text(entries[i].1),
{
    json::member_is_its_entry(entries, i);
}

/// Flags that name no kind, are no object or no JSON have none.
pub proof fn flags_may_name_no_kind(entries: Seq<(Seq<char>, JsonView)>, v: JsonView)
    requires
        forall|i: int| 0 <= i < entries.len() ==> (#[trigger] entries[i]).0 != "kind"@,
        v !is Object,
    ensures
        kind_of(None).len() == 0,
        kind_of(Some(v)).len() == 0,
        kind_of(Some(JsonView::Object(entries))).len() == 0,
{
    json::absent_member_is_nothing(entries, "kind"@);
}

/// The log line of a record ends with the whole text of its message, and what
/// stands before it is the age and the kind in brackets, whatever the message.
pub proof fn log_line_ends_with_the_whole_message(
    now: int,
    entries: Seq<(Seq<char>, JsonView)>,
    i: int,
    message: Seq<char>,
    flags: Option<JsonView>,
)
    requires
        json::names_distinct(entries),
        0 <= i < entries.len(),
        entries[i] == ("raw_message"@, JsonView::Text(message)),
    ensures
        ({
            let record = JsonView::Object(entries);
            let line = archive_line(now, record, flags);
            let age = model::record_age(now, record);
            let kind = kind_of(flags);
            let shown = if kind.len() == 0 {
                "archive"@
            } else {
                kind
            };
            let before = (line.len() - message.len()) as int;
            &&& line.skip(before) == message
            &&& before == age.len() + shown.len() + 4
            &&& line[0] == '['
            &&& line.subrange(1, 1 + age.len() as int) == age
            &&& line[1 + age.len() as int] == ' '
            &&& line.subrange(2 + age.len() as int, before - 2) == shown
            &&& line[before - 2] == ']'
            &&& line[before - 1] == ' '
        }),
{
    json::member_is_its_entry(entries, i);
    reveal_strlit("[");
    reveal_strlit(" ");
    reveal_strlit("] ");
    let record = JsonView::Object(entries);
    let line = archive_line(now, record, flags);
    let age = model::record_age(now, record);
    let kind = kind_of(flags);
    let shown = if kind.len() == 0 {
        "archive"@
    } else {
        kind
    };
    assert(line =~= "["@ + age + " "@ + shown + "] "@ + message);
    let before = (line.len() - message.len()) as int;
    assert(line.skip(before) =~= message);
    assert(line.subrange(1, 1 + age.len() as int) =~= age);
    assert(line.subrange(2 + age.len() as int, before - 2) =~= shown);
}

/// The log line of a record with a time shows the age of that time.
pub proof fn log_line_shows_the_age(
    now: int,
    entries: Seq<(Seq<char>, JsonView)>,
    i: int,
    digits: Seq<char>,
    ms: i64,
    flags: Option<JsonView>,
)
    requires
        json::names_distinct(entries),
        0 <= i < entries.len(),
        entries[i] == ("persisted_at"@, (JsonView::Number { text: digits, integer: Some(ms) })),
    ensures
        ({
            let age = clock::age_text(now, ms as int);
            let line = archive_line(now, JsonView::Object(entries), flags);
            &&& line.len() > age.len() + 1
            &&& line.subrange(1, 1 + age.len() as int) == age
            &&& line[1 + age.len() as int] == ' '
        }),
{
    model::row_shows_the_age(now, entries, i, digits, ms);
    reveal_strlit("[");
    reveal_strlit(" ");
    let age = clock::age_text(now, ms as int);
    let line = archive_line(now, JsonView::Object(entries), flags);
    assert(line.subrange(1, 1 + age.len() as int) =~= age);
}

/// Two records that differ in their messages alone have lines that differ in the
/// message alone.
pub proof fn only_the_message_follows_the_brackets(
    now: int,
    a: JsonView,
    b: JsonView,
    flags: Option<JsonView>,
)
    requires
        json::member_int(a, "persisted_at"@) == json::member_int(b, "persisted_at"@),
    ensures
        ({
            let x = json::member_text(a, "raw_message"@);
            let y = json::member_text(b, "raw_message"@);
            let s = archive_line(now, a, flags);
            let t = archive_line(now, b, flags);
            &&& s.len() >= x.len()
            &&& s.len() - x.len() == t.len() - y.len()
            &&& s.take(s.len() - x.len()) == t.take(t.len() - y.len())
            &&& s.skip(s.len() - x.len()) == x
            &&& t.skip(t.len() - y.len()) == y
        }),
{
    let x = json::member_text(a, "raw_message"@);
    let y = json::member_text(b, "raw_message"@);
    let s = archive_line(now, a, flags);
    let t = archive_line(now, b, flags);
    assert(s.take(s.len() - x.len()) =~= t.take(t.len() - y.len()));
    assert(s.skip(s.len() - x.len()) =~= x);
    assert(t.skip(t.len() - y.len()) =~= y);
}

/// The kind in a record's log line comes from the JSON in its flags.
pub proof fn log_line_reads_the_flags(now: int, entries: Seq<(Seq<char>, JsonView)>, i: int)
    requires
        json::names_distinct(entries),
        0 <= i < entries.len(),
        entries[i].0 == "flags"@,
    ensures
        log_line(now, JsonView::Object(entries)) == archive_line(
            now,
            JsonView::Object(entries),
            json::json_of_text(json::cell_text(entries[i].1)),
        ),
{
    json::member_is_its_entry(entries, i);
}

/// A record without flags has the line that an empty text gives it.
pub proof fn record_may_lack_flags(
    now: int,
    entries: Seq<(Seq<char>, JsonView)>,
    v: JsonView,
)
    requires
        forall|i: int| 0 <= i < entries.len() ==> (#[trigger] entries[i]).0 != "flags"@,
        v !is Object,
    ensures
        log_line(now, JsonView::Object(entries)) == archive_line(
            now,
            JsonView::Object(entries),
            json::json_of_text(Seq::empty()),
        ),
        log_line(now, v) == archive_line(now, v, json::json_of_text(Seq::empty())),
{
    json::absent_member_is_nothing(entries, "flags"@);
    assert(json::member_text(JsonView::Object(entries), "flags"@) =~= Seq::empty());
}

/// The document of an answer is what its bytes hold, if the query succeeded; a
/// query that failed has none.
pub proof fn document_is_what_the_bytes_hold(answer: DatabaseQueryResult, error: String)
    ensures
        answer.success ==> document_in(Ok(answer)) == json::json_of_bytes(answer.result_blob@),
        !answer.success ==> document_in(Ok(answer)) is None,
        document_in(Err(error)) is None,
{
}

/// Records whose times and whose readings of the clock are not negative always
/// have ages.
pub proof fn ordinary_records_have_ages(
    moments: Seq<i64>,
    step: RefreshStep,
    records: Seq<JsonView>,
)
    requires
        step != RefreshStep::Modules,
        forall|i: int| 0 <= i < records.len() ==> #[trigger] moments[i] >= 0,
        forall|i: int|
            0 <= i < records.len() ==> (json::member_int(#[trigger] records[i], "persisted_at"@)
                matches Some(ms) ==> ms >= 0),
    ensures
        ages_fit(moments, step, JsonView::Array(records)),
{
    assert forall|i: int| 0 <= i < records.len() implies model::record_age_fits(
        moments[i] as int,
        #[trigger] records[i],
    ) by {
        assert(moments[i] >= 0);
    }
}

/// Ages can be told as long as every span between a record's time and its reading
/// of the clock is an `i64`, and without records there is nothing to tell.
pub proof fn ages_fit_when_every_span_does(
    moments: Seq<i64>,
    step: RefreshStep,
    records: Seq<JsonView>,
    v: JsonView,
)
    requires
        step != RefreshStep::Modules,
        v !is Array,
        forall|i: int|
            0 <= i < records.len() ==> (json::member_int(#[trigger] records[i], "persisted_at"@)
                matches Some(ms) ==> i64::MIN <= moments[i] - ms <= i64::MAX),
    ensures
        ages_fit(moments, step, JsonView::Array(records)),
        ages_fit(moments, step, v),
{
}

/// The age of a list of modules can be told exactly where the span between its
/// two readings of the clock is an `i64`, whatever the list holds.
pub proof fn age_of_the_modules_fits_by_their_readings(
    moments: Seq<i64>,
    reply: Result<DatabaseQueryResult, String>,
    document: JsonView,
    d: AuditView,
)
    requires
        document_in(reply) == Some(document),
    ensures
        ages_fit(moments, RefreshStep::Modules, document) <==> i64::MIN <= moments[1] - moments[0]
            <= i64::MAX,
        !ages_fit(moments, RefreshStep::Modules, document) ==> reply_effect(
            moments,
            RefreshStep::Modules,
            reply,
            d,
        ) == (Refreshed::AgeOverflow, d),
        ages_fit(moments, RefreshStep::Modules, document) ==> ({
            let (r, after) = reply_effect(moments, RefreshStep::Modules, reply, d);
            &&& r == Refreshed::Updated
            &&& after.connected
            &&& after.last_refresh == Some(
                clock::age_text(moments[1] as int, moments[0] as int),
            )
        }),
{
}

/// The clock is read once for each record of a timeline, and twice for a list of
/// modules.
pub proof fn clock_is_read_for_every_record(
    step: RefreshStep,
    records: Seq<JsonView>,
    v: JsonView,
)
    requires
        v !is Array,
    ensures
        step == RefreshStep::Modules ==> readings_needed(step, v) == 2 && readings_needed(
            step,
            JsonView::Array(records),
        ) == 2,
        step != RefreshStep::Modules ==> readings_needed(step, v) == 0 && readings_needed(
            step,
            JsonView::Array(records),
        ) == records.len(),
{
}

/// One record whose age cannot be told stops its whole answer.
pub proof fn one_untold_age_stops_the_answer(
    moments: Seq<i64>,
    step: RefreshStep,
    reply: Result<DatabaseQueryResult, String>,
    records: Seq<JsonView>,
    i: int,
    ms: i64,
    d: AuditView,
)
    requires
        step != RefreshStep::Modules,
        document_in(reply) == Some(JsonView::Array(records)),
        0 <= i < records.len(),
        json::member_int(records[i], "persisted_at"@) == Some(ms),
        moments[i] - ms < i64::MIN || moments[i] - ms > i64::MAX,
    ensures
        reply_effect(moments, step, reply, d) == (Refreshed::AgeOverflow, d),
{
    assert(!model::record_age_fits(moments[i] as int, records[i]));
}

/// An answer whose ages can be told fills its list: a row for each record, in
/// the same place, each with what the record's columns hold.
pub proof fn answer_fills_its_list(
    moments: Seq<i64>,
    step: RefreshStep,
    reply: Result<DatabaseQueryResult, String>,
    records: Seq<JsonView>,
    k: int,
    entries: Seq<(Seq<char>, JsonView)>,
    i: int,
    s: Seq<char>,
    d: AuditView,
)
    requires
        step == RefreshStep::Messages || step == RefreshStep::Errors || step == RefreshStep::Held,
        document_in(reply) == Some(JsonView::Array(records)),
        ages_fit(moments, step, JsonView::Array(records)),
        0 <= k < records.len(),
        records[k] == JsonView::Object(entries),
        json::names_distinct(entries),
        0 <= i < entries.len(),
        entries[i].1 == JsonView::Text(s),
    ensures
        reply_effect(moments, step, reply, d).0 == Refreshed::Updated,
        ({
            let after = reply_effect(moments, step, reply, d).1;
            let rows = match step {
                RefreshStep::Messages => after.messages,
                RefreshStep::Errors => after.errors,
                _ => after.audit,
            };
            &&& rows.len() == records.len()
            &&& entries[i].0 == "platform"@ ==> rows[k].platform == s
            &&& entries[i].0 == "user_uuid7"@ ==> rows[k].user == s
            &&& entries[i].0 == "raw_message"@ ==> rows[k].content == s
            &&& entries[i].0 == "pipeline_status"@ ==> rows[k].status == s
            &&& entries[i].0 == "error_message"@ ==> rows[k].error == s
        }),
{
    model::row_shows_strings_whole(moments[k] as int, entries, i, s);
}

/// An answer whose ages can be told becomes its list: as many rows as there are
/// records, and each the row of its record at its own moment.
pub proof fn answer_becomes_its_list(
    moments: Seq<i64>,
    step: RefreshStep,
    reply: Result<DatabaseQueryResult, String>,
    records: Seq<JsonView>,
    k: int,
    d: AuditView,
)
    requires
        step == RefreshStep::Messages || step == RefreshStep::Errors || step == RefreshStep::Held,
        document_in(reply) == Some(JsonView::Array(records)),
        ages_fit(moments, step, JsonView::Array(records)),
    ensures
        ({
            let (r, after) = reply_effect(moments, step, reply, d);
            let rows = match step {
                RefreshStep::Messages => after.messages,
                RefreshStep::Errors => after.errors,
                _ => after.audit,
            };
            &&& r == Refreshed::Updated
            &&& rows.len() == records.len()
            &&& 0 <= k < records.len() ==> rows[k] == model::row_of(
                moments[k] as int,
                records[k],
            )
        }),
{
}

/// An answer that is no array empties its list, but the log stays as it is and
/// is not reported as new.
pub proof fn answer_may_be_no_array(
    moments: Seq<i64>,
    reply: Result<DatabaseQueryResult, String>,
    document: JsonView,
    d: AuditView,
)
    requires
        document_in(reply) == Some(document),
        document !is Array,
    ensures
        ({
            let (r, after) = reply_effect(moments, RefreshStep::Messages, reply, d);
            r == Refreshed::Updated && after.messages.len() == 0
        }),
        ({
            let (r, after) = reply_effect(moments, RefreshStep::Errors, reply, d);
            r == Refreshed::Updated && after.errors.len() == 0
        }),
        ({
            let (r, after) = reply_effect(moments, RefreshStep::Held, reply, d);
            r == Refreshed::Updated && after.audit.len() == 0
        }),
        reply_effect(moments, RefreshStep::Logs, reply, d) == (Refreshed::Unchanged, d),
{
}

/// A timeline that is no array has no rows, and leaves the log as it is.
pub proof fn no_array_has_no_rows(moments: Seq<i64>, document: JsonView, d: AuditView)
    requires
        document !is Array,
    ensures
        refreshed(moments, RefreshStep::Messages, document, d).messages.len() == 0,
        refreshed(moments, RefreshStep::Errors, document, d).errors.len() == 0,
        refreshed(moments, RefreshStep::Held, document, d).audit.len() == 0,
        refreshed(moments, RefreshStep::Logs, document, d).logs == d.logs,
        refreshed(moments, RefreshStep::Modules, document, d).modules.len() == 0,
{
}

/// An answer with archival rows becomes the log, a line for each record.
pub proof fn answer_becomes_the_log(
    moments: Seq<i64>,
    reply: Result<DatabaseQueryResult, String>,
    records: Seq<JsonView>,
    k: int,
    d: AuditView,
)
    requires
        document_in(reply) == Some(JsonView::Array(records)),
        ages_fit(moments, RefreshStep::Logs, JsonView::Array(records)),
    ensures
        ({
            let (r, after) = reply_effect(moments, RefreshStep::Logs, reply, d);
            &&& r == Refreshed::Updated
            &&& after.logs.len() == records.len()
            &&& 0 <= k < records.len() ==> after.logs[k] == log_line(
                moments[k] as int,
                records[k],
            )
        }),
{
}

/// A list of modules is taken over whole, connects the viewer, and is as old as
/// the time between its two readings of the clock.
pub proof fn modules_are_taken_over_whole(
    moments: Seq<i64>,
    reply: Result<DatabaseQueryResult, String>,
    modules: Seq<JsonView>,
    d: AuditView,
)
    requires
        document_in(reply) == Some(JsonView::Array(modules)),
        i64::MIN <= moments[1] - moments[0] <= i64::MAX,
    ensures
        ({
            let (r, after) = reply_effect(moments, RefreshStep::Modules, reply, d);
            &&& r == Refreshed::Updated
            &&& after.modules == modules
            &&& after.connected
            &&& after.last_refresh == Some(
                clock::age_text(moments[1] as int, moments[0] as int),
            )
        }),
{
}

}
