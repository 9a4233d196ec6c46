//! What the viewer knows: timeline rows, log lines and modules.
use vstd::prelude::*;
use vstd::string::*;

use crate::clock;
use crate::json;
use crate::json::Json;

verus! {

/// One event of the timeline, ready to be shown.
#[derive(Debug, PartialEq, Eq)]
pub struct Row {
    pub platform: String,
    pub user: String,
    pub content: String,
    pub status: String,
    pub error: String,
    pub age: String,
}

/// The texts of a [`Row`].
pub struct RowView {
    pub platform: Seq<char>,
    pub user: Seq<char>,
    pub content: Seq<char>,
    pub status: Seq<char>,
    pub error: Seq<char>,
    pub age: Seq<char>,
}

impl View for Row {
    type V = RowView;

    open spec fn view(&self) -> RowView {
        RowView {
            platform: self.platform@,
            user: self.user@,
            content: self.content@,
            status: self.status@,
            error: self.error@,
            age: self.age@,
        }
    }
}

impl Clone for Row {
    fn clone(&self) -> (r: Row)
        ensures
            r == *self,
    {
        Row {
            platform: self.platform.clone(),
            user: self.user.clone(),
            content: self.content.clone(),
            status: self.status.clone(),
            error: self.error.clone(),
            age: self.age.clone(),
        }
    }
}

impl Default for Row {
    fn default() -> (r: Row)
        ensures
            r@ == (RowView {
                platform: Seq::empty(),
                user: Seq::empty(),
                content: Seq::empty(),
                status: Seq::empty(),
                error: Seq::empty(),
                age: Seq::empty(),
            }),
    {
        Row {
            platform: String::new(),
            user: String::new(),
            content: String::new(),
            status: String::new(),
            error: String::new(),
            age: String::new(),
        }
    }
}

/// Everything the screen is drawn from.
#[derive(Debug, PartialEq, Eq)]
pub struct AuditData {
    pub messages: Vec<Row>,
    pub errors: Vec<Row>,
    pub audit: Vec<Row>,
    pub logs: Vec<String>,
    pub modules: Vec<Json>,
    pub connected: bool,
    pub last_refresh: Option<String>,
}

/// The mathematical content of an [`AuditData`].
pub struct AuditView {
    pub messages: Seq<RowView>,
    pub errors: Seq<RowView>,
    pub audit: Seq<RowView>,
    pub logs: Seq<Seq<char>>,
    pub modules: Seq<json::JsonView>,
    pub connected: bool,
    pub last_refresh: Option<Seq<char>>,
}

/// The texts of rows.
pub open spec fn rows_view(rows: Seq<Row>) -> Seq<RowView> {
    rows.map_values(|r: Row| r@)
}

/// The characters of lines.
pub open spec fn lines_view(lines: Seq<String>) -> Seq<Seq<char>> {
    lines.map_values(|l: String| l@)
}

/// The contents of documents.
pub open spec fn documents_view(documents: Seq<Json>) -> Seq<json::JsonView> {
    documents.map_values(|d: Json| d@)
}

impl View for AuditData {
    type V = AuditView;

    open spec fn view(&self) -> AuditView {
        AuditView {
            messages: rows_view(self.messages@),
            errors: rows_view(self.errors@),
            audit: rows_view(self.audit@),
            logs: lines_view(self.logs@),
            modules: documents_view(self.modules@),
            connected: self.connected,
            last_refresh: match self.last_refresh {
                Some(s) => Some(s@),
                None => None,
            },
        }
    }
}

/// The viewer before its first reply: nothing known, not connected.
pub open spec fn blank() -> AuditView {
    AuditView {
        messages: Seq::empty(),
        errors: Seq::empty(),
        audit: Seq::empty(),
        logs: Seq::empty(),
        modules: Seq::empty(),
        connected: false,
        last_refresh: None,
    }
}

impl Default for AuditData {
    fn default() -> (r: AuditData)
        ensures
            r@ == blank(),
    {
        let r = AuditData {
            messages: Vec::new(),
            errors: Vec::new(),
            audit: Vec::new(),
            logs: Vec::new(),
            modules: Vec::new(),
            connected: false,
            last_refresh: None,
        };
        assert(r@.messages =~= Seq::empty());
        assert(r@.errors =~= Seq::empty());
        assert(r@.audit =~= Seq::empty());
        assert(r@.logs =~= Seq::empty());
        assert(r@.modules =~= Seq::empty());
        r
    }
}

/// The row that a record of the timeline stands for, with its age at `now`.
pub open spec fn row_of(now: int, record: json::JsonView) -> RowView {
    RowView {
        platform: json::member_text(record, "platform"@),
        user: json::member_text(record, "user_uuid7"@),
        content: json::member_text(record, "raw_message"@),
        status: json::member_text(record, "pipeline_status"@),
        error: json::member_text(record, "error_message"@),
        age: record_age(now, record),
    }
}

/// The age of a record at `now`; empty where it has no time.
pub open spec fn record_age(now: int, record: json::JsonView) -> Seq<char> {
    clock::optional_age(now, json::member_int(record, "persisted_at"@))
}

/// The age of a record at `now` can be worked out.
pub open spec fn record_age_fits(now: int, record: json::JsonView) -> bool {
    json::member_int(record, "persisted_at"@) matches Some(ms) ==> clock::span_fits(now, ms as int)
}

/// Makes the row of a record of the timeline.
pub fn row_from_json(now: i64, record: &Json) -> (r: Row)
    requires
        record_age_fits(now as int, record@),
    ensures
        r@ == row_of(now as int, record@),
{
    Row {
        platform: json::member_cell(record, "platform"),
        user: json::member_cell(record, "user_uuid7"),
        content: json::member_cell(record, "raw_message"),
        status: json::member_cell(record, "pipeline_status"),
        error: json::member_cell(record, "error_message"),
        age: clock::rel_time(now, json::member_i64(record, "persisted_at")),
    }
}

/// The number of log lines beyond which a new line drops the oldest.
pub const LOG_LIMIT: usize = 400;

/// The log lines after `line` came in.
pub open spec fn logged(logs: Seq<Seq<char>>, line: Seq<char>) -> Seq<Seq<char>> {
    if logs.len() + 1 > LOG_LIMIT {
        logs.push(line).skip(1)
    } else {
        logs.push(line)
    }
}

impl AuditData {
    /// Adds a log line; beyond the limit the oldest line goes.
    pub fn push_log(&mut self, line: String)
        ensures
            final(self)@ == (AuditView { logs: logged(old(self)@.logs, line@), ..old(self)@ }),
    {
        let ghost before = self.logs@;
        self.logs.push(line);
        if self.logs.len() > LOG_LIMIT {
            self.logs.remove(0);
        }
        assert(lines_view(self.logs@) =~= logged(lines_view(before), line@));
    }
}

/// A log within the limit stays within it, and one beyond it does not grow.
pub proof fn log_stays_bounded(logs: Seq<Seq<char>>, line: Seq<char>)
    ensures
        logs.len() <= LOG_LIMIT ==> logged(logs, line).len() <= LOG_LIMIT,
        logs.len() >= LOG_LIMIT ==> logged(logs, line).len() == logs.len(),
        logs.len() < 400 ==> logged(logs, line).len() == logs.len() + 1,
        logs.len() >= 400 ==> logged(logs, line).len() == logs.len(),
{
}

/// The newest line is always kept, as the last.
pub proof fn newest_line_is_last(logs: Seq<Seq<char>>, line: Seq<char>)
    ensures
        logged(logs, line).len() > 0,
        logged(logs, line).last() == line,
{
}

/// The other lines keep their order, and at most the oldest is dropped.
pub proof fn older_lines_keep_their_order(logs: Seq<Seq<char>>, line: Seq<char>)
    ensures
        logged(logs, line).drop_last() == (if logs.len() < LOG_LIMIT {
            logs
        } else {
            logs.skip(1)
        }),
{
    assert(logged(logs, line).drop_last() =~= (if logs.len() < LOG_LIMIT {
        logs
    } else {
        logs.skip(1)
    }));
}

/// The log lines after all of `lines` came in, one after the other.
pub open spec fn logged_all(logs: Seq<Seq<char>>, lines: Seq<Seq<char>>) -> Seq<Seq<char>>
    decreases lines.len(),
{
    if lines.len() == 0 {
        logs
    } else {
        logged(logged_all(logs, lines.drop_last()), lines.last())
    }
}

/// The newest lines up to the limit.
pub open spec fn newest(lines: Seq<Seq<char>>) -> Seq<Seq<char>> {
    if lines.len() > LOG_LIMIT {
        lines.skip(lines.len() - LOG_LIMIT)
    } else {
        lines
    }
}

/// However many lines come in, a log within the limit holds the newest of all
/// the lines there ever were.
pub proof fn log_holds_the_newest_lines(logs: Seq<Seq<char>>, lines: Seq<Seq<char>>)
    requires
        logs.len() <= LOG_LIMIT,
    ensures
        logged_all(logs, lines) == newest(logs + lines),
    decreases lines.len(),
{
    if lines.len() == 0 {
        assert(logs + lines =~= logs);
    } else {
        log_holds_the_newest_lines(logs, lines.drop_last());
        assert(logs + lines =~= (logs + lines.drop_last()).push(lines.last()));
        assert(logged_all(logs, lines) =~= newest(logs + lines));
    }
}

/// A row shows each column of its record: whatever the entry of that name holds
/// stands in the field of that name, and the time gives the age.
pub proof fn row_shows_its_columns(now: int, entries: Seq<(Seq<char>, json::JsonView)>, i: int)
    requires
        json::names_distinct(entries),
        0 <= i < entries.len(),
    ensures
        ({
            let row = row_of(now, json::JsonView::Object(entries));
            let shown = json::cell_text(entries[i].1);
            &&& entries[i].0 == "platform"@ ==> row.platform == shown
            &&& entries[i].0 == "user_uuid7"@ ==> row.user == shown
            &&& entries[i].0 == "raw_message"@ ==> row.content == shown
            &&& entries[i].0 == "pipeline_status"@ ==> row.status == shown
            &&& entries[i].0 == "error_message"@ ==> row.error == shown
            &&& entries[i].0 == "persisted_at"@ ==> row.age == clock::optional_age(
                now,
                json::int_value(entries[i].1),
            )
        }),
{
    json::member_is_its_entry(entries, i);
}

/// A column that holds a string stands in its field whole.
pub proof fn row_shows_strings_whole(
    now: int,
    entries: Seq<(Seq<char>, json::JsonView)>,
    i: int,
    s: Seq<char>,
)
    requires
        json::names_distinct(entries),
        0 <= i < entries.len(),
        entries[i].1 == json::JsonView::Text(s),
    ensures
        ({
            let row = row_of(now, json::JsonView::Object(entries));
            &&& entries[i].0 == "platform"@ ==> row.platform == s
            &&& entries[i].0 == "user_uuid7"@ ==> row.user == s
            &&& entries[i].0 == "raw_message"@ ==> row.content == s
            &&& entries[i].0 == "pipeline_status"@ ==> row.status == s
            &&& entries[i].0 == "error_message"@ ==> row.error == s
        }),
{
    row_shows_its_columns(now, entries, i);
    json::cell_shows_the_whole_text(s, None);
}

/// A record's time gives its row the age of that time.
pub proof fn row_shows_the_age(
    now: int,
    entries: Seq<(Seq<char>, json::JsonView)>,
    i: int,
    digits: Seq<char>,
    ms: i64,
)
    requires
        json::names_distinct(entries),
        0 <= i < entries.len(),
        entries[i].0 == "persisted_at"@,
        entries[i].1 == (json::JsonView::Number { text: digits, integer: Some(ms) }),
    ensures
        row_of(now, json::JsonView::Object(entries)).age == clock::age_text(now, ms as int),
        record_age(now, json::JsonView::Object(entries)) == clock::age_text(now, ms as int),
        record_age_fits(now, json::JsonView::Object(entries)) <==> i64::MIN <= now - ms
            <= i64::MAX,
{
    json::member_is_its_entry(entries, i);
}

/// A column that a record lacks leaves its field empty.
pub proof fn row_leaves_missing_columns_empty(
    now: int,
    entries: Seq<(Seq<char>, json::JsonView)>,
    key: Seq<char>,
)
    requires
        forall|i: int| 0 <= i < entries.len() ==> (#[trigger] entries[i]).0 != key,
    ensures
        ({
            let row = row_of(now, json::JsonView::Object(entries));
            &&& key == "platform"@ ==> row.platform.len() == 0
            &&& key == "user_uuid7"@ ==> row.user.len() == 0
            &&& key == "raw_message"@ ==> row.content.len() == 0
            &&& key == "pipeline_status"@ ==> row.status.len() == 0
            &&& key == "error_message"@ ==> row.error.len() == 0
            &&& key == "persisted_at"@ ==> row.age.len() == 0 && record_age_fits(
                now,
                json::JsonView::Object(entries),
            )
        }),
{
    json::absent_member_is_nothing(entries, key);
}

/// What is no record has an empty row, and its age is no matter.
pub proof fn row_of_no_record_is_empty(now: int, v: json::JsonView)
    requires
        v !is Object,
    ensures
        ({
            let row = row_of(now, v);
            &&& row.platform.len() == 0
            &&& row.user.len() == 0
            &&& row.content.len() == 0
            &&& row.status.len() == 0
            &&& row.error.len() == 0
            &&& row.age.len() == 0
            &&& record_age_fits(now, v)
        }),
{
}

/// The view of a row holds each of its texts.
pub proof fn row_view_holds_every_field(row: Row)
    ensures
        row@.platform == row.platform@,
        row@.user == row.user@,
        row@.content == row.content@,
        row@.status == row.status@,
        row@.error == row.error@,
        row@.age == row.age@,
{
}

/// The view of the data holds every row, line and module, in its place.
pub proof fn data_view_holds_everything(data: AuditData, i: int)
    ensures
        data@.messages.len() == data.messages@.len(),
        data@.errors.len() == data.errors@.len(),
        data@.audit.len() == data.audit@.len(),
        data@.logs.len() == data.logs@.len(),
        data@.modules.len() == data.modules@.len(),
        0 <= i < data.messages@.len() ==> data@.messages[i] == data.messages@[i]@,
        0 <= i < data.errors@.len() ==> data@.errors[i] == data.errors@[i]@,
        0 <= i < data.audit@.len() ==> data@.audit[i] == data.audit@[i]@,
        0 <= i < data.logs@.len() ==> data@.logs[i] == data.logs@[i]@,
        0 <= i < data.modules@.len() ==> data@.modules[i] == data.modules@[i]@,
        data@.connected == data.connected,
        data@.last_refresh is Some <==> data.last_refresh is Some,
        data.last_refresh matches Some(s) ==> data@.last_refresh == Some(s@),
{
}

/// The age of a record is the age that its row shows, and it can always be told
/// of a record whose time is no `i64`.
pub proof fn record_age_is_the_age_of_its_row(now: int, record: json::JsonView)
    ensures
        record_age(now, record) == row_of(now, record).age,
        json::member_int(record, "persisted_at"@) is None ==> record_age(now, record).len() == 0
            && record_age_fits(now, record),
        json::member_int(record, "persisted_at"@) matches Some(ms) ==> record_age(now, record)
            == clock::age_text(now, ms as int),
{
}

}
