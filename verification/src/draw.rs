//! What the screen shows, down to texts and colours.
use vstd::prelude::*;
use vstd::string::*;

use crate::json;
use crate::json::{Json, JsonView};
use crate::layout;
use crate::layout::Area;
use crate::model::{AuditData, AuditView, Row, RowView};
use crate::text;
use crate::tui;
use crate::tui::Tab;

verus! {

/// A terminal colour.
#[derive(Clone, Copy, Debug, PartialEq, Eq, Structural)]
pub enum Color {
    Black,
    Red,
    Green,
    Yellow,
    Blue,
    Magenta,
    Cyan,
    Gray,
    DarkGray,
    LightRed,
    White,
}

/// How a text looks; what is not set is left to the terminal.
#[derive(Clone, Copy, Debug, PartialEq, Eq, Structural)]
pub struct Style {
    pub fg: Option<Color>,
    pub bg: Option<Color>,
    pub bold: bool,
}

/// The terminal's own style.
pub open spec fn plain_style() -> Style {
    Style { fg: None, bg: None, bold: false }
}

/// A style that only sets the colour of the letters.
pub open spec fn fg_style(color: Color) -> Style {
    Style { fg: Some(color), bg: None, bold: false }
}

/// A text in one style.
#[derive(Debug, PartialEq, Eq)]
pub struct Span {
    pub text: String,
    pub style: Style,
}

/// The mathematical content of a [`Span`].
pub struct SpanView {
    pub text: Seq<char>,
    pub style: Style,
}

impl View for Span {
    type V = SpanView;

    open spec fn view(&self) -> SpanView {
        SpanView { text: self.text@, style: self.style }
    }
}

/// A line of text.
#[derive(Debug, PartialEq, Eq)]
pub struct Line {
    pub spans: Vec<Span>,
}

impl View for Line {
    type V = Seq<SpanView>;

    open spec fn view(&self) -> Seq<SpanView> {
        self.spans@.map_values(|s: Span| s@)
    }
}

/// An item of a list, of one or more lines.
#[derive(Debug, PartialEq, Eq)]
pub struct Item {
    pub lines: Vec<Line>,
}

impl View for Item {
    type V = Seq<Seq<SpanView>>;

    open spec fn view(&self) -> Seq<Seq<SpanView>> {
        lines_view(self.lines@)
    }
}

/// The contents of items.
pub open spec fn items_view(items: Seq<Item>) -> Seq<Seq<Seq<SpanView>>> {
    items.map_values(|i: Item| i@)
}

/// The contents of lines.
pub open spec fn lines_view(lines: Seq<Line>) -> Seq<Seq<SpanView>> {
    lines.map_values(|l: Line| l@)
}

/// The sides of a widget on which a border is drawn.
#[derive(Clone, Copy, Debug, PartialEq, Eq, Structural)]
pub enum Borders {
    Bottom,
    All,
}

/// A part of the screen.
#[derive(Debug, PartialEq, Eq)]
pub enum Widget {
    /// Text without a border.
    Paragraph { line: Line },
    /// A row of tabs.
    Tabs { titles: Vec<Line>, borders: Borders },
    /// A list with a title.
    List { title: String, borders: Borders, items: Vec<Item> },
}

/// The mathematical content of a [`Widget`].
pub enum WidgetView {
    Paragraph { line: Seq<SpanView> },
    Tabs { titles: Seq<Seq<SpanView>>, borders: Borders },
    List { title: Seq<char>, borders: Borders, items: Seq<Seq<Seq<SpanView>>> },
}

impl View for Widget {
    type V = WidgetView;

    open spec fn view(&self) -> WidgetView {
        match self {
            Widget::Paragraph { line } => WidgetView::Paragraph { line: line@ },
            Widget::Tabs { titles, borders } => WidgetView::Tabs {
                titles: lines_view(titles@),
                borders: *borders,
            },
            Widget::List { title, borders, items } => WidgetView::List {
                title: title@,
                borders: *borders,
                items: items_view(items@),
            },
        }
    }
}

/// A widget and where it goes.
#[derive(Debug, PartialEq, Eq)]
pub struct Placed {
    pub area: Area,
    pub widget: Widget,
}

/// The colour of a pipeline or module status.
pub open spec fn status_color(status: Seq<char>) -> Color {
    if status == "complete"@ || status == "connected"@ {
        Color::Green
    } else if status == "queued"@ {
        Color::Blue
    } else if status == "processing"@ || status == "starting"@ || status == "disconnected"@ {
        Color::Yellow
    } else if status == "failed"@ || status == "crashed"@ {
        Color::Red
    } else if status == "audit"@ {
        Color::Magenta
    } else if status == "offline"@ {
        Color::DarkGray
    } else if status == "error"@ {
        Color::LightRed
    } else {
        Color::Gray
    }
}

/// The colour of a chat platform.
pub open spec fn color_of_platform(platform: Seq<char>) -> Color {
    if platform == "twitch"@ {
        Color::Magenta
    } else if platform == "youtube"@ {
        Color::Red
    } else if platform == "kick"@ {
        Color::Green
    } else if platform == "discord"@ {
        Color::Blue
    } else {
        Color::Cyan
    }
}

/// The colour in which a status is shown.
pub fn color_for_status(status: &str) -> (r: Color)
    ensures
        r == status_color(status@),
{
    if text::same_text(status, "complete") || text::same_text(status, "connected") {
        Color::Green
    } else if text::same_text(status, "queued") {
        Color::Blue
    } else if text::same_text(status, "processing") || text::same_text(status, "starting")
        || text::same_text(status, "disconnected") {
        Color::Yellow
    } else if text::same_text(status, "failed") || text::same_text(status, "crashed") {
        Color::Red
    } else if text::same_text(status, "audit") {
        Color::Magenta
    } else if text::same_text(status, "offline") {
        Color::DarkGray
    } else if text::same_text(status, "error") {
        Color::LightRed
    } else {
        Color::Gray
    }
}

/// The colour in which a platform is shown.
pub fn platform_color(p: &str) -> (r: Color)
    ensures
        r == color_of_platform(p@),
{
    if text::same_text(p, "twitch") {
        Color::Magenta
    } else if text::same_text(p, "youtube") {
        Color::Red
    } else if text::same_text(p, "kick") {
        Color::Green
    } else if text::same_text(p, "discord") {
        Color::Blue
    } else {
        Color::Cyan
    }
}

fn styled(text: String, color: Color) -> (r: Span)
    ensures
        r@ == (SpanView { text: text@, style: fg_style(color) }),
{
    Span { text, style: Style { fg: Some(color), bg: None, bold: false } }
}

fn raw(text: String) -> (r: Span)
    ensures
        r@ == (SpanView { text: text@, style: plain_style() }),
{
    Span { text, style: Style { fg: None, bg: None, bold: false } }
}

/// `text` between `before` and `after`.
fn wrapped(before: &str, text: &str, after: &str) -> (r: String)
    ensures
        r@ == before@ + text@ + after@,
{
    before.to_string().concat(text).concat(after)
}

/// A coloured span in contracts.
pub open spec fn colored(text: Seq<char>, color: Color) -> SpanView {
    SpanView { text, style: fg_style(color) }
}

/// An unstyled span in contracts.
pub open spec fn plain(text: Seq<char>) -> SpanView {
    SpanView { text, style: plain_style() }
}

/// The header: name, connection, counts and the last refresh.
pub open spec fn header_line(d: AuditView) -> Seq<SpanView> {
    seq![
        SpanView {
            text: " COCKATIEL AUDIT VIEWER "@,
            style: Style { fg: Some(Color::Cyan), bg: None, bold: true },
        },
        colored(
            " · "@ + (if d.connected {
                "connected"@
            } else {
                "connecting"@
            }),
            if d.connected {
                Color::Green
            } else {
                Color::Yellow
            },
        ),
        colored(
            " · "@ + text::decimal(d.messages.len()) + " msgs · "@ + text::decimal(d.errors.len())
                + " err · "@ + text::decimal(d.audit.len()) + " held · refresh "@ + (
            match d.last_refresh {
                Some(age) => age,
                None => "-"@,
            }),
            Color::DarkGray,
        ),
    ]
}

fn header(d: &AuditData) -> (r: Line)
    ensures
        r@ == header_line(d@),
{
    let status = if d.connected {
        "connected"
    } else {
        "connecting"
    };
    let status_color = if d.connected {
        Color::Green
    } else {
        Color::Yellow
    };
    let refresh = match &d.last_refresh {
        Some(age) => age.as_str(),
        None => "-",
    };
    let counts = " · ".to_string().concat(
        text::decimal_text(d.messages.len() as u64).as_str(),
    ).concat(" msgs · ").concat(text::decimal_text(d.errors.len() as u64).as_str()).concat(
        " err · ",
    ).concat(text::decimal_text(d.audit.len() as u64).as_str()).concat(" held · refresh ").concat(
        refresh,
    );
    let r = Line {
        spans: vec![
            Span {
                text: " COCKATIEL AUDIT VIEWER ".to_string(),
                style: Style { fg: Some(Color::Cyan), bg: None, bold: true },
            },
            styled(" · ".to_string().concat(status), status_color),
            styled(counts, Color::DarkGray),
        ],
    };
    assert(r@ =~= header_line(d@));
    r
}

/// The title of a tab, marked if it is in front.
pub open spec fn title_line(tab: Tab, front: Tab) -> Seq<SpanView> {
    let text = " "@ + tui::tab_label(tab) + " "@;
    if tab == front {
        seq![
            SpanView {
                text,
                style: Style { fg: Some(Color::Black), bg: Some(Color::Cyan), bold: true },
            },
        ]
    } else {
        seq![colored(text, Color::Gray)]
    }
}

/// The titles of all tabs.
pub open spec fn title_lines(front: Tab) -> Seq<Seq<SpanView>> {
    tui::tab_order().map_values(|t: Tab| title_line(t, front))
}

fn title(tab: Tab, front: Tab) -> (r: Line)
    ensures
        r@ == title_line(tab, front),
{
    let text = wrapped(" ", tab.label(), " ");
    let r = if tab == front {
        Line {
            spans: vec![
                Span {
                    text,
                    style: Style { fg: Some(Color::Black), bg: Some(Color::Cyan), bold: true },
                },
            ],
        }
    } else {
        Line { spans: vec![styled(text, Color::Gray)] }
    };
    assert(r@ =~= title_line(tab, front));
    r
}

fn titles(front: Tab) -> (r: Vec<Line>)
    ensures
        lines_view(r@) == title_lines(front),
{
    let tabs = Tab::all();
    let mut r: Vec<Line> = Vec::new();
    for i in 0..tabs.len()
        invariant
            tabs@ == tui::tab_order(),
            r@.len() == i,
            forall|j: int| 0 <= j < i ==> (#[trigger] r@[j])@ == title_line(tui::tab_order()[j], front),
    {
        r.push(title(tabs[i], front));
    }
    assert(lines_view(r@) =~= title_lines(front));
    r
}

/// A module in the column on the left: name, position and status.
pub open spec fn module_summary(m: JsonView) -> Seq<Seq<SpanView>> {
    let status = json::member_text(m, "status"@);
    seq![
        seq![
            plain("  "@),
            colored(json::member_text(m, "name"@), Color::White),
            colored(" ["@ + json::member_text(m, "position"@) + "]"@, Color::DarkGray),
            colored(" "@ + status, status_color(status)),
        ],
    ]
}

fn module_summary_item(m: &Json) -> (r: Item)
    ensures
        r@ == module_summary(m@),
{
    let name = json::member_cell(m, "name");
    let st = json::member_cell(m, "status");
    let pos = json::member_cell(m, "position");
    let color = color_for_status(st.as_str());
    let line = Line {
        spans: vec![
            raw("  ".to_string()),
            styled(name, Color::White),
            styled(wrapped(" [", pos.as_str(), "]"), Color::DarkGray),
            styled(" ".to_string().concat(st.as_str()), color),
        ],
    };
    assert(line@ =~= module_summary(m@)[0]);
    let r = Item { lines: vec![line] };
    assert(r@ =~= module_summary(m@));
    r
}

/// A message: platform, user and content, and below its age and status.
pub open spec fn message_lines(r: RowView) -> Seq<Seq<SpanView>> {
    seq![
        seq![
            colored("["@ + r.platform + "]"@, color_of_platform(r.platform)),
            colored(" "@ + r.user + " "@, Color::Yellow),
            plain(" "@),
            plain(text::truncated(r.content, 90)),
        ],
        seq![
            colored("   "@ + r.age, Color::DarkGray),
            colored(" "@ + r.status, status_color(r.status)),
        ],
    ]
}

fn message_item(row: &Row) -> (r: Item)
    ensures
        r@ == message_lines(row@),
{
    let color = color_for_status(row.status.as_str());
    let top = Line {
        spans: vec![
            styled(
                wrapped("[", row.platform.as_str(), "]"),
                platform_color(row.platform.as_str()),
            ),
            styled(wrapped(" ", row.user.as_str(), " "), Color::Yellow),
            raw(" ".to_string()),
            raw(text::truncate(row.content.as_str(), 90)),
        ],
    };
    let below = Line {
        spans: vec![
            styled("   ".to_string().concat(row.age.as_str()), Color::DarkGray),
            styled(" ".to_string().concat(row.status.as_str()), color),
        ],
    };
    assert(top@ =~= message_lines(row@)[0]);
    assert(below@ =~= message_lines(row@)[1]);
    let r = Item { lines: vec![top, below] };
    assert(r@ =~= message_lines(row@));
    r
}

/// An error: platform and content, and below its age, status and message.
pub open spec fn error_lines(r: RowView) -> Seq<Seq<SpanView>> {
    seq![
        seq![
            colored("["@ + r.platform + "]"@, Color::Red),
            plain(" "@),
            plain(text::truncated(r.content, 90)),
        ],
        seq![
            colored("   "@ + r.age, Color::DarkGray),
            colored(" "@ + r.status + " "@, Color::Red),
            plain(text::truncated(r.error, 60)),
        ],
    ]
}

fn error_item(row: &Row) -> (r: Item)
    ensures
        r@ == error_lines(row@),
{
    let top = Line {
        spans: vec![
            styled(wrapped("[", row.platform.as_str(), "]"), Color::Red),
            raw(" ".to_string()),
            raw(text::truncate(row.content.as_str(), 90)),
        ],
    };
    let below = Line {
        spans: vec![
            styled("   ".to_string().concat(row.age.as_str()), Color::DarkGray),
            styled(wrapped(" ", row.status.as_str(), " "), Color::Red),
            raw(text::truncate(row.error.as_str(), 60)),
        ],
    };
    assert(top@ =~= error_lines(row@)[0]);
    assert(below@ =~= error_lines(row@)[1]);
    let r = Item { lines: vec![top, below] };
    assert(r@ =~= error_lines(row@));
    r
}

/// A message held for review.
pub open spec fn held_lines(r: RowView) -> Seq<Seq<SpanView>> {
    seq![
        seq![
            colored("["@ + r.platform + "]"@, color_of_platform(r.platform)),
            colored(" "@ + r.user + " "@, Color::Yellow),
            plain(" "@),
            plain(text::truncated(r.content, 90)),
        ],
        seq![
            colored("   "@ + r.age, Color::DarkGray),
            colored(" held for review"@, Color::Magenta),
        ],
    ]
}

fn held_item(row: &Row) -> (r: Item)
    ensures
        r@ == held_lines(row@),
{
    let top = Line {
        spans: vec![
            styled(
                wrapped("[", row.platform.as_str(), "]"),
                platform_color(row.platform.as_str()),
            ),
            styled(wrapped(" ", row.user.as_str(), " "), Color::Yellow),
            raw(" ".to_string()),
            raw(text::truncate(row.content.as_str(), 90)),
        ],
    };
    let below = Line {
        spans: vec![
            styled("   ".to_string().concat(row.age.as_str()), Color::DarkGray),
            styled(" held for review".to_string(), Color::Magenta),
        ],
    };
    assert(top@ =~= held_lines(row@)[0]);
    assert(below@ =~= held_lines(row@)[1]);
    let r = Item { lines: vec![top, below] };
    assert(r@ =~= held_lines(row@));
    r
}

/// A log line.
pub open spec fn log_lines(line: Seq<char>) -> Seq<Seq<SpanView>> {
    seq![seq![plain(text::truncated(line, 120))]]
}

fn log_item(line: &String) -> (r: Item)
    ensures
        r@ == log_lines(line@),
{
    let top = Line { spans: vec![raw(text::truncate(line.as_str(), 120))] };
    assert(top@ =~= log_lines(line@)[0]);
    let r = Item { lines: vec![top] };
    assert(r@ =~= log_lines(line@));
    r
}

/// A module in full: name, position and status in columns, and below its
/// description.
pub open spec fn module_lines(m: JsonView) -> Seq<Seq<SpanView>> {
    let status = json::member_text(m, "status"@);
    seq![
        seq![
            colored(text::padded(json::member_text(m, "name"@), 22), Color::White),
            colored(text::padded(json::member_text(m, "position"@), 12), Color::DarkGray),
            colored(status, status_color(status)),
        ],
        seq![
            colored(
                "   "@ + text::truncated(json::member_text(m, "description"@), 100),
                Color::DarkGray,
            ),
        ],
    ]
}

fn module_item(m: &Json) -> (r: Item)
    ensures
        r@ == module_lines(m@),
{
    let name = json::member_cell(m, "name");
    let st = json::member_cell(m, "status");
    let pos = json::member_cell(m, "position");
    let desc = json::member_cell(m, "description");
    let color = color_for_status(st.as_str());
    let top = Line {
        spans: vec![
            styled(text::pad_right(name.as_str(), 22), Color::White),
            styled(text::pad_right(pos.as_str(), 12), Color::DarkGray),
            styled(st, color),
        ],
    };
    let below = Line {
        spans: vec![
            styled(
                "   ".to_string().concat(text::truncate(desc.as_str(), 100).as_str()),
                Color::DarkGray,
            ),
        ],
    };
    assert(top@ =~= module_lines(m@)[0]);
    assert(below@ =~= module_lines(m@)[1]);
    let r = Item { lines: vec![top, below] };
    assert(r@ =~= module_lines(m@));
    r
}

/// The items of a tab.
pub open spec fn tab_items(tab: Tab, d: AuditView) -> Seq<Seq<Seq<SpanView>>> {
    match tab {
        Tab::Messages => d.messages.map_values(|r: RowView| message_lines(r)),
        Tab::Errors => d.errors.map_values(|r: RowView| error_lines(r)),
        Tab::Audit => d.audit.map_values(|r: RowView| held_lines(r)),
        Tab::Logs => d.logs.map_values(|l: Seq<char>| log_lines(l)),
        Tab::Modules => d.modules.map_values(|m: JsonView| module_lines(m)),
    }
}

fn content_items(tab: Tab, d: &AuditData) -> (r: Vec<Item>)
    ensures
        items_view(r@) == tab_items(tab, d@),
{
    let mut r: Vec<Item> = Vec::new();
    match tab {
        Tab::Messages => {
            for i in 0..d.messages.len()
                invariant
                    r@.len() == i,
                    forall|j: int| 0 <= j < i ==> (#[trigger] r@[j])@ == message_lines(d.messages@[j]@),
            {
                r.push(message_item(&d.messages[i]));
            }
        },
        Tab::Errors => {
            for i in 0..d.errors.len()
                invariant
                    r@.len() == i,
                    forall|j: int| 0 <= j < i ==> (#[trigger] r@[j])@ == error_lines(d.errors@[j]@),
            {
                r.push(error_item(&d.errors[i]));
            }
        },
        Tab::Audit => {
            for i in 0..d.audit.len()
                invariant
                    r@.len() == i,
                    forall|j: int| 0 <= j < i ==> (#[trigger] r@[j])@ == held_lines(d.audit@[j]@),
            {
                r.push(held_item(&d.audit[i]));
            }
        },
        Tab::Logs => {
            for i in 0..d.logs.len()
                invariant
                    r@.len() == i,
                    forall|j: int| 0 <= j < i ==> (#[trigger] r@[j])@ == log_lines(d.logs@[j]@),
            {
                r.push(log_item(&d.logs[i]));
            }
        },
        Tab::Modules => {
            for i in 0..d.modules.len()
                invariant
                    r@.len() == i,
                    forall|j: int| 0 <= j < i ==> (#[trigger] r@[j])@ == module_lines(d.modules@[j]@),
            {
                r.push(module_item(&d.modules[i]));
            }
        },
    }
    assert(items_view(r@) =~= tab_items(tab, d@));
    r
}

/// What an empty list shows.
pub open spec fn nothing_yet() -> Seq<Seq<SpanView>> {
    seq![seq![colored("  (nothing here yet)"@, Color::DarkGray)]]
}

/// The first item in view: the scroll position, but never beyond the last item.
pub open spec fn first_visible(len: nat, scroll: nat) -> nat {
    if len == 0 {
        0
    } else if scroll < len {
        scroll
    } else {
        (len - 1) as nat
    }
}

/// The items in view.
pub open spec fn visible(items: Seq<Seq<Seq<SpanView>>>, scroll: nat) -> Seq<Seq<Seq<SpanView>>> {
    if items.len() == 0 {
        seq![nothing_yet()]
    } else {
        items.skip(first_visible(items.len(), scroll) as int)
    }
}

fn visible_items(all: Vec<Item>, scroll: usize) -> (r: Vec<Item>)
    ensures
        items_view(r@) == visible(items_view(all@), scroll as nat),
{
    let mut items = all;
    let last: usize = items.len().saturating_sub(1);
    let start: usize = if scroll < last {
        scroll
    } else {
        last
    };
    if items.len() == 0 {
        let line = Line { spans: vec![styled("  (nothing here yet)".to_string(), Color::DarkGray)] };
        assert(line@ =~= nothing_yet()[0]);
        let item = Item { lines: vec![line] };
        assert(item@ =~= nothing_yet());
        let r = vec![item];
        assert(items_view(r@) =~= visible(items_view(all@), scroll as nat));
        r
    } else {
        let r = items.split_off(start);
        assert(items_view(r@) =~= visible(items_view(all@), scroll as nat));
        r
    }
}

/// The footer: the keys.
pub open spec fn footer_line() -> Seq<SpanView> {
    seq![
        colored(" Tab/Shift+Tab: switch · j/k: scroll · r: refresh · q: quit "@, Color::DarkGray),
    ]
}

/// The widgets of the screen, in the order in which they are drawn.
pub open spec fn screen(tab: Tab, scroll: nat, d: AuditView) -> Seq<WidgetView> {
    seq![
        WidgetView::Paragraph { line: header_line(d) },
        WidgetView::Tabs { titles: title_lines(tab), borders: Borders::Bottom },
        WidgetView::List {
            title: " modules "@,
            borders: Borders::All,
            items: d.modules.map_values(|m: JsonView| module_summary(m)),
        },
        WidgetView::List {
            title: " "@ + tui::tab_label(tab) + " "@,
            borders: Borders::All,
            items: visible(tab_items(tab, d), scroll),
        },
        WidgetView::Paragraph { line: footer_line() },
    ]
}

/// The areas of the widgets, in the same order.
pub open spec fn places(areas: layout::ScreenAreas) -> Seq<Area> {
    seq![areas.header, areas.tabs, areas.modules, areas.content, areas.footer]
}

/// Where placed widgets go, and what they show.
pub open spec fn placed_view(placed: Seq<Placed>) -> Seq<(Area, WidgetView)> {
    placed.map_values(|p: Placed| (p.area, p.widget@))
}

/// What is drawn on a screen: each widget with its area, in order.
pub open spec fn drawn(size: Area, tab: Tab, scroll: nat, d: AuditView) -> Seq<(Area, WidgetView)> {
    Seq::new(
        5,
        |i: int| (places(layout::areas_in(size))[i], screen(tab, scroll, d)[i]),
    )
}

/// Draws the screen: what is shown, and where.
pub fn draw(size: Area, tab: Tab, scroll: usize, d: &AuditData) -> (r: Vec<Placed>)
    ensures
        placed_view(r@) == drawn(size, tab, scroll as nat, d@),
{
    let areas = layout::screen_areas(size);
    let mut summaries: Vec<Item> = Vec::new();
    for i in 0..d.modules.len()
        invariant
            summaries@.len() == i,
            forall|j: int|
                0 <= j < i ==> (#[trigger] summaries@[j])@ == module_summary(d.modules@[j]@),
    {
        summaries.push(module_summary_item(&d.modules[i]));
    }
    let footer = Line {
        spans: vec![
            styled(
                " Tab/Shift+Tab: switch · j/k: scroll · r: refresh · q: quit ".to_string(),
                Color::DarkGray,
            ),
        ],
    };
    assert(footer@ =~= footer_line());
    assert(items_view(summaries@) =~= d@.modules.map_values(|m: JsonView| module_summary(m)));
    let r = vec![
        Placed { area: areas.header, widget: Widget::Paragraph { line: header(d) } },
        Placed {
            area: areas.tabs,
            widget: Widget::Tabs { titles: titles(tab), borders: Borders::Bottom },
        },
        Placed {
            area: areas.modules,
            widget: Widget::List {
                title: " modules ".to_string(),
                borders: Borders::All,
                items: summaries,
            },
        },
        Placed {
            area: areas.content,
            widget: Widget::List {
                title: wrapped(" ", tab.label(), " "),
                borders: Borders::All,
                items: visible_items(content_items(tab, d), scroll),
            },
        },
        Placed { area: areas.footer, widget: Widget::Paragraph { line: footer } },
    ];
    assert(placed_view(r@) =~= drawn(size, tab, scroll as nat, d@));
    r
}

/// Something is always in view, and the last item always is.
pub proof fn last_item_is_always_visible(items: Seq<Seq<Seq<SpanView>>>, scroll: nat)
    ensures
        visible(items, scroll).len() > 0,
        items.len() > 0 ==> visible(items, scroll).last() == items.last(),
{
}

/// Unscrolled, a list is shown whole.
pub proof fn top_shows_everything(items: Seq<Seq<Seq<SpanView>>>)
    requires
        items.len() > 0,
    ensures
        visible(items, 0) == items,
{
    assert(visible(items, 0) =~= items);
}

/// Scrolling down by one line drops the first item in view, and no more once
/// the last item is at the top.
pub proof fn scrolling_drops_the_first(items: Seq<Seq<Seq<SpanView>>>, scroll: nat)
    requires
        items.len() > 0,
    ensures
        scroll + 1 < items.len() ==> visible(items, scroll + 1) == visible(items, scroll).skip(1),
        scroll + 1 >= items.len() ==> visible(items, scroll + 1) == visible(items, scroll) && visible(
            items,
            scroll,
        ) == seq![items.last()],
{
    if scroll + 1 < items.len() {
        assert(visible(items, scroll + 1) =~= visible(items, scroll).skip(1));
    } else {
        assert(visible(items, scroll) =~= seq![items.last()]);
        assert(visible(items, scroll + 1) =~= visible(items, scroll));
    }
}

/// Exactly the tab in front is marked.
pub proof fn front_tab_is_marked(front: Tab, i: int)
    requires
        0 <= i < 5,
    ensures
        title_lines(front)[i][0].style.bold <==> tui::tab_order()[i] == front,
{
}

/// The number of items of a tab.
pub open spec fn item_count(tab: Tab, d: AuditView) -> nat {
    match tab {
        Tab::Messages => d.messages.len(),
        Tab::Errors => d.errors.len(),
        Tab::Audit => d.audit.len(),
        Tab::Logs => d.logs.len(),
        Tab::Modules => d.modules.len(),
    }
}

/// Once the last item is at the top, scrolling on changes nothing on the screen.
pub proof fn scrolling_past_the_end_changes_nothing(
    size: Area,
    tab: Tab,
    s1: nat,
    s2: nat,
    d: AuditView,
)
    requires
        s1 + 1 >= item_count(tab, d),
        s2 + 1 >= item_count(tab, d),
    ensures
        screen(tab, s1, d) == screen(tab, s2, d),
        drawn(size, tab, s1, d) == drawn(size, tab, s2, d),
{
    let items = tab_items(tab, d);
    assert(items.len() == item_count(tab, d));
    assert(visible(items, s1) == visible(items, s2));
    assert(screen(tab, s1, d) =~= screen(tab, s2, d));
}

/// Two states of the data differ in the contents of the tab `hidden` alone, and
/// not in the count that the header shows of it.
pub open spec fn differ_in_tab_only(hidden: Tab, d: AuditView, e: AuditView) -> bool {
    match hidden {
        Tab::Messages => d == (AuditView { messages: d.messages, ..e }) && d.messages.len()
            == e.messages.len(),
        Tab::Errors => d == (AuditView { errors: d.errors, ..e }) && d.errors.len()
            == e.errors.len(),
        Tab::Audit => d == (AuditView { audit: d.audit, ..e }) && d.audit.len() == e.audit.len(),
        Tab::Logs => d == (AuditView { logs: d.logs, ..e }),
        Tab::Modules => d == e,
    }
}

/// The contents of a tab that is not in front do not show, but for the counts in
/// the header and the modules, which stand beside every tab.
pub proof fn hidden_tabs_do_not_show(
    size: Area,
    front: Tab,
    hidden: Tab,
    scroll: nat,
    d: AuditView,
    e: AuditView,
)
    requires
        hidden != front,
        differ_in_tab_only(hidden, d, e),
    ensures
        screen(front, scroll, d) == screen(front, scroll, e),
        drawn(size, front, scroll, d) == drawn(size, front, scroll, e),
{
    assert(header_line(d) == header_line(e));
    assert(tab_items(front, d) == tab_items(front, e));
    assert(screen(front, scroll, d) =~= screen(front, scroll, e));
}

/// The header's counts are those of the lists, in decimal, each before its unit,
/// and then comes the last refresh.
pub proof fn header_counts_the_lists(d: AuditView, messages: nat, errors: nat, held: nat)
    requires
        d.messages.len() == messages,
        d.errors.len() == errors,
        d.audit.len() == held,
    ensures
        ({
            let t = header_line(d)[2].text;
            let a = 3 + text::decimal(messages).len() as int;
            let b = a + 8 + text::decimal(errors).len() as int;
            let c = b + 7 + text::decimal(held).len() as int;
            &&& t.take(3) == " · "@
            &&& t.subrange(3, a) == text::decimal(messages)
            &&& t.subrange(a, a + 8) == " msgs · "@
            &&& t.subrange(a + 8, b) == text::decimal(errors)
            &&& t.subrange(b, b + 7) == " err · "@
            &&& t.subrange(b + 7, c) == text::decimal(held)
            &&& t.subrange(c, c + 16) == " held · refresh "@
            &&& d.last_refresh matches Some(age) ==> t.skip(c + 16) == age
            &&& d.last_refresh is None ==> t.skip(c + 16) == seq!['-']
        }),
{
    reveal_strlit(" · ");
    reveal_strlit(" msgs · ");
    reveal_strlit(" err · ");
    reveal_strlit(" held · refresh ");
    reveal_strlit("-");
    let t = header_line(d)[2].text;
    let a = 3 + text::decimal(messages).len() as int;
    let b = a + 8 + text::decimal(errors).len() as int;
    let c = b + 7 + text::decimal(held).len() as int;
    assert(t.take(3) =~= " · "@);
    assert(t.subrange(3, a) =~= text::decimal(messages));
    assert(t.subrange(a, a + 8) =~= " msgs · "@);
    assert(t.subrange(a + 8, b) =~= text::decimal(errors));
    assert(t.subrange(b, b + 7) =~= " err · "@);
    assert(t.subrange(b + 7, c) =~= text::decimal(held));
    assert(t.subrange(c, c + 16) =~= " held · refresh "@);
    match d.last_refresh {
        Some(age) => {
            assert(t.skip(c + 16) =~= age);
        },
        None => {
            assert(t.skip(c + 16) =~= seq!['-']);
        },
    }
}

/// The header depends on the lengths of the three lists, the connection and the
/// last refresh, and on nothing else: not on rows, log lines or modules.
pub proof fn header_depends_on_counts_alone(d: AuditView, e: AuditView)
    requires
        d.messages.len() == e.messages.len(),
        d.errors.len() == e.errors.len(),
        d.audit.len() == e.audit.len(),
        d.connected == e.connected,
        d.last_refresh == e.last_refresh,
    ensures
        header_line(d) == header_line(e),
{
}

/// A list that grows or shrinks shows in the header.
pub proof fn header_tells_counts_apart(d: AuditView, e: AuditView)
    requires
        header_line(d) == header_line(e),
    ensures
        d.messages.len() == e.messages.len(),
        d.errors.len() == e.errors.len(),
        d.audit.len() == e.audit.len(),
        d.connected == e.connected,
{
    let (m, n) = (d.messages.len(), e.messages.len());
    header_counts_the_lists(d, m, d.errors.len(), d.audit.len());
    header_counts_the_lists(e, n, e.errors.len(), e.audit.len());
    header_tells_the_connection(d);
    header_tells_the_connection(e);
    text::decimal_reads_back(m);
    text::decimal_reads_back(n);
    text::decimal_reads_back(d.errors.len());
    text::decimal_reads_back(e.errors.len());
    text::decimal_reads_back(d.audit.len());
    text::decimal_reads_back(e.audit.len());
    reveal_strlit(" msgs · ");
    reveal_strlit(" err · ");
    reveal_strlit(" held · refresh ");
    reveal_strlit("connected");
    reveal_strlit("connecting");
    let t = header_line(d)[2].text;
    let a = 3 + text::decimal(m).len() as int;
    let x = 3 + text::decimal(n).len() as int;
    assert(t.subrange(a, a + 8)[0] == t[a] && t[a] == ' ');
    assert(t.subrange(x, x + 8)[0] == t[x] && t[x] == ' ');
    if a < x {
        assert(t.subrange(3, x)[a - 3] == t[a]);
    }
    if x < a {
        assert(t.subrange(3, a)[x - 3] == t[x]);
    }
    assert(m == n);
    let b = a + 8 + text::decimal(d.errors.len()).len() as int;
    let y = a + 8 + text::decimal(e.errors.len()).len() as int;
    assert(t.subrange(b, b + 7)[0] == t[b] && t[b] == ' ');
    assert(t.subrange(y, y + 7)[0] == t[y] && t[y] == ' ');
    if b < y {
        assert(t.subrange(a + 8, y)[b - a - 8] == t[b]);
    }
    if y < b {
        assert(t.subrange(a + 8, b)[y - a - 8] == t[y]);
    }
    assert(d.errors.len() == e.errors.len());
    let c = b + 7 + text::decimal(d.audit.len()).len() as int;
    let z = b + 7 + text::decimal(e.audit.len()).len() as int;
    assert(t.subrange(c, c + 16)[0] == t[c] && t[c] == ' ');
    assert(t.subrange(z, z + 16)[0] == t[z] && t[z] == ' ');
    if c < z {
        assert(t.subrange(b + 7, z)[c - b - 7] == t[c]);
    }
    if z < c {
        assert(t.subrange(b + 7, c)[z - b - 7] == t[z]);
    }
    assert(d.audit.len() == e.audit.len());
    if d.connected != e.connected {
        assert(header_line(d)[1].style != header_line(e)[1].style);
    }
}

/// The header says in green that the viewer is connected, or in yellow that it
/// is not yet.
pub proof fn header_tells_the_connection(d: AuditView)
    ensures
        header_line(d).len() == 3,
        header_line(d)[1].text.take(3) == " · "@,
        d.connected ==> header_line(d)[1].text.skip(3) == "connected"@
            && header_line(d)[1].style == fg_style(Color::Green),
        !d.connected ==> header_line(d)[1].text.skip(3) == "connecting"@
            && header_line(d)[1].style == fg_style(Color::Yellow),
{
    reveal_strlit(" · ");
    assert(header_line(d)[1].text.take(3) =~= " · "@);
    if d.connected {
        assert(header_line(d)[1].text.skip(3) =~= "connected"@);
    } else {
        assert(header_line(d)[1].text.skip(3) =~= "connecting"@);
    }
}

/// Whatever is known, the header begins with the viewer's name in bold cyan, and
/// the counts are in dark gray.
pub proof fn header_begins_with_the_name(d: AuditView)
    ensures
        header_line(d)[0].text == " COCKATIEL AUDIT VIEWER "@,
        header_line(d)[0].style.fg == Some(Color::Cyan),
        header_line(d)[0].style.bg is None,
        header_line(d)[0].style.bold,
        header_line(d)[2].style == fg_style(Color::DarkGray),
{
}

/// Every tab has its title, between two spaces, and only the front one is
/// marked, in black on cyan.
pub proof fn every_tab_has_its_title(front: Tab, i: int)
    requires
        0 <= i < 5,
    ensures
        title_lines(front).len() == 5,
        title_lines(front)[i].len() == 1,
        ({
            let tab = tui::tab_order()[i];
            let span = title_lines(front)[i][0];
            &&& span.text[0] == ' '
            &&& span.text.last() == ' '
            &&& span.text.subrange(1, span.text.len() - 1) == tui::tab_label(tab)
            &&& tab == front ==> span.style.fg == Some(Color::Black) && span.style.bg == Some(
                Color::Cyan,
            )
            &&& tab != front ==> span.style.fg == Some(Color::Gray) && span.style.bg is None
        }),
{
    reveal_strlit(" ");
    let tab = tui::tab_order()[i];
    let span = title_lines(front)[i][0];
    assert(span.text.subrange(1, span.text.len() - 1) =~= tui::tab_label(tab));
}

/// A text is shown up to a limit: whole where it fits, else its beginning and an
/// ellipsis.
pub open spec fn shown_up_to(shown: Seq<char>, whole: Seq<char>, max: int) -> bool {
    &&& whole.len() <= max ==> shown == whole
    &&& whole.len() > max ==> shown.len() == max + 1 && shown.take(max) == whole.take(max)
        && shown[max] == '…'
}

/// A message shows its platform and user whole, its content up to ninety
/// characters, and its age and status whole.
pub proof fn message_shows_its_row(r: RowView)
    ensures
        ({
            let l = message_lines(r);
            &&& l.len() == 2 && l[0].len() == 4 && l[1].len() == 2
            &&& l[0][0].text == seq!['['] + r.platform + seq![']']
            &&& l[0][1].text == seq![' '] + r.user + seq![' ']
            &&& l[0][2].text == seq![' ']
            &&& shown_up_to(l[0][3].text, r.content, 90)
            &&& l[1][0].text == seq![' ', ' ', ' '] + r.age
            &&& l[1][1].text == seq![' '] + r.status
            &&& l[0][0].style == fg_style(color_of_platform(r.platform))
            &&& l[0][1].style == fg_style(Color::Yellow)
            &&& l[0][2].style == plain_style() && l[0][3].style == plain_style()
            &&& l[1][0].style == fg_style(Color::DarkGray)
            &&& l[1][1].style == fg_style(status_color(r.status))
        }),
{
    reveal_strlit("[");
    reveal_strlit("]");
    reveal_strlit(" ");
    reveal_strlit("   ");
    text::truncation_keeps_what_fits(r.content, 90);
    let l = message_lines(r);
    assert(l[0][0].text =~= seq!['['] + r.platform + seq![']']);
    assert(l[0][1].text =~= seq![' '] + r.user + seq![' ']);
    assert(l[0][2].text =~= seq![' ']);
    assert(l[1][0].text =~= seq![' ', ' ', ' '] + r.age);
    assert(l[1][1].text =~= seq![' '] + r.status);
}

/// An error shows its platform, age and status whole, its content up to ninety
/// characters and its message up to sixty, in red.
pub proof fn error_shows_its_row(r: RowView)
    ensures
        ({
            let l = error_lines(r);
            &&& l.len() == 2 && l[0].len() == 3 && l[1].len() == 3
            &&& l[0][0].text == seq!['['] + r.platform + seq![']']
            &&& l[0][1].text == seq![' ']
            &&& shown_up_to(l[0][2].text, r.content, 90)
            &&& l[1][0].text == seq![' ', ' ', ' '] + r.age
            &&& l[1][1].text == seq![' '] + r.status + seq![' ']
            &&& shown_up_to(l[1][2].text, r.error, 60)
            &&& l[0][0].style == fg_style(Color::Red)
            &&& l[0][1].style == plain_style() && l[0][2].style == plain_style()
            &&& l[1][0].style == fg_style(Color::DarkGray)
            &&& l[1][1].style == fg_style(Color::Red)
            &&& l[1][2].style == plain_style()
        }),
{
    reveal_strlit("[");
    reveal_strlit("]");
    reveal_strlit(" ");
    reveal_strlit("   ");
    text::truncation_keeps_what_fits(r.content, 90);
    text::truncation_keeps_what_fits(r.error, 60);
    let l = error_lines(r);
    assert(l[0][0].text =~= seq!['['] + r.platform + seq![']']);
    assert(l[0][1].text =~= seq![' ']);
    assert(l[1][0].text =~= seq![' ', ' ', ' '] + r.age);
    assert(l[1][1].text =~= seq![' '] + r.status + seq![' ']);
}

/// A held message shows its platform, user and age whole, its content up to
/// ninety characters, and that it is held.
pub proof fn held_message_shows_its_row(r: RowView)
    ensures
        ({
            let l = held_lines(r);
            &&& l.len() == 2 && l[0].len() == 4 && l[1].len() == 2
            &&& l[0][0].text == seq!['['] + r.platform + seq![']']
            &&& l[0][1].text == seq![' '] + r.user + seq![' ']
            &&& l[0][2].text == seq![' ']
            &&& shown_up_to(l[0][3].text, r.content, 90)
            &&& l[1][0].text == seq![' ', ' ', ' '] + r.age
            &&& l[1][1].text == " held for review"@
            &&& l[0][0].style == fg_style(color_of_platform(r.platform))
            &&& l[0][1].style == fg_style(Color::Yellow)
            &&& l[0][2].style == plain_style() && l[0][3].style == plain_style()
            &&& l[1][0].style == fg_style(Color::DarkGray)
            &&& l[1][1].style == fg_style(Color::Magenta)
        }),
{
    reveal_strlit("[");
    reveal_strlit("]");
    reveal_strlit(" ");
    reveal_strlit("   ");
    text::truncation_keeps_what_fits(r.content, 90);
    let l = held_lines(r);
    assert(l[0][0].text =~= seq!['['] + r.platform + seq![']']);
    assert(l[0][1].text =~= seq![' '] + r.user + seq![' ']);
    assert(l[0][2].text =~= seq![' ']);
    assert(l[1][0].text =~= seq![' ', ' ', ' '] + r.age);
}

/// A log line is shown up to a hundred and twenty characters.
pub proof fn log_line_is_shown(line: Seq<char>)
    ensures
        log_lines(line).len() == 1,
        log_lines(line)[0].len() == 1,
        shown_up_to(log_lines(line)[0][0].text, line, 120),
        log_lines(line)[0][0].style == plain_style(),
{
    text::truncation_keeps_what_fits(line, 120);
}

/// The column of modules shows what a module's members hold, whole, and its
/// status in the colour of the status.
pub proof fn summary_shows_the_module(entries: Seq<(Seq<char>, JsonView)>, i: int)
    requires
        json::names_distinct(entries),
        0 <= i < entries.len(),
    ensures
        ({
            let l = module_summary(JsonView::Object(entries));
            let shown = json::cell_text(entries[i].1);
            &&& l.len() == 1 && l[0].len() == 4
            &&& l[0][0].text == seq![' ', ' '] && l[0][0].style == plain_style()
            &&& l[0][1].style == fg_style(Color::White)
            &&& l[0][2].style == fg_style(Color::DarkGray)
            &&& entries[i].0 == "name"@ ==> l[0][1].text == shown
            &&& entries[i].0 == "position"@ ==> l[0][2].text == seq![' ', '['] + shown + seq![']']
            &&& entries[i].0 == "status"@ ==> l[0][3].text == seq![' '] + shown && l[0][3].style
                == fg_style(status_color(shown))
        }),
{
    json::member_is_its_entry(entries, i);
    reveal_strlit("  ");
    reveal_strlit(" [");
    reveal_strlit("]");
    reveal_strlit(" ");
    assert("  "@ =~= seq![' ', ' ']);
    let m = JsonView::Object(entries);
    let l = module_summary(m);
    let shown = json::cell_text(entries[i].1);
    if entries[i].0 == "position"@ {
        assert(l[0][2].text =~= seq![' ', '['] + shown + seq![']']);
    }
    if entries[i].0 == "status"@ {
        assert(l[0][3].text =~= seq![' '] + shown);
    }
}

/// A text stands at the left of a column, filled with spaces and never cut.
pub open spec fn in_column(shown: Seq<char>, whole: Seq<char>, width: int) -> bool {
    &&& shown.len() == if whole.len() < width {
        width
    } else {
        whole.len() as int
    }
    &&& shown.take(whole.len() as int) == whole
    &&& forall|j: int| whole.len() <= j < shown.len() ==> #[trigger] shown[j] == ' '
}

/// A module is shown with what its members hold: name and position in columns,
/// the status in its colour and the description up to a hundred characters.
pub proof fn module_shows_its_members(entries: Seq<(Seq<char>, JsonView)>, i: int)
    requires
        json::names_distinct(entries),
        0 <= i < entries.len(),
    ensures
        ({
            let l = module_lines(JsonView::Object(entries));
            let shown = json::cell_text(entries[i].1);
            &&& l.len() == 2 && l[0].len() == 3 && l[1].len() == 1
            &&& entries[i].0 == "name"@ ==> in_column(l[0][0].text, shown, 22)
            &&& entries[i].0 == "position"@ ==> in_column(l[0][1].text, shown, 12)
            &&& entries[i].0 == "status"@ ==> l[0][2].text == shown && l[0][2].style == fg_style(
                status_color(shown),
            )
            &&& entries[i].0 == "description"@ ==> shown_up_to(l[1][0].text.skip(3), shown, 100)
            &&& l[1][0].text.take(3) == seq![' ', ' ', ' ']
            &&& l[0][0].style == fg_style(Color::White)
            &&& l[0][1].style == fg_style(Color::DarkGray)
            &&& l[1][0].style == fg_style(Color::DarkGray)
        }),
{
    json::member_is_its_entry(entries, i);
    reveal_strlit("   ");
    let l = module_lines(JsonView::Object(entries));
    let shown = json::cell_text(entries[i].1);
    assert(l[1][0].text.take(3) =~= seq![' ', ' ', ' ']);
    text::padding_fills_the_column(shown, 22);
    text::padding_fills_the_column(shown, 12);
    text::truncation_keeps_what_fits(shown, 100);
    if entries[i].0 == "description"@ {
        assert(l[1][0].text.skip(3) =~= text::truncated(shown, 100));
    }
}

/// A module shows its name, position, status and description in both places as
/// the cells that its document gives for them, and nothing where it gives none.
pub proof fn module_is_shown_by_its_cells(m: JsonView)
    ensures
        ({
            let name = json::member_text(m, "name"@);
            let position = json::member_text(m, "position"@);
            let status = json::member_text(m, "status"@);
            let description = json::member_text(m, "description"@);
            let short = module_summary(m)[0];
            let full = module_lines(m);
            &&& module_summary(m).len() == 1 && short.len() == 4
            &&& short[0].text == seq![' ', ' ']
            &&& short[1].text == name
            &&& short[2].text == seq![' ', '['] + position + seq![']']
            &&& short[3].text == seq![' '] + status
            &&& short[3].style == fg_style(status_color(status))
            &&& full.len() == 2 && full[0].len() == 3 && full[1].len() == 1
            &&& in_column(full[0][0].text, name, 22)
            &&& in_column(full[0][1].text, position, 12)
            &&& full[0][2].text == status
            &&& full[0][2].style == fg_style(status_color(status))
            &&& full[1][0].text.take(3) == seq![' ', ' ', ' ']
            &&& shown_up_to(full[1][0].text.skip(3), description, 100)
        }),
{
    reveal_strlit("  ");
    reveal_strlit("   ");
    reveal_strlit(" [");
    reveal_strlit("]");
    reveal_strlit(" ");
    let description = json::member_text(m, "description"@);
    let short = module_summary(m)[0];
    let full = module_lines(m);
    assert(short[0].text =~= seq![' ', ' ']);
    assert(short[2].text =~= seq![' ', '['] + json::member_text(m, "position"@) + seq![']']);
    assert(short[3].text =~= seq![' '] + json::member_text(m, "status"@));
    text::padding_fills_the_column(json::member_text(m, "name"@), 22);
    text::padding_fills_the_column(json::member_text(m, "position"@), 12);
    text::truncation_keeps_what_fits(description, 100);
    assert(full[1][0].text.take(3) =~= seq![' ', ' ', ' ']);
    assert(full[1][0].text.skip(3) =~= text::truncated(description, 100));
}

/// Every row, log line and module has its item on its tab, in the same place.
pub proof fn every_entry_has_its_item(d: AuditView, i: int)
    ensures
        tab_items(Tab::Messages, d).len() == d.messages.len(),
        tab_items(Tab::Errors, d).len() == d.errors.len(),
        tab_items(Tab::Audit, d).len() == d.audit.len(),
        tab_items(Tab::Logs, d).len() == d.logs.len(),
        tab_items(Tab::Modules, d).len() == d.modules.len(),
        0 <= i < d.messages.len() ==> tab_items(Tab::Messages, d)[i] == message_lines(
            d.messages[i],
        ),
        0 <= i < d.errors.len() ==> tab_items(Tab::Errors, d)[i] == error_lines(d.errors[i]),
        0 <= i < d.audit.len() ==> tab_items(Tab::Audit, d)[i] == held_lines(d.audit[i]),
        0 <= i < d.logs.len() ==> tab_items(Tab::Logs, d)[i] == log_lines(d.logs[i]),
        0 <= i < d.modules.len() ==> tab_items(Tab::Modules, d)[i] == module_lines(d.modules[i]),
{
}

/// The error of a row is on the Errors tab, up to sixty characters.
pub proof fn errors_tab_shows_the_error(d: AuditView, i: int)
    requires
        0 <= i < d.errors.len(),
        d.errors[i].error.len() <= 60,
    ensures
        tab_items(Tab::Errors, d)[i][1][2].text == d.errors[i].error,
{
    error_shows_its_row(d.errors[i]);
}

/// Scrolled by some lines, a list begins with the item that many places on.
pub proof fn scrolled_list_begins_there(
    items: Seq<Seq<Seq<SpanView>>>,
    scroll: nat,
    i: int,
)
    requires
        scroll < items.len(),
        0 <= i < items.len() - scroll,
    ensures
        visible(items, scroll).len() == items.len() - scroll,
        visible(items, scroll)[i] == items[scroll + i],
{
}

/// An empty list says so in one line.
pub proof fn empty_list_says_so(scroll: nat)
    ensures
        visible(Seq::empty(), scroll).len() == 1,
        visible(Seq::empty(), scroll)[0].len() == 1,
        visible(Seq::empty(), scroll)[0][0].len() == 1,
        visible(Seq::empty(), scroll)[0][0][0].text == "  (nothing here yet)"@,
        visible(Seq::empty(), scroll)[0][0][0].style == fg_style(Color::DarkGray),
{
}

/// A status that is none of the known ones is gray, and only such a one is.
pub proof fn unknown_status_is_gray(status: Seq<char>)
    ensures
        status_color(status) == Color::Gray <==> !seq![
            "complete"@,
            "queued"@,
            "processing"@,
            "failed"@,
            "audit"@,
            "connected"@,
            "starting"@,
            "disconnected"@,
            "offline"@,
            "error"@,
            "crashed"@,
        ].contains(status),
{
    let known = seq![
        "complete"@,
        "queued"@,
        "processing"@,
        "failed"@,
        "audit"@,
        "connected"@,
        "starting"@,
        "disconnected"@,
        "offline"@,
        "error"@,
        "crashed"@,
    ];
    assert(known[0] == "complete"@ && known[1] == "queued"@ && known[2] == "processing"@);
    assert(known[3] == "failed"@ && known[4] == "audit"@ && known[5] == "connected"@);
    assert(known[6] == "starting"@ && known[7] == "disconnected"@ && known[8] == "offline"@);
    assert(known[9] == "error"@ && known[10] == "crashed"@);
}

/// A platform that is none of the known ones is cyan, and only such a one is.
pub proof fn unknown_platform_is_cyan(platform: Seq<char>)
    ensures
        color_of_platform(platform) == Color::Cyan <==> !seq![
            "twitch"@,
            "youtube"@,
            "kick"@,
            "discord"@,
        ].contains(platform),
{
    let known = seq!["twitch"@, "youtube"@, "kick"@, "discord"@];
    assert(known[0] == "twitch"@ && known[1] == "youtube"@ && known[2] == "kick"@ && known[3]
        == "discord"@);
}

/// The screen holds header, tabs, modules, content and footer, each in its area;
/// the column has every module and the content the visible items of the tab in
/// front, under its name.
pub proof fn screen_holds_every_part(size: Area, tab: Tab, scroll: nat, d: AuditView, i: int)
    ensures
        ({
            let s = drawn(size, tab, scroll, d);
            let areas = layout::areas_in(size);
            &&& s.len() == 5
            &&& s[0] == (areas.header, WidgetView::Paragraph { line: header_line(d) })
            &&& s[1].0 == areas.tabs && (s[1].1 matches WidgetView::Tabs { titles, borders }
                && titles == title_lines(tab) && borders == Borders::Bottom)
            &&& s[2].0 == areas.modules && (s[2].1 matches WidgetView::List {
                title,
                borders,
                items,
            } && title == " modules "@ && borders == Borders::All && items.len() == d.modules.len()
                && (0 <= i < d.modules.len() ==> items[i] == module_summary(d.modules[i])))
            &&& s[3].0 == areas.content && (s[3].1 matches WidgetView::List {
                title,
                borders,
                items,
            } && title == seq![' '] + tui::tab_label(tab) + seq![' '] && borders == Borders::All
                && items == visible(tab_items(tab, d), scroll))
            &&& s[4] == (areas.footer, WidgetView::Paragraph { line: footer_line() })
        }),
{
    reveal_strlit(" ");
    assert(" "@ + tui::tab_label(tab) + " "@ =~= seq![' '] + tui::tab_label(tab) + seq![' ']);
}

/// A coloured text has its colour and is otherwise left to the terminal, as an
/// unstyled one is in all.
pub proof fn styles_set_the_colour_alone(color: Color)
    ensures
        fg_style(color).fg == Some(color),
        fg_style(color).bg is None,
        !fg_style(color).bold,
        plain_style().fg is None,
        plain_style().bg is None,
        !plain_style().bold,
{
}

/// The view of a widget keeps its title, its borders and each of its lines or
/// items.
pub proof fn widget_view_keeps_every_part(widget: Widget, i: int)
    ensures
        widget is Paragraph ==> widget@ is Paragraph && widget@->line == widget->line@,
        widget is Tabs ==> widget@ is Tabs && widget@->Tabs_borders == widget->Tabs_borders,
        widget is Tabs ==> widget@->titles.len() == widget->titles@.len(),
        widget is Tabs && 0 <= i && i < widget->titles@.len() ==> widget@->titles[i]
            == widget->titles@[i]@,
        widget is List ==> widget@ is List && widget@->List_borders == widget->List_borders,
        widget is List ==> widget@->title == widget->title@,
        widget is List ==> widget@->items.len() == widget->items@.len(),
        widget is List && 0 <= i && i < widget->items@.len() ==> widget@->items[i]
            == widget->items@[i]@,
{
}

/// The views of spans, lines, items and placed widgets keep every part of them,
/// in its place.
pub proof fn views_keep_every_part(span: Span, line: Line, item: Item, placed: Seq<Placed>, i: int)
    ensures
        span@.text == span.text@,
        span@.style == span.style,
        line@.len() == line.spans@.len(),
        0 <= i < line.spans@.len() ==> line@[i] == line.spans@[i]@,
        item@.len() == item.lines@.len(),
        0 <= i < item.lines@.len() ==> item@[i] == item.lines@[i]@,
        placed_view(placed).len() == placed.len(),
        0 <= i < placed.len() ==> placed_view(placed)[i] == (placed[i].area, placed[i].widget@),
{
}

}
