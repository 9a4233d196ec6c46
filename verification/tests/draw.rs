use audit_viewer::draw::{
    color_for_status, draw, platform_color, Borders, Color, Item, Line, Placed, Span, Style, Widget,
};
use audit_viewer::json::parse_text;
use audit_viewer::layout::{screen_areas, Area};
use audit_viewer::model::{AuditData, Row};
use audit_viewer::tui::Tab;

const SIZE: Area = Area { x: 0, y: 0, width: 80, height: 24 };

fn raw(text: &str) -> Span {
    Span { text: text.to_string(), style: Style { fg: None, bg: None, bold: false } }
}

fn fg(text: &str, color: Color) -> Span {
    Span { text: text.to_string(), style: Style { fg: Some(color), bg: None, bold: false } }
}

fn row() -> Row {
    Row {
        platform: "twitch".to_string(),
        user: "u1".to_string(),
        content: "x".repeat(91),
        status: "queued".to_string(),
        error: "e".repeat(61),
        age: "3m".to_string(),
    }
}

fn content(placed: &Vec<Placed>) -> (&String, &Vec<Item>) {
    match &placed[3].widget {
        Widget::List { title, items, .. } => (title, items),
        _ => panic!("the content is a list"),
    }
}

fn item(lines: Vec<Vec<Span>>) -> Item {
    Item { lines: lines.into_iter().map(|spans| Line { spans }).collect() }
}

#[test]
fn statuses_have_their_colours() {
    for (status, color) in [
        ("complete", Color::Green),
        ("queued", Color::Blue),
        ("processing", Color::Yellow),
        ("failed", Color::Red),
        ("audit", Color::Magenta),
        ("connected", Color::Green),
        ("starting", Color::Yellow),
        ("disconnected", Color::Yellow),
        ("offline", Color::DarkGray),
        ("error", Color::LightRed),
        ("crashed", Color::Red),
        ("", Color::Gray),
        ("Complete", Color::Gray),
    ] {
        assert_eq!(color_for_status(status), color, "{}", status);
    }
}

#[test]
fn platforms_have_their_colours() {
    for (platform, color) in [
        ("twitch", Color::Magenta),
        ("youtube", Color::Red),
        ("kick", Color::Green),
        ("discord", Color::Blue),
        ("irc", Color::Cyan),
    ] {
        assert_eq!(platform_color(platform), color, "{}", platform);
    }
}

#[test]
fn an_empty_screen_is_drawn() {
    let placed = draw(SIZE, Tab::Errors, 3, &AuditData::default());
    assert_eq!(placed.len(), 5);
    let areas = screen_areas(SIZE);
    let places: Vec<Area> = placed.iter().map(|p| p.area).collect();
    assert_eq!(
        places,
        vec![areas.header, areas.tabs, areas.modules, areas.content, areas.footer]
    );
    assert_eq!(
        placed[0].widget,
        Widget::Paragraph {
            line: Line {
                spans: vec![
                    Span {
                        text: " COCKATIEL AUDIT VIEWER ".to_string(),
                        style: Style { fg: Some(Color::Cyan), bg: None, bold: true },
                    },
                    fg(" · connecting", Color::Yellow),
                    fg(" · 0 msgs · 0 err · 0 held · refresh -", Color::DarkGray),
                ],
            },
        }
    );
    assert_eq!(
        placed[2].widget,
        Widget::List { title: " modules ".to_string(), borders: Borders::All, items: vec![] }
    );
    assert_eq!(
        placed[3].widget,
        Widget::List {
            title: " Errors ".to_string(),
            borders: Borders::All,
            items: vec![item(vec![vec![fg("  (nothing here yet)", Color::DarkGray)]])],
        }
    );
    assert_eq!(
        placed[4].widget,
        Widget::Paragraph {
            line: Line {
                spans: vec![fg(
                    " Tab/Shift+Tab: switch · j/k: scroll · r: refresh · q: quit ",
                    Color::DarkGray
                )],
            },
        }
    );
}

#[test]
fn the_tab_in_front_is_marked() {
    let placed = draw(SIZE, Tab::Logs, 0, &AuditData::default());
    let (titles, borders) = match &placed[1].widget {
        Widget::Tabs { titles, borders } => (titles, borders),
        _ => panic!("the second widget is the tabs"),
    };
    assert_eq!(*borders, Borders::Bottom);
    assert_eq!(titles.len(), 5);
    assert_eq!(titles[0].spans, vec![fg(" Messages ", Color::Gray)]);
    assert_eq!(
        titles[3].spans,
        vec![Span {
            text: " Logs ".to_string(),
            style: Style { fg: Some(Color::Black), bg: Some(Color::Cyan), bold: true },
        }]
    );
}

#[test]
fn the_header_counts() {
    let mut data = AuditData::default();
    data.connected = true;
    data.last_refresh = Some("0s".to_string());
    data.messages = vec![row(); 12];
    data.errors = vec![row()];
    let placed = draw(SIZE, Tab::Messages, 0, &data);
    match &placed[0].widget {
        Widget::Paragraph { line } => {
            assert_eq!(line.spans[1], fg(" · connected", Color::Green));
            assert_eq!(
                line.spans[2],
                fg(" · 12 msgs · 1 err · 0 held · refresh 0s", Color::DarkGray)
            );
        }
        _ => panic!("the header is a paragraph"),
    }
}

#[test]
fn messages_are_shown() {
    let mut data = AuditData::default();
    data.messages = vec![row()];
    let placed = draw(SIZE, Tab::Messages, 0, &data);
    let (title, items) = content(&placed);
    assert_eq!(title, " Messages ");
    assert_eq!(
        *items,
        vec![item(vec![
            vec![
                fg("[twitch]", Color::Magenta),
                fg(" u1 ", Color::Yellow),
                raw(" "),
                raw(&format!("{}…", "x".repeat(90))),
            ],
            vec![fg("   3m", Color::DarkGray), fg(" queued", Color::Blue)],
        ])]
    );
}

#[test]
fn errors_are_shown() {
    let mut data = AuditData::default();
    data.errors = vec![row()];
    let placed = draw(SIZE, Tab::Errors, 0, &data);
    assert_eq!(
        *content(&placed).1,
        vec![item(vec![
            vec![fg("[twitch]", Color::Red), raw(" "), raw(&format!("{}…", "x".repeat(90)))],
            vec![
                fg("   3m", Color::DarkGray),
                fg(" queued ", Color::Red),
                raw(&format!("{}…", "e".repeat(60))),
            ],
        ])]
    );
}

#[test]
fn held_messages_are_shown() {
    let mut data = AuditData::default();
    data.audit = vec![Row { content: "hm".to_string(), ..row() }];
    let placed = draw(SIZE, Tab::Audit, 0, &data);
    assert_eq!(
        *content(&placed).1,
        vec![item(vec![
            vec![
                fg("[twitch]", Color::Magenta),
                fg(" u1 ", Color::Yellow),
                raw(" "),
                raw("hm"),
            ],
            vec![fg("   3m", Color::DarkGray), fg(" held for review", Color::Magenta)],
        ])]
    );
}

#[test]
fn log_lines_are_shown() {
    let mut data = AuditData::default();
    data.logs = vec!["short".to_string(), "l".repeat(121)];
    let placed = draw(SIZE, Tab::Logs, 0, &data);
    assert_eq!(
        *content(&placed).1,
        vec![
            item(vec![vec![raw("short")]]),
            item(vec![vec![raw(&format!("{}…", "l".repeat(120)))]]),
        ]
    );
}

#[test]
fn modules_are_shown_twice() {
    let mut data = AuditData::default();
    data.modules = vec![parse_text(
        "{\"name\": \"chat\", \"status\": \"crashed\", \"position\": 2, \"description\": \"talks\"}",
    )
    .unwrap()];
    let placed = draw(SIZE, Tab::Modules, 0, &data);
    assert_eq!(
        *content(&placed).1,
        vec![item(vec![
            vec![
                fg(&format!("{:<22}", "chat"), Color::White),
                fg(&format!("{:<12}", "2"), Color::DarkGray),
                fg("crashed", Color::Red),
            ],
            vec![fg("   talks", Color::DarkGray)],
        ])]
    );
    match &placed[2].widget {
        Widget::List { items, .. } => assert_eq!(
            *items,
            vec![item(vec![vec![
                raw("  "),
                fg("chat", Color::White),
                fg(" [2]", Color::DarkGray),
                fg(" crashed", Color::Red),
            ]])]
        ),
        _ => panic!("the modules are a list"),
    }
}

#[test]
fn scrolling_stops_at_the_last_item() {
    let mut data = AuditData::default();
    data.logs = vec!["a".to_string(), "b".to_string(), "c".to_string()];
    for (scroll, shown) in [(0, vec!["a", "b", "c"]), (1, vec!["b", "c"]), (2, vec!["c"]), (9, vec!["c"]), (usize::MAX, vec!["c"])] {
        let placed = draw(SIZE, Tab::Logs, scroll, &data);
        let expected: Vec<Item> = shown.iter().map(|s| item(vec![vec![raw(s)]])).collect();
        assert_eq!(*content(&placed).1, expected);
    }
}

#[test]
fn scrolling_past_the_end_changes_nothing() {
    let mut data = AuditData::default();
    data.logs = vec!["a".to_string(), "b".to_string()];
    let low = Area { height: 4, ..SIZE };
    for size in [SIZE, low] {
        let end = draw(size, Tab::Logs, 1, &data);
        assert_eq!(draw(size, Tab::Logs, 2, &data), end);
        assert_eq!(draw(size, Tab::Logs, usize::MAX, &data), end);
    }
}

#[test]
fn hidden_tabs_do_not_show() {
    let mut one = AuditData::default();
    one.messages = vec![row()];
    one.logs = vec!["a".to_string()];
    let mut other = AuditData::default();
    other.messages = vec![Row::default()];
    other.logs = vec![];
    assert_eq!(draw(SIZE, Tab::Audit, 0, &one), draw(SIZE, Tab::Audit, 0, &other));
    assert_ne!(draw(SIZE, Tab::Messages, 0, &one), draw(SIZE, Tab::Messages, 0, &other));
    assert_ne!(draw(SIZE, Tab::Logs, 0, &one), draw(SIZE, Tab::Logs, 0, &other));
}
