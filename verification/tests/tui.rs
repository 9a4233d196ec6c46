use audit_viewer::tui::{Key, KeyAction, Tab, ViewState};

#[test]
fn tabs_have_their_order_and_names() {
    let labels: Vec<&str> = Tab::all().iter().map(|t| t.label()).collect();
    assert_eq!(labels, vec!["Messages", "Errors", "Audit", "Logs", "Modules"]);
    for (i, tab) in Tab::all().iter().enumerate() {
        assert_eq!(tab.idx(), i);
    }
}

#[test]
fn tab_goes_round() {
    let mut view = ViewState::new();
    let mut seen = vec![];
    for _ in 0..5 {
        seen.push(view.tab);
        assert_eq!(view.on_key(Key::Tab), KeyAction::Draw);
    }
    assert_eq!(seen, Tab::all().to_vec());
    assert_eq!(view.tab, Tab::Messages);
    view.on_key(Key::BackTab);
    assert_eq!(view.tab, Tab::Modules);
    view.on_key(Key::Tab);
    assert_eq!(view.tab, Tab::Messages);
}

#[test]
fn switching_scrolls_to_the_top() {
    let mut view = ViewState { tab: Tab::Logs, scroll: 9 };
    view.on_key(Key::Tab);
    assert_eq!(view, ViewState { tab: Tab::Modules, scroll: 0 });
    view.scroll = 4;
    view.on_key(Key::BackTab);
    assert_eq!(view, ViewState { tab: Tab::Logs, scroll: 0 });
}

#[test]
fn keys_scroll() {
    let mut view = ViewState::new();
    view.on_key(Key::Up);
    assert_eq!(view.scroll, 0);
    view.on_key(Key::Down);
    view.on_key(Key::Char('j'));
    assert_eq!(view.scroll, 2);
    view.on_key(Key::Char('k'));
    assert_eq!(view.scroll, 1);
    view.scroll = usize::MAX;
    view.on_key(Key::Down);
    assert_eq!(view.scroll, usize::MAX);
}

#[test]
fn keys_quit_and_refresh() {
    let mut view = ViewState { tab: Tab::Audit, scroll: 3 };
    let before = view;
    assert_eq!(view.on_key(Key::Char('q')), KeyAction::Quit);
    assert_eq!(view.on_key(Key::Char('r')), KeyAction::Refresh);
    assert_eq!(view.on_key(Key::Char('Q')), KeyAction::Draw);
    assert_eq!(view.on_key(Key::Other), KeyAction::Draw);
    assert_eq!(view, before);
}
