//! Tabs, keys and what they do to the view.
use vstd::prelude::*;

verus! {

/// A page of the viewer.
#[derive(Clone, Copy, Debug, PartialEq, Eq, Structural)]
pub enum Tab {
    Messages,
    Errors,
    Audit,
    Logs,
    Modules,
}

/// All tabs, from left to right.
pub open spec fn tab_order() -> Seq<Tab> {
    seq![Tab::Messages, Tab::Errors, Tab::Audit, Tab::Logs, Tab::Modules]
}

/// The position of a tab, from the left.
pub open spec fn tab_index(tab: Tab) -> int {
    match tab {
        Tab::Messages => 0,
        Tab::Errors => 1,
        Tab::Audit => 2,
        Tab::Logs => 3,
        Tab::Modules => 4,
    }
}

/// The tab `by` places to the right, counting on from the left end after the
/// last.
pub open spec fn tab_shifted(tab: Tab, by: int) -> Tab {
    tab_order()[(tab_index(tab) + by) % 5]
}

/// The name of a tab.
pub open spec fn tab_label(tab: Tab) -> Seq<char> {
    match tab {
        Tab::Messages => "Messages"@,
        Tab::Errors => "Errors"@,
        Tab::Audit => "Audit"@,
        Tab::Logs => "Logs"@,
        Tab::Modules => "Modules"@,
    }
}

impl Tab {
    /// All tabs, from left to right.
    pub fn all() -> (r: [Tab; 5])
        ensures
            r@ == tab_order(),
    {
        let r = [Tab::Messages, Tab::Errors, Tab::Audit, Tab::Logs, Tab::Modules];
        assert(r@ =~= tab_order());
        r
    }

    /// The name of the tab.
    pub fn label(&self) -> (r: &'static str)
        ensures
            r@ == tab_label(*self),
    {
        match self {
            Tab::Messages => "Messages",
            Tab::Errors => "Errors",
            Tab::Audit => "Audit",
            Tab::Logs => "Logs",
            Tab::Modules => "Modules",
        }
    }

    /// The position of the tab among all tabs.
    pub fn idx(&self) -> (r: usize)
        ensures
            r == tab_index(*self),
    {
        let tabs = Tab::all();
        for i in 0..tabs.len()
            invariant
                tabs@ == tab_order(),
                forall|j: int| 0 <= j < i ==> tab_order()[j] != *self,
        {
            if tabs[i] == *self {
                return i;
            }
        }
        assert(tab_order()[tab_index(*self)] == *self);
        0
    }
}

/// A key as the viewer tells them apart.
#[derive(Clone, Copy, Debug, PartialEq, Eq, Structural)]
pub enum Key {
    Char(char),
    Tab,
    BackTab,
    Up,
    Down,
    Other,
}

/// What the program has to do after a key.
#[derive(Clone, Copy, Debug, PartialEq, Eq, Structural)]
pub enum KeyAction {
    /// Leave the viewer.
    Quit,
    /// Refresh the data, then draw.
    Refresh,
    /// Draw.
    Draw,
}

/// The tab in front, and how far its list is scrolled.
#[derive(Clone, Copy, Debug, PartialEq, Eq, Structural)]
pub struct ViewState {
    pub tab: Tab,
    pub scroll: usize,
}

/// The view after a key.
pub open spec fn after_key(state: ViewState, key: Key) -> ViewState {
    match key {
        Key::Tab => ViewState { tab: tab_shifted(state.tab, 1), scroll: 0 },
        Key::BackTab => ViewState { tab: tab_shifted(state.tab, -1), scroll: 0 },
        Key::Down => scrolled_down(state),
        Key::Up => scrolled_up(state),
        Key::Char(c) => if c == 'j' {
            scrolled_down(state)
        } else if c == 'k' {
            scrolled_up(state)
        } else {
            state
        },
        Key::Other => state,
    }
}

/// One line further down, as far as numbers go.
pub open spec fn scrolled_down(state: ViewState) -> ViewState {
    ViewState {
        scroll: (if state.scroll < usize::MAX {
            state.scroll + 1
        } else {
            state.scroll as int
        }) as usize,
        ..state
    }
}

/// One line further up, down to none.
pub open spec fn scrolled_up(state: ViewState) -> ViewState {
    ViewState {
        scroll: (if state.scroll > 0 {
            state.scroll - 1
        } else {
            0
        }) as usize,
        ..state
    }
}

/// What a key asks of the program.
pub open spec fn action_of(key: Key) -> KeyAction {
    if key == Key::Char('q') {
        KeyAction::Quit
    } else if key == Key::Char('r') {
        KeyAction::Refresh
    } else {
        KeyAction::Draw
    }
}

impl ViewState {
    /// The view with which the program starts.
    pub fn new() -> (r: ViewState)
        ensures
            r.tab == Tab::Messages,
            r.scroll == 0,
    {
        ViewState { tab: Tab::Messages, scroll: 0 }
    }

    /// Follows a key.
    pub fn on_key(&mut self, key: Key) -> (r: KeyAction)
        ensures
            *final(self) == after_key(*old(self), key),
            r == action_of(key),
    {
        match key {
            Key::Char('q') => {
                return KeyAction::Quit;
            },
            Key::Char('r') => {
                return KeyAction::Refresh;
            },
            Key::Tab => {
                let next: usize = (self.tab.idx() + 1) % Tab::all().len();
                self.tab = Tab::all()[next];
                self.scroll = 0;
            },
            Key::BackTab => {
                let prev: usize = (self.tab.idx() + Tab::all().len() - 1) % Tab::all().len();
                self.tab = Tab::all()[prev];
                self.scroll = 0;
            },
            Key::Char('j') | Key::Down => {
                self.scroll = self.scroll.saturating_add(1);
            },
            Key::Char('k') | Key::Up => {
                self.scroll = self.scroll.saturating_sub(1);
            },
            _ => {},
        }
        KeyAction::Draw
    }
}

/// A tab's position among all tabs is its index.
pub proof fn tab_stands_at_its_index(tab: Tab)
    ensures
        0 <= tab_index(tab) < tab_order().len(),
        tab_order()[tab_index(tab)] == tab,
{
}

/// Tab and Shift+Tab undo each other.
pub proof fn back_tab_undoes_tab(state: ViewState)
    ensures
        after_key(after_key(state, Key::Tab), Key::BackTab).tab == state.tab,
        after_key(after_key(state, Key::BackTab), Key::Tab).tab == state.tab,
{
}

/// The view after pressing Tab `n` times.
pub open spec fn after_tabs(state: ViewState, n: nat) -> ViewState
    decreases n,
{
    if n == 0 {
        state
    } else {
        after_key(after_tabs(state, (n - 1) as nat), Key::Tab)
    }
}

/// Tab walks through all the tabs and round again.
pub proof fn tabs_go_round(state: ViewState, n: nat)
    ensures
        after_tabs(state, n).tab == tab_shifted(state.tab, n as int),
        after_tabs(state, n + 5).tab == after_tabs(state, n).tab,
{
    tabs_reach(state, n);
    tabs_reach(state, n + 5);
}

proof fn tabs_reach(state: ViewState, n: nat)
    ensures
        after_tabs(state, n).tab == tab_shifted(state.tab, n as int),
    decreases n,
{
    if n > 0 {
        tabs_reach(state, (n - 1) as nat);
    }
}

/// A new tab is shown from its top.
pub proof fn switching_tabs_scrolls_to_the_top(state: ViewState)
    ensures
        after_key(state, Key::Tab).scroll == 0,
        after_key(state, Key::BackTab).scroll == 0,
{
}

/// Going down and up again ends where it began, short of the last number.
pub proof fn up_undoes_down(state: ViewState)
    requires
        state.scroll < usize::MAX,
    ensures
        after_key(after_key(state, Key::Down), Key::Up) == state,
{
}

/// `j` and `k` are the arrow keys.
pub proof fn letters_are_arrows(state: ViewState)
    ensures
        after_key(state, Key::Char('j')) == after_key(state, Key::Down),
        after_key(state, Key::Char('k')) == after_key(state, Key::Up),
{
}

/// Quitting and refreshing leave the view alone, as does a key without meaning.
pub proof fn other_keys_keep_the_view(state: ViewState, c: char)
    requires
        c != 'j',
        c != 'k',
    ensures
        after_key(state, Key::Char(c)) == state,
        after_key(state, Key::Other) == state,
{
}

/// Down and Up move by one line and stay on the tab; at the ends of the numbers
/// they stay where they are.
pub proof fn arrows_move_by_one_line(state: ViewState)
    ensures
        after_key(state, Key::Down).tab == state.tab,
        after_key(state, Key::Up).tab == state.tab,
        state.scroll < usize::MAX ==> after_key(state, Key::Down).scroll == state.scroll + 1,
        state.scroll == usize::MAX ==> after_key(state, Key::Down).scroll == usize::MAX,
        state.scroll > 0 ==> after_key(state, Key::Up).scroll == state.scroll - 1,
        state.scroll == 0 ==> after_key(state, Key::Up).scroll == 0,
{
}

/// Tab goes to the neighbour on the right and Shift+Tab to the one on the left,
/// however far the list is scrolled; the ends are neighbours.
pub proof fn tab_goes_to_the_neighbour(state: ViewState)
    ensures
        ({
            let here = tab_index(state.tab);
            let right = tab_index(after_key(state, Key::Tab).tab);
            let left = tab_index(after_key(state, Key::BackTab).tab);
            &&& here < 4 ==> right == here + 1
            &&& here == 4 ==> right == 0
            &&& here > 0 ==> left == here - 1
            &&& here == 0 ==> left == 4
        }),
{
}

/// Only `q` leaves the viewer, and only `r` refreshes it.
pub proof fn only_two_keys_act(key: Key)
    ensures
        action_of(key) == KeyAction::Quit <==> key == Key::Char('q'),
        action_of(key) == KeyAction::Refresh <==> key == Key::Char('r'),
{
}

/// No two tabs stand at the same place or have the same name.
pub proof fn tabs_are_told_apart(a: Tab, b: Tab)
    requires
        a != b,
    ensures
        tab_index(a) != tab_index(b),
        tab_label(a) != tab_label(b),
{
    reveal_strlit("Messages");
    reveal_strlit("Errors");
    reveal_strlit("Audit");
    reveal_strlit("Logs");
    reveal_strlit("Modules");
    assert(tab_label(a).len() != tab_label(b).len());
}

}
