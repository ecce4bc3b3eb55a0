use jview::jview_input::{Key, NavigationOutcome};
use jview::jview_search::JviewSearch;
use jview::jview_style::{PaneColor, PaneStyle};

fn typed(text: &str) -> JviewSearch {
    let mut pane = JviewSearch::new();
    for c in text.chars() {
        assert_eq!(pane.get_search_input(Key::Char(c)), NavigationOutcome::Continue);
    }
    pane
}

#[test]
fn search_starts_empty_with_the_hint() {
    let pane = JviewSearch::new();
    assert_eq!(pane.input(), "");
    assert_eq!(pane.get_search_widget(true).text, "\u{1F50D} Type to start searching...");
}

#[test]
fn search_appends_what_is_typed() {
    let pane = typed("ssh");
    assert_eq!(pane.input(), "ssh");
    assert_eq!(pane.get_search_widget(false).text, "\u{1F50D} ssh");
}

#[test]
fn search_takes_q_as_text() {
    let mut pane = JviewSearch::new();
    assert_eq!(pane.get_search_input(Key::Char('q')), NavigationOutcome::Continue);
    assert_eq!(pane.get_search_input(Key::Char('Q')), NavigationOutcome::Continue);
    assert_eq!(pane.input(), "qQ");
}

#[test]
fn search_backspace_removes_the_last_character() {
    let mut pane = typed("abc");
    assert_eq!(pane.get_search_input(Key::Backspace), NavigationOutcome::Continue);
    assert_eq!(pane.input(), "ab");
    assert_eq!(pane.get_search_input(Key::Backspace), NavigationOutcome::Continue);
    assert_eq!(pane.get_search_input(Key::Backspace), NavigationOutcome::Continue);
    assert_eq!(pane.input(), "");
}

#[test]
fn search_backspace_removes_a_whole_character() {
    let mut pane = typed("na\u{ef}ve\u{1F50D}");
    pane.get_search_input(Key::Backspace);
    assert_eq!(pane.input(), "na\u{ef}ve");
    pane.get_search_input(Key::Backspace);
    pane.get_search_input(Key::Backspace);
    pane.get_search_input(Key::Backspace);
    assert_eq!(pane.input(), "na");
}

#[test]
fn search_backspace_on_nothing_does_nothing() {
    let mut pane = JviewSearch::new();
    assert_eq!(pane.get_search_input(Key::Backspace), NavigationOutcome::Continue);
    assert_eq!(pane, JviewSearch::new());
}

#[test]
fn search_shows_the_input_once_something_was_typed() {
    let mut pane = typed("a");
    pane.get_search_input(Key::Backspace);
    assert_eq!(pane.input(), "");
    assert_eq!(pane.get_search_widget(true).text, "\u{1F50D} ");
}

#[test]
fn search_enter_escape_and_tab_pass_the_focus_on() {
    for key in [Key::Enter, Key::Esc, Key::Tab] {
        let mut pane = typed("abc");
        assert_eq!(pane.get_search_input(key), NavigationOutcome::AdvanceFocus);
        assert_eq!(pane, typed("abc"));
    }
}

#[test]
fn search_ignores_the_other_keys() {
    for key in [Key::Up, Key::Down, Key::Left, Key::Right, Key::Other] {
        let mut pane = typed("abc");
        assert_eq!(pane.get_search_input(key), NavigationOutcome::Continue);
        assert_eq!(pane, typed("abc"));
        let mut fresh = JviewSearch::new();
        assert_eq!(fresh.get_search_input(key), NavigationOutcome::Continue);
        assert_eq!(fresh, JviewSearch::new());
    }
}

#[test]
fn search_widget_has_title_and_style() {
    let pane = typed("x");
    let on = pane.get_search_widget(true);
    assert_eq!(on.title, "Search");
    assert_eq!(on.style, PaneStyle { fg: PaneColor::Cyan, bg: PaneColor::Black });
    let off = pane.get_search_widget(false);
    assert_eq!(off.title, "Search");
    assert_eq!(off.style, PaneStyle { fg: PaneColor::Yellow, bg: PaneColor::Blue });
    assert_eq!(on.text, off.text);
}

#[test]
fn a_cloned_search_holds_the_same() {
    let pane = typed("abc");
    let mut copy = pane.clone();
    assert_eq!(copy, pane);
    copy.get_search_input(Key::Backspace);
    assert_eq!(copy.input(), "ab");
    assert_eq!(pane.input(), "abc");
}
