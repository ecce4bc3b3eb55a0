//! The focus state machine: which pane owns the keyboard, and how a key
//! reaches that pane and no other.

use vstd::prelude::*;
use crate::jview_config::settings::{Settings, SettingsView};
use crate::jview_input::{Key, NavigationOutcome};
use crate::jview_logs::{JviewLogs, get_style_spec, log_items_spec, logs_outcome_spec, logs_scroll_spec};
use crate::jview_search::{JviewSearch, SearchView};
use crate::jview_selector::{JviewSelector, SelectorView};
use crate::jview_style::{ListWidget, ListWidgetView, TextWidget, TextWidgetView};
use crate::jview_text::texts;
use crate::jview_viewport::ViewportState;

verus! {

/// The panes that can own the keyboard, in focus order.
#[derive(Debug, Clone, Copy, PartialEq, Eq, Structural)]
pub enum UiSection {
    Search,
    Logs,
    Selector,
}

impl UiSection {
    /// The section that follows `self` in the focus cycle
    /// `Search -> Logs -> Selector -> Search`.
    pub open spec fn next_spec(self) -> UiSection {
        match self {
            UiSection::Search => UiSection::Logs,
            UiSection::Logs => UiSection::Selector,
            UiSection::Selector => UiSection::Search,
        }
    }

    /// The section that owns the keyboard after a pane answered
    /// `outcome`: the next one on `AdvanceFocus`, the same one otherwise.
    pub open spec fn on_event_spec(self, outcome: NavigationOutcome) -> UiSection {
        if outcome == NavigationOutcome::AdvanceFocus {
            self.next_spec()
        } else {
            self
        }
    }

    /// The section that follows `self` in the focus cycle.
    pub fn next(&self) -> (r: UiSection)
        ensures
            r == self.next_spec(),
    {
        match self {
            UiSection::Search => UiSection::Logs,
            UiSection::Logs => UiSection::Selector,
            UiSection::Selector => UiSection::Search,
        }
    }

    /// The section that owns the keyboard after a pane answered `outcome`.
    #[verifier::when_used_as_spec(on_event_spec)]
    pub fn on_event(self, outcome: NavigationOutcome) -> (r: UiSection)
        ensures
            r == self.on_event_spec(outcome),
    {
        match outcome {
            NavigationOutcome::AdvanceFocus => self.next(),
            _ => self,
        }
    }
}

/// The three panes and the section that owns the keyboard.
pub struct UiScreen {
    selected: UiSection,
    search_tui: JviewSearch,
    logs_tui: JviewLogs,
    selector_tui: JviewSelector,
}

/// What a `UiScreen` holds.
pub struct ScreenView {
    /// The section that owns the keyboard.
    pub selected: UiSection,
    pub search: SearchView,
    /// The window of the log pane.
    pub logs: ViewportState,
    pub selector: SelectorView,
}

impl ScreenView {
    /// The selector pane is well-formed; the other panes always are.
    pub open spec fn wf(self) -> bool {
        self.selector.wf()
    }

    /// What the pane that owns the keyboard answers to `key`.
    pub open spec fn outcome(self, key: Key) -> NavigationOutcome {
        match self.selected {
            UiSection::Search => self.search.outcome(key),
            UiSection::Logs => logs_outcome_spec(key),
            UiSection::Selector => self.selector.outcome(key),
        }
    }

    /// The screen after one key, with `line_count` log lines at hand. The
    /// pane that owns the keyboard handles the key, the two others stay as
    /// they are, and the focus moves as that pane's answer says.
    pub open spec fn step(self, key: Key, line_count: nat) -> ScreenView {
        ScreenView {
            selected: self.selected.on_event_spec(self.outcome(key)),
            search: if self.selected == UiSection::Search {
                self.search.step(key)
            } else {
                self.search
            },
            logs: if self.selected == UiSection::Logs {
                logs_scroll_spec(self.logs, key, line_count)
            } else {
                self.logs
            },
            selector: if self.selected == UiSection::Selector {
                self.selector.step(key)
            } else {
                self.selector
            },
        }
    }

    /// The selected unit name after one key, given the name before it:
    /// only the selector pane writes it, and only while it owns the keyboard.
    pub open spec fn unit_after(self, unit: Seq<char>, key: Key) -> Seq<char> {
        if self.selected == UiSection::Selector {
            self.selector.unit_after(unit, key)
        } else {
            unit
        }
    }
}

impl View for UiScreen {
    type V = ScreenView;

    closed spec fn view(&self) -> ScreenView {
        ScreenView {
            selected: self.selected,
            search: self.search_tui@,
            logs: self.logs_tui.viewport_spec(),
            selector: self.selector_tui@,
        }
    }
}

impl Clone for UiScreen {
    /// A screen that holds what this one holds.
    fn clone(&self) -> (r: UiScreen)
        ensures
            r@ == self@,
    {
        UiScreen {
            selected: self.selected,
            search_tui: self.search_tui.clone(),
            logs_tui: self.logs_tui,
            selector_tui: self.selector_tui.clone(),
        }
    }
}

impl UiScreen {
    /// A screen with the keyboard on the log pane, three fresh panes, and
    /// `units` to select from.
    pub fn new(units: Vec<String>) -> (r: UiScreen)
        ensures
            r@.selected == UiSection::Logs,
            r@.search == JviewSearch::new_spec(),
            r@.logs == JviewLogs::new_spec(),
            r@.selector == JviewSelector::new_spec(texts(units@)),
            r@.wf(),
    {
        UiScreen {
            selected: UiSection::Logs,
            search_tui: JviewSearch::new(),
            logs_tui: JviewLogs::new(),
            selector_tui: JviewSelector::new(units),
        }
    }

    /// Moves the keyboard to the next pane.
    pub fn next_section(&mut self)
        ensures
            final(self)@ == (ScreenView { selected: old(self)@.selected.next_spec(), ..old(self)@ }),
    {
        self.selected = self.selected.next();
    }

    /// The section that owns the keyboard.
    pub fn get_selected(&self) -> (section: UiSection)
        ensures
            section == self@.selected,
    {
        self.selected
    }

    /// The search pane.
    pub fn search(&self) -> (pane: &JviewSearch)
        ensures
            pane@ == self@.search,
    {
        &self.search_tui
    }

    /// The log pane.
    pub fn logs(&self) -> (pane: &JviewLogs)
        ensures
            pane.viewport_spec() == self@.logs,
    {
        &self.logs_tui
    }

    /// The selector pane.
    pub fn selector(&self) -> (pane: &JviewSelector)
        ensures
            pane@ == self@.selector,
    {
        &self.selector_tui
    }

    /// The search pane as a titled text.
    pub fn get_search_widget(&self, selected: bool) -> (widget: TextWidget)
        ensures
            widget@ == (TextWidgetView {
                title: "Search"@,
                style: get_style_spec(selected),
                text: self@.search.text(),
            }),
    {
        self.search_tui.get_search_widget(selected)
    }

    /// The log pane as a titled list of the visible part of `logs`.
    pub fn get_logs_widget(&self, logs: &Vec<String>, selected: bool) -> (widget: ListWidget)
        ensures
            widget@ == (ListWidgetView {
                title: "Logs"@,
                style: get_style_spec(selected),
                items: log_items_spec(self@.logs, texts(logs@), selected),
            }),
    {
        self.logs_tui.get_logs_widget(logs, selected)
    }

    /// The selector pane as a titled list, marked for the cursor and for
    /// the unit selected in `settings`.
    pub fn get_selector_widget(&self, selected: bool, settings: &Settings) -> (widget: ListWidget)
        ensures
            widget@ == (ListWidgetView {
                title: "Systemd Units"@,
                style: get_style_spec(selected),
                items: self@.selector.rows(selected, settings@.filter()),
            }),
    {
        self.selector_tui.get_selector_widget(selected, settings)
    }

    /// Sets the number of rows of the log pane.
    pub fn set_logs_max_height(&mut self, h: usize)
        ensures
            final(self)@ == (ScreenView {
                logs: ViewportState { viewport_height: h, ..old(self)@.logs },
                ..old(self)@
            }),
    {
        self.logs_tui.set_max_height(h);
    }

    /// Sets the number of rows of the selector pane.
    pub fn set_selector_max_height(&mut self, h: usize)
        ensures
            final(self)@ == (ScreenView { selector: old(self)@.selector.resized(h), ..old(self)@ }),
            final(self)@.wf(),
    {
        self.selector_tui.set_max_height(h);
    }
}

/// Gives one key to the pane that owns the keyboard and moves the focus as
/// that pane asks. Returns `true` when the session is to end.
///
/// `line_count` is the number of log lines that the last fetch returned;
/// only the log pane looks at it.
pub fn screen_navigate(
    screen: &mut UiScreen,
    key: Key,
    line_count: usize,
    settings: &mut Settings,
) -> (quit: bool)
    ensures
        final(screen)@ == old(screen)@.step(key, line_count as nat),
        final(screen)@.wf(),
        quit == (old(screen)@.outcome(key) == NavigationOutcome::Quit),
        final(settings)@ == (SettingsView {
            unit: old(screen)@.unit_after(old(settings)@.unit, key),
            ..old(settings)@
        }),
{
    proof {
        use_type_invariant(&screen.selector_tui);
    }
    let outcome = match screen.selected {
        UiSection::Search => screen.search_tui.get_search_input(key),
        UiSection::Logs => screen.logs_tui.logs_navigate(key, line_count),
        UiSection::Selector => screen.selector_tui.navigate(key, settings),
    };
    screen.selected = screen.selected.on_event(outcome);
    match outcome {
        NavigationOutcome::Quit => true,
        _ => false,
    }
}

/// Three times Tab, from any pane, brings the keyboard back to the pane it
/// started from and leaves every pane as it was.
pub proof fn lemma_three_tabs_come_round(s: ScreenView, line_count: nat)
    ensures
        s.selected.next_spec().next_spec().next_spec() == s.selected,
        s.step(Key::Tab, line_count).step(Key::Tab, line_count).step(Key::Tab, line_count) == s,
{
}

/// `q` and `Q` end the session from the log pane and from the selector
/// pane, and change nothing on the way. In the search pane they are text.
pub proof fn lemma_quit_keys_quit(s: ScreenView, key: Key, line_count: nat)
    requires
        s.selected != UiSection::Search,
        key == Key::Char('q') || key == Key::Char('Q'),
    ensures
        s.outcome(key) == NavigationOutcome::Quit,
        s.step(key, line_count) == s,
{
}

/// A key changes at most the pane that owns the keyboard.
pub proof fn lemma_one_pane_per_key(s: ScreenView, key: Key, line_count: nat)
    ensures
        s.selected != UiSection::Search ==> s.step(key, line_count).search == s.search,
        s.selected != UiSection::Logs ==> s.step(key, line_count).logs == s.logs,
        s.selected != UiSection::Selector ==> s.step(key, line_count).selector == s.selector,
        s.selected != UiSection::Selector ==> forall|unit: Seq<char>|
            #[trigger] s.unit_after(unit, key) == unit,
{
}

} // verus!
