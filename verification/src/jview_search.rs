//! The search pane: a line of text that grows as the user types.

use vstd::prelude::*;
use vstd::string::StringExecFns;
use crate::jview_input::{Key, NavigationOutcome};
use crate::jview_logs::{get_style, get_style_spec};
use crate::jview_style::{TextWidget, TextWidgetView};
use crate::jview_text::{pop_char, push_char};

verus! {

/// The state of the search pane.
#[derive(Debug, PartialEq, Eq)]
pub struct JviewSearch {
    input: String,
    help: String,
    inited: bool,
}

/// What a `JviewSearch` holds.
pub struct SearchView {
    /// What was typed so far.
    pub input: Seq<char>,
    /// The hint shown until the first character is typed.
    pub help: Seq<char>,
    /// Whether a character was typed yet.
    pub inited: bool,
}

/// The hint of a pane in which nothing was typed yet.
pub open spec fn search_hint() -> Seq<char> {
    "Type to start searching..."@
}

/// What stands before the text of the pane: a magnifying glass and a space.
pub open spec fn search_mark() -> Seq<char> {
    seq!['\u{1F50D}', ' ']
}

impl SearchView {
    /// The pane after one key. A character is appended to the input,
    /// Backspace removes the last character of the input, and no other key
    /// changes the pane.
    pub open spec fn step(self, key: Key) -> SearchView {
        match key {
            Key::Char(c) => SearchView { input: self.input.push(c), inited: true, ..self },
            Key::Backspace => if self.input.len() > 0 {
                SearchView { input: self.input.drop_last(), ..self }
            } else {
                self
            },
            _ => self,
        }
    }

    /// What the pane answers to a key: Enter and Esc end the input and,
    /// like Tab, pass the focus on; every other key stays in the pane.
    /// No key quits from here, for `q` is a character like any other.
    pub open spec fn outcome(self, key: Key) -> NavigationOutcome {
        match key {
            Key::Enter | Key::Esc | Key::Tab => NavigationOutcome::AdvanceFocus,
            _ => NavigationOutcome::Continue,
        }
    }

    /// The text the pane shows: the hint until the first character is
    /// typed, the input from then on, behind `search_mark`.
    pub open spec fn text(self) -> Seq<char> {
        search_mark() + (if self.inited {
            self.input
        } else {
            self.help
        })
    }
}

impl View for JviewSearch {
    type V = SearchView;

    closed spec fn view(&self) -> SearchView {
        SearchView { input: self.input@, help: self.help@, inited: self.inited }
    }
}

impl Clone for JviewSearch {
    /// A pane that holds what this one holds.
    fn clone(&self) -> (r: JviewSearch)
        ensures
            r@ == self@,
    {
        JviewSearch { input: self.input.clone(), help: self.help.clone(), inited: self.inited }
    }
}

impl JviewSearch {
    /// What a fresh pane holds: no input, the hint, nothing typed.
    pub open spec fn new_spec() -> SearchView {
        SearchView { input: Seq::empty(), help: search_hint(), inited: false }
    }

    /// A pane in which nothing was typed yet.
    pub fn new() -> (r: JviewSearch)
        ensures
            r@ == Self::new_spec(),
    {
        JviewSearch {
            input: String::new(),
            help: "Type to start searching...".to_owned(),
            inited: false,
        }
    }

    /// What was typed so far.
    pub fn input(&self) -> (text: String)
        ensures
            text@ == self@.input,
    {
        self.input.clone()
    }

    /// Handles one key.
    pub fn get_search_input(&mut self, key: Key) -> (outcome: NavigationOutcome)
        ensures
            final(self)@ == old(self)@.step(key),
            outcome == old(self)@.outcome(key),
    {
        match key {
            Key::Esc | Key::Enter | Key::Tab => {
                return NavigationOutcome::AdvanceFocus;
            },
            Key::Backspace => {
                let _ = pop_char(&mut self.input);
            },
            Key::Char(c) => {
                self.inited = true;
                push_char(&mut self.input, c);
            },
            _ => {},
        }
        NavigationOutcome::Continue
    }

    /// The search pane as a titled text.
    pub fn get_search_widget(&self, selected: bool) -> (widget: TextWidget)
        ensures
            widget@ == (TextWidgetView {
                title: "Search"@,
                style: get_style_spec(selected),
                text: self@.text(),
            }),
    {
        let mark = "\u{1F50D} ".to_owned();
        proof {
            reveal_strlit("\u{1F50D} ");
            assert(mark@ =~= search_mark());
        }
        let text = if self.inited {
            mark.concat(self.input.as_str())
        } else {
            mark.concat(self.help.as_str())
        };
        TextWidget { title: "Search".to_owned(), style: get_style(selected), text }
    }
}

} // verus!
