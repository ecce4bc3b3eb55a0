//! The log pane: a scrollable window on lines that are fetched anew for
//! every frame.

use vstd::prelude::*;
use crate::jview_config::settings::{Settings, get_unit};
use crate::jview_input::{Key, NavigationOutcome};
use crate::jview_style::{ListWidget, ListWidgetView, PaneColor, PaneStyle, StyledRow, StyledRowView, row_views};
use crate::jview_text::{lines_spec, split_lines, texts};
use crate::jview_viewport::ViewportState;

verus! {

/// The colours of a pane: cyan on black while it owns the keyboard, yellow
/// on blue otherwise.
pub open spec fn get_style_spec(selected: bool) -> PaneStyle {
    if selected {
        PaneStyle { fg: PaneColor::Cyan, bg: PaneColor::Black }
    } else {
        PaneStyle { fg: PaneColor::Yellow, bg: PaneColor::Blue }
    }
}

/// The colours of a pane that is, or is not, the selected one.
#[verifier::when_used_as_spec(get_style_spec)]
pub fn get_style(selected: bool) -> (style: PaneStyle)
    ensures
        style == get_style_spec(selected),
{
    if selected {
        PaneStyle { fg: PaneColor::Cyan, bg: PaneColor::Black }
    } else {
        PaneStyle { fg: PaneColor::Yellow, bg: PaneColor::Blue }
    }
}

/// The state of the log pane.
#[derive(Debug, Clone, Copy, PartialEq, Eq, Structural)]
pub struct JviewLogs {
    viewport: ViewportState,
    max_viewer_width: usize,
}

/// What a key does to the window of the log pane over the `line_count`
/// lines at hand.
///
/// Down moves one line on while the window starts before the end of the
/// list, so that it can come to rest just behind the last line; Up moves
/// one line back, not above the first. Left and Right move one column, not
/// left of column 0 nor beyond what a `usize` holds, and leave the vertical
/// offset alone. No other key touches the window, and no key changes its
/// height. An offset that a shorter list has left behind is kept as it is:
/// the visible slice shows no row for it.
pub open spec fn logs_scroll_spec(viewport: ViewportState, key: Key, line_count: nat) -> ViewportState {
    match key {
        Key::Up => ViewportState {
            vertical_offset: if viewport.vertical_offset > 0 {
                (viewport.vertical_offset - 1) as usize
            } else {
                0
            },
            ..viewport
        },
        Key::Down => ViewportState {
            vertical_offset: if viewport.vertical_offset < line_count {
                (viewport.vertical_offset + 1) as usize
            } else {
                viewport.vertical_offset
            },
            ..viewport
        },
        Key::Left => ViewportState {
            horizontal_offset: if viewport.horizontal_offset > 0 {
                (viewport.horizontal_offset - 1) as usize
            } else {
                0
            },
            ..viewport
        },
        Key::Right => ViewportState {
            horizontal_offset: if viewport.horizontal_offset < usize::MAX {
                (viewport.horizontal_offset + 1) as usize
            } else {
                viewport.horizontal_offset
            },
            ..viewport
        },
        _ => viewport,
    }
}

/// What the log pane answers to a key: `q` and `Q` quit, Tab passes the
/// focus on, everything else stays.
pub open spec fn logs_outcome_spec(key: Key) -> NavigationOutcome {
    if key.is_quit_spec() {
        NavigationOutcome::Quit
    } else if key == Key::Tab {
        NavigationOutcome::AdvanceFocus
    } else {
        NavigationOutcome::Continue
    }
}

/// The rows of the log pane: the visible slice of `logs`, every row in the
/// style of the pane.
pub open spec fn log_items_spec(viewport: ViewportState, logs: Seq<Seq<char>>, selected: bool) -> Seq<
    StyledRowView,
> {
    Seq::new(
        viewport.visible_slice_spec(logs).len(),
        |i: int|
            StyledRowView {
                text: viewport.visible_slice_spec(logs)[i],
                style: get_style_spec(selected),
            },
    )
}

impl JviewLogs {
    /// The window of the pane.
    pub closed spec fn viewport_spec(&self) -> ViewportState {
        self.viewport
    }

    /// The width the pane was told it has.
    pub closed spec fn max_width_spec(&self) -> usize {
        self.max_viewer_width
    }

    /// The window of a fresh pane: at the top left, 25 rows high.
    pub open spec fn new_spec() -> ViewportState {
        ViewportState { vertical_offset: 0, horizontal_offset: 0, viewport_height: 25 }
    }

    /// A pane at the top left of its lines, 25 rows high and 25 wide.
    pub fn new() -> (r: JviewLogs)
        ensures
            r.viewport_spec() == Self::new_spec(),
            r.max_width_spec() == 25,
    {
        JviewLogs {
            viewport: ViewportState { vertical_offset: 0, horizontal_offset: 0, viewport_height: 25 },
            max_viewer_width: 25,
        }
    }

    /// Sets the number of rows the pane shows; the offsets stay.
    pub fn set_max_height(&mut self, h: usize)
        ensures
            final(self).viewport_spec() == (ViewportState {
                viewport_height: h,
                ..old(self).viewport_spec()
            }),
            final(self).max_width_spec() == old(self).max_width_spec(),
    {
        self.viewport.viewport_height = h;
    }

    /// The window of the pane.
    #[verifier::when_used_as_spec(viewport_spec)]
    pub fn viewport(&self) -> (v: ViewportState)
        ensures
            v == self.viewport_spec(),
    {
        self.viewport
    }

    /// Handles one key over the `line_count` lines that the last fetch
    /// returned. The bound of Down is that count, taken anew at every call.
    pub fn logs_navigate(&mut self, key: Key, line_count: usize) -> (outcome: NavigationOutcome)
        ensures
            final(self).viewport_spec() == logs_scroll_spec(
                old(self).viewport_spec(),
                key,
                line_count as nat,
            ),
            final(self).max_width_spec() == old(self).max_width_spec(),
            outcome == logs_outcome_spec(key),
    {
        match key {
            Key::Char(c) => {
                if c == 'q' || c == 'Q' {
                    return NavigationOutcome::Quit;
                }
            },
            Key::Tab => {
                return NavigationOutcome::AdvanceFocus;
            },
            Key::Up => {
                if self.viewport.vertical_offset > 0 {
                    self.viewport.vertical_offset = self.viewport.vertical_offset - 1;
                }
            },
            Key::Down => {
                if self.viewport.vertical_offset < line_count {
                    self.viewport.vertical_offset = self.viewport.vertical_offset + 1;
                }
            },
            Key::Left => {
                if self.viewport.horizontal_offset > 0 {
                    self.viewport.horizontal_offset = self.viewport.horizontal_offset - 1;
                }
            },
            Key::Right => {
                if self.viewport.horizontal_offset < usize::MAX {
                    self.viewport.horizontal_offset = self.viewport.horizontal_offset + 1;
                }
            },
            _ => {},
        }
        NavigationOutcome::Continue
    }

    /// The rows to draw for the freshly fetched `logs`.
    pub fn get_log_items(&self, logs: &Vec<String>, selected: bool) -> (items: Vec<StyledRow>)
        ensures
            row_views(items@) == log_items_spec(self.viewport_spec(), texts(logs@), selected),
            items.len() <= self.viewport_spec().viewport_height,
            items.len() <= logs.len(),
    {
        let style = get_style(selected);
        let visible = self.viewport.visible_slice(logs);
        let ghost shown = texts(visible@);
        let mut items: Vec<StyledRow> = Vec::new();
        let count: usize = visible.len();
        let mut i: usize = 0;
        while i < count
            invariant
                count == visible.len(),
                i <= count,
                items.len() == i,
                texts(visible@) == shown,
                style == get_style_spec(selected),
                forall|k: int|
                    0 <= k < i ==> (#[trigger] items[k])@ == (StyledRowView {
                        text: shown[k],
                        style: get_style_spec(selected),
                    }),
            decreases count - i,
        {
            let text = visible[i].clone();
            items.push(StyledRow { text, style });
            i = i + 1;
        }
        assert(row_views(items@) =~= log_items_spec(self.viewport_spec(), texts(logs@), selected));
        items
    }

    /// The log pane as a titled list.
    pub fn get_logs_widget(&self, logs: &Vec<String>, selected: bool) -> (widget: ListWidget)
        ensures
            widget@ == (ListWidgetView {
                title: "Logs"@,
                style: get_style_spec(selected),
                items: log_items_spec(self.viewport_spec(), texts(logs@), selected),
            }),
    {
        ListWidget {
            title: "Logs".to_owned(),
            style: get_style(selected),
            items: self.get_log_items(logs, selected),
        }
    }
}

/// Why a list of lines could not be fetched.
#[derive(Debug, Clone, Copy, PartialEq, Eq, Structural)]
pub enum FetchError {
    /// The command could not be run.
    Unavailable,
    /// The command ran and reported failure.
    Failed,
}

/// The one line shown in place of the logs when they could not be fetched.
pub open spec fn fetch_error_line() -> Seq<char> {
    "Error fetching logs"@
}

/// The arguments of the log query for a filter: the unit to restrict the
/// query to, or, without one, everything since yesterday.
pub open spec fn journalctl_args_spec(filter: Option<Seq<char>>) -> Seq<Seq<char>> {
    match filter {
        Some(unit) => seq!["-u"@, unit],
        None => seq!["--since=yesterday"@],
    }
}

/// The lines the pane works on for what the log query returned: the lines
/// of its output, or the one error line.
pub open spec fn fetched_lines_spec(fetched: Result<Seq<char>, FetchError>) -> Seq<Seq<char>> {
    match fetched {
        Ok(output) => lines_spec(output),
        Err(_) => seq![fetch_error_line()],
    }
}

/// The arguments of the log query for the unit selected in `settings`.
pub fn journalctl_args(settings: &Settings) -> (args: Vec<String>)
    ensures
        texts(args@) == journalctl_args_spec(settings@.filter()),
{
    let unit = get_unit(settings);
    let mut args: Vec<String> = Vec::new();
    if unit.as_str().is_empty() {
        args.push("--since=yesterday".to_owned());
        assert(texts(args@) =~= seq!["--since=yesterday"@]);
    } else {
        args.push("-u".to_owned());
        args.push(unit);
        assert(texts(args@) =~= seq!["-u"@, settings@.unit]);
    }
    args
}

/// The lines to show, from what the log query returned: its output, or
/// why there is none. A failed query gives one line that says so, never an
/// empty list and never an error.
pub fn fetch_journalctl_logs(fetched: Result<String, FetchError>) -> (lines: Vec<String>)
    ensures
        texts(lines@) == fetched_lines_spec(
            match fetched {
                Ok(output) => Ok(output@),
                Err(e) => Err(e),
            },
        ),
        fetched is Err ==> lines.len() == 1,
{
    match fetched {
        Ok(output) => split_lines(output.as_str()),
        Err(_) => {
            let mut lines: Vec<String> = Vec::new();
            lines.push("Error fetching logs".to_owned());
            assert(texts(lines@) =~= seq![fetch_error_line()]);
            lines
        },
    }
}

} // verus!
