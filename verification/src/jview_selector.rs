//! The selector pane: a list of unit names with a cursor. Enter commits
//! the name under the cursor as the filter of the log pane; moving the
//! cursor drops the filter again.

use vstd::prelude::*;
use vstd::string::StringExecFns;
use crate::jview_config::settings::{Settings, SettingsView, clear_unit, get_unit, set_unit};
use crate::jview_input::{Key, NavigationOutcome};
use crate::jview_logs::{FetchError, get_style, get_style_spec};
use crate::jview_style::{ListWidget, ListWidgetView, PaneColor, PaneStyle, StyledRow, StyledRowView, row_views};
use crate::jview_text::{lines_spec, split_lines, texts};
use crate::jview_viewport::{ViewportState, clamp_int};

verus! {

/// How close to the bottom row the cursor may come before the window
/// scrolls down with it.
pub const SCROLL_MARGIN: usize = 4;

/// The state of the selector pane.
#[derive(Debug, PartialEq, Eq)]
pub struct JviewSelector {
    selected_idx: usize,
    viewport: ViewportState,
    units: Vec<String>,
}

/// What a `JviewSelector` holds.
pub struct SelectorView {
    /// Index in `units` of the unit under the cursor.
    pub cursor_index: nat,
    /// The window on `units`.
    pub viewport: ViewportState,
    /// The unit names, in the order they are listed.
    pub units: Seq<Seq<char>>,
}

/// The style of the row under the cursor.
pub open spec fn cursor_style() -> PaneStyle {
    PaneStyle { fg: PaneColor::Black, bg: PaneColor::Cyan }
}

/// What stands before the name of the committed unit: a heavy check mark
/// and a space.
pub open spec fn committed_mark() -> Seq<char> {
    seq!['\u{2714}', ' ']
}

/// What stands before the name under the cursor, unless that unit is the
/// committed one: a check mark and a space.
pub open spec fn cursor_mark() -> Seq<char> {
    seq!['\u{2713}', ' ']
}

impl SelectorView {
    /// The cursor is on a unit, or at 0 when there is none; the window
    /// starts at or above the cursor, and, unless it has no rows at all,
    /// ends below it.
    pub open spec fn wf(self) -> bool {
        &&& self.units.len() <= usize::MAX
        &&& self.cursor_index < self.units.len() || (self.units.len() == 0 && self.cursor_index
            == 0)
        &&& self.viewport.vertical_offset <= self.cursor_index
        &&& self.viewport.viewport_height > 0 ==> self.cursor_index
            < self.viewport.vertical_offset + self.viewport.viewport_height
    }

    /// The cursor is on a unit and inside the window.
    pub open spec fn cursor_in_view(self) -> bool {
        &&& 0 <= self.cursor_index < self.units.len()
        &&& self.viewport.vertical_offset <= self.cursor_index < self.viewport.vertical_offset
            + self.viewport.viewport_height
    }

    /// Up: the cursor moves to the unit before, and the window follows
    /// when the cursor would leave it at the top.
    pub open spec fn move_up(self) -> SelectorView {
        if self.cursor_index > 0 {
            let cursor = (self.cursor_index - 1) as nat;
            let top = if cursor < self.viewport.vertical_offset {
                (self.viewport.vertical_offset - 1) as usize
            } else {
                self.viewport.vertical_offset
            };
            SelectorView {
                cursor_index: cursor,
                viewport: ViewportState { vertical_offset: top, ..self.viewport },
                units: self.units,
            }
        } else {
            self
        }
    }

    /// Down: the cursor moves to the unit after, if there is one, and the
    /// window scrolls by one when the cursor comes within `SCROLL_MARGIN`
    /// rows of its end.
    pub open spec fn move_down(self) -> SelectorView {
        if self.cursor_index + 1 < self.units.len() {
            let cursor = self.cursor_index + 1;
            let top = if cursor + SCROLL_MARGIN >= self.viewport.vertical_offset
                + self.viewport.viewport_height {
                (self.viewport.vertical_offset + 1) as usize
            } else {
                self.viewport.vertical_offset
            };
            SelectorView {
                cursor_index: cursor,
                viewport: ViewportState { vertical_offset: top, ..self.viewport },
                units: self.units,
            }
        } else {
            self
        }
    }

    /// Left and Right: the window moves sideways by `delta` columns, not
    /// beyond column 0 nor beyond what a `usize` holds. Cursor and vertical
    /// offset stay.
    pub open spec fn pan(self, delta: int) -> SelectorView {
        SelectorView {
            viewport: ViewportState {
                horizontal_offset: clamp_int(
                    self.viewport.horizontal_offset + delta,
                    0,
                    usize::MAX as int,
                ) as usize,
                ..self.viewport
            },
            ..self
        }
    }

    /// The pane after one key. Up and Down move the cursor, Left and Right
    /// move the window sideways, no other key changes the pane.
    pub open spec fn step(self, key: Key) -> SelectorView {
        match key {
            Key::Up => self.move_up(),
            Key::Down => self.move_down(),
            Key::Left => self.pan(-1),
            Key::Right => self.pan(1),
            _ => self,
        }
    }

    /// The pane after a list of keys, handled in order.
    pub open spec fn run(self, keys: Seq<Key>) -> SelectorView
        decreases keys.len(),
    {
        if keys.len() == 0 {
            self
        } else {
            self.run(keys.drop_last()).step(keys.last())
        }
    }

    /// What the pane answers to a key: `q` and `Q` quit; Tab passes the
    /// focus on, and so does Enter when there is a unit to commit.
    pub open spec fn outcome(self, key: Key) -> NavigationOutcome {
        if key.is_quit_spec() {
            NavigationOutcome::Quit
        } else if key == Key::Tab {
            NavigationOutcome::AdvanceFocus
        } else if key == Key::Enter && self.units.len() > 0 {
            NavigationOutcome::AdvanceFocus
        } else {
            NavigationOutcome::Continue
        }
    }

    /// The selected unit name after one key, given the name before it.
    /// Enter selects the unit under the cursor; Up and Down drop the
    /// selection, whether or not the cursor could move. A pane without
    /// units changes nothing.
    pub open spec fn unit_after(self, unit: Seq<char>, key: Key) -> Seq<char> {
        if self.units.len() == 0 {
            unit
        } else {
            match key {
                Key::Enter => self.units[self.cursor_index as int],
                Key::Up | Key::Down => Seq::empty(),
                _ => unit,
            }
        }
    }

    /// The pane after it was told that it has `height` rows. The window
    /// moves down just far enough to keep the cursor on its last row when
    /// the cursor would otherwise fall below it.
    pub open spec fn resized(self, height: usize) -> SelectorView {
        let top = if height > 0 && self.cursor_index >= self.viewport.vertical_offset + height {
            (self.cursor_index - height + 1) as usize
        } else {
            self.viewport.vertical_offset
        };
        SelectorView {
            viewport: ViewportState { vertical_offset: top, viewport_height: height, ..self.viewport },
            ..self
        }
    }

    /// The names on screen, cut to the window.
    pub open spec fn visible_units(self) -> Seq<Seq<char>> {
        self.viewport.visible_slice_spec(self.units)
    }

    /// Row `i` of the pane. The row under the cursor is drawn in
    /// `cursor_style`. A row whose text is the filter carries
    /// `committed_mark`, wherever the cursor is; the row under the cursor
    /// carries `cursor_mark` unless it carries the other.
    pub open spec fn row(self, i: int, selected: bool, filter: Option<Seq<char>>) -> StyledRowView {
        let name = self.visible_units()[i];
        let under_cursor = self.viewport.vertical_offset + i == self.cursor_index;
        StyledRowView {
            text: if filter == Some(name) {
                committed_mark() + name
            } else if under_cursor {
                cursor_mark() + name
            } else {
                name
            },
            style: if under_cursor {
                cursor_style()
            } else {
                get_style_spec(selected)
            },
        }
    }

    /// The rows of the pane, one for each visible name.
    pub open spec fn rows(self, selected: bool, filter: Option<Seq<char>>) -> Seq<StyledRowView> {
        Seq::new(self.visible_units().len(), |i: int| self.row(i, selected, filter))
    }
}

impl View for JviewSelector {
    type V = SelectorView;

    closed spec fn view(&self) -> SelectorView {
        SelectorView {
            cursor_index: self.selected_idx as nat,
            viewport: self.viewport,
            units: texts(self.units@),
        }
    }
}

impl Clone for JviewSelector {
    /// A pane that holds what this one holds.
    fn clone(&self) -> (r: JviewSelector)
        ensures
            r@ == self@,
    {
        proof {
            use_type_invariant(self);
        }
        let units = self.units.clone();
        proof {
            assert forall|i: int| 0 <= i < units.len() implies units[i] == self.units[i] by {
                assert(cloned::<String>(self.units[i], units[i]));
            }
            assert(units@ =~= self.units@);
        }
        JviewSelector { selected_idx: self.selected_idx, viewport: self.viewport, units }
    }
}

/// Writes the cursor and the first visible row of a pane in one step.
fn place(cursor: &mut usize, top: &mut usize, new_cursor: usize, new_top: usize)
    ensures
        *final(cursor) == new_cursor,
        *final(top) == new_top,
    no_unwind
{
    *cursor = new_cursor;
    *top = new_top;
}

impl JviewSelector {
    /// Every pane is well-formed, whatever was done to it.
    #[verifier::type_invariant]
    pub open spec fn inv(self) -> bool {
        self@.wf()
    }

    /// What a fresh pane over `units` holds: the cursor on the first
    /// unit, the window at the top left and 15 rows high.
    pub open spec fn new_spec(units: Seq<Seq<char>>) -> SelectorView {
        SelectorView {
            cursor_index: 0,
            viewport: ViewportState { vertical_offset: 0, horizontal_offset: 0, viewport_height: 15 },
            units,
        }
    }

    /// A pane over `units`, 15 rows high, with the cursor on the first
    /// unit and the window at the top left.
    pub fn new(units: Vec<String>) -> (r: JviewSelector)
        ensures
            r@ == Self::new_spec(texts(units@)),
            r@.wf(),
    {
        assert(units@.len() == units.len());
        JviewSelector {
            selected_idx: 0,
            viewport: ViewportState { vertical_offset: 0, horizontal_offset: 0, viewport_height: 15 },
            units,
        }
    }

    /// Sets the number of rows the pane shows and keeps the cursor inside
    /// the window.
    pub fn set_max_height(&mut self, h: usize)
        ensures
            final(self)@ == old(self)@.resized(h),
            final(self)@.wf(),
    {
        proof {
            use_type_invariant(&*self);
        }
        let top: usize = if h > 0 && self.selected_idx - self.viewport.vertical_offset >= h {
            self.selected_idx - (h - 1)
        } else {
            self.viewport.vertical_offset
        };
        place(&mut self.viewport.vertical_offset, &mut self.viewport.viewport_height, top, h);
    }

    /// Index of the unit under the cursor.
    pub fn cursor_index(&self) -> (i: usize)
        ensures
            i == self@.cursor_index,
    {
        self.selected_idx
    }

    /// The window of the pane.
    pub fn viewport(&self) -> (v: ViewportState)
        ensures
            v == self@.viewport,
    {
        self.viewport
    }

    /// The names on screen, cut to the window.
    pub fn get_visible_units(&self) -> (names: Vec<String>)
        ensures
            texts(names@) == self@.visible_units(),
            names.len() <= self@.viewport.viewport_height,
            names.len() <= self@.units.len(),
            names.len() > 0 ==> self@.viewport.vertical_offset + names.len() <= self@.units.len(),
    {
        self.viewport.visible_slice(&self.units)
    }

    /// The selector pane as a titled list, with the marks that `settings`
    /// and the cursor call for.
    pub fn get_selector_widget(&self, selected: bool, settings: &Settings) -> (widget: ListWidget)
        ensures
            widget@ == (ListWidgetView {
                title: "Systemd Units"@,
                style: get_style_spec(selected),
                items: self@.rows(selected, settings@.filter()),
            }),
    {
        let names = self.get_visible_units();
        let unit = get_unit(settings);
        let filtered = !unit.as_str().is_empty();
        let pane_style = get_style(selected);
        let ghost view = self@;
        let ghost filter = settings@.filter();
        assert(self.units@.len() == self.units.len());
        let mut items: Vec<StyledRow> = Vec::new();
        let count: usize = names.len();
        let mut i: usize = 0;
        while i < count
            invariant
                count == names.len(),
                i <= count,
                items.len() == i,
                view == self@,
                filter == settings@.filter(),
                filtered == (filter is Some),
                filtered ==> filter == Some(unit@),
                pane_style == get_style_spec(selected),
                texts(names@) == view.visible_units(),
                count > 0 ==> view.viewport.vertical_offset + count <= view.units.len(),
                view.units.len() <= usize::MAX,
                forall|k: int| 0 <= k < i ==> (#[trigger] items[k])@ == view.row(k, selected, filter),
            decreases count - i,
        {
            let name = &names[i];
            assert(name@ == texts(names@)[i as int]);
            let under_cursor = self.viewport.vertical_offset + i == self.selected_idx;
            let committed = filtered && unit == *name;
            let text = if committed {
                proof {
                    reveal_strlit("\u{2714} ");
                    assert("\u{2714} "@ =~= committed_mark());
                }
                "\u{2714} ".to_owned().concat(name.as_str())
            } else if under_cursor {
                proof {
                    reveal_strlit("\u{2713} ");
                    assert("\u{2713} "@ =~= cursor_mark());
                }
                "\u{2713} ".to_owned().concat(name.as_str())
            } else {
                name.clone()
            };
            let style = if under_cursor {
                PaneStyle { fg: PaneColor::Black, bg: PaneColor::Cyan }
            } else {
                pane_style
            };
            items.push(StyledRow { text, style });
            i = i + 1;
        }
        assert(row_views(items@) =~= view.rows(selected, filter));
        ListWidget { title: "Systemd Units".to_owned(), style: pane_style, items }
    }

    /// Handles one key.
    ///
    /// The pane changes as `SelectorView::step` says, the selected unit in
    /// `settings` as `SelectorView::unit_after` says, and nothing else in
    /// `settings` changes.
    pub fn navigate(&mut self, key: Key, settings: &mut Settings) -> (outcome: NavigationOutcome)
        ensures
            final(self)@ == old(self)@.step(key),
            final(self)@.wf(),
            outcome == old(self)@.outcome(key),
            final(settings)@ == (SettingsView {
                unit: old(self)@.unit_after(old(settings)@.unit, key),
                ..old(settings)@
            }),
    {
        proof {
            use_type_invariant(&*self);
        }
        let count: usize = self.units.len();
        let cursor: usize = self.selected_idx;
        let top: usize = self.viewport.vertical_offset;
        match key {
            Key::Char(c) => {
                if c == 'q' || c == 'Q' {
                    return NavigationOutcome::Quit;
                }
            },
            Key::Tab => {
                return NavigationOutcome::AdvanceFocus;
            },
            Key::Enter => {
                if count > 0 {
                    set_unit(settings, self.units[self.selected_idx].as_str());
                    return NavigationOutcome::AdvanceFocus;
                }
            },
            Key::Up => {
                if count > 0 {
                    if cursor > 0 {
                        let new_top: usize = if cursor - 1 < top {
                            top - 1
                        } else {
                            top
                        };
                        place(
                            &mut self.selected_idx,
                            &mut self.viewport.vertical_offset,
                            cursor - 1,
                            new_top,
                        );
                    }
                    clear_unit(settings);
                }
            },
            Key::Down => {
                if count > 0 {
                    if cursor + 1 < count {
                        let depth: usize = cursor + 1 - top;
                        let height: usize = self.viewport.viewport_height;
                        let new_top: usize = if height <= SCROLL_MARGIN || depth >= height
                            - SCROLL_MARGIN {
                            top + 1
                        } else {
                            top
                        };
                        place(
                            &mut self.selected_idx,
                            &mut self.viewport.vertical_offset,
                            cursor + 1,
                            new_top,
                        );
                    }
                    clear_unit(settings);
                }
            },
            Key::Left => {
                self.viewport = self.viewport.scroll(0, -1, count);
            },
            Key::Right => {
                self.viewport = self.viewport.scroll(0, 1, count);
            },
            _ => {},
        }
        NavigationOutcome::Continue
    }
}

/// Whatever the key, a well-formed pane stays well-formed, keeps its units
/// and keeps its height.
pub proof fn lemma_step_keeps_wf(s: SelectorView, key: Key)
    requires
        s.wf(),
    ensures
        s.step(key).wf(),
        s.step(key).units == s.units,
        s.step(key).viewport.viewport_height == s.viewport.viewport_height,
{
}

/// However the keys follow one another, and Up and Down among them in any
/// order, the cursor of a pane that has units and at least one row is,
/// after every key, on a unit and inside the window.
pub proof fn lemma_cursor_stays_in_view(s: SelectorView, keys: Seq<Key>)
    requires
        s.wf(),
        s.units.len() > 0,
        s.viewport.viewport_height > 0,
    ensures
        forall|n: int| 0 <= n <= keys.len() ==> (#[trigger] s.run(keys.take(n))).cursor_in_view(),
{
    assert forall|n: int| 0 <= n <= keys.len() implies (#[trigger] s.run(
        keys.take(n),
    )).cursor_in_view() by {
        lemma_run_keeps_wf(s, keys.take(n));
    }
}

/// A run of keys keeps what one key keeps.
pub proof fn lemma_run_keeps_wf(s: SelectorView, keys: Seq<Key>)
    requires
        s.wf(),
    ensures
        s.run(keys).wf(),
        s.run(keys).units == s.units,
        s.run(keys).viewport.viewport_height == s.viewport.viewport_height,
    decreases keys.len(),
{
    if keys.len() > 0 {
        lemma_run_keeps_wf(s, keys.drop_last());
        lemma_step_keeps_wf(s.run(keys.drop_last()), keys.last());
    }
}

/// Enter commits the unit under the cursor, and the first Up or Down after
/// it leaves no unit selected.
pub proof fn lemma_moving_the_cursor_drops_the_commit(s: SelectorView, unit: Seq<char>, key: Key)
    requires
        s.wf(),
        s.units.len() > 0,
        key == Key::Up || key == Key::Down,
    ensures
        s.unit_after(unit, Key::Enter) == s.units[s.cursor_index as int],
        s.step(Key::Enter) == s,
        s.step(Key::Enter).unit_after(s.unit_after(unit, Key::Enter), key) == Seq::<char>::empty(),
        s.unit_after(unit, key) == Seq::<char>::empty(),
{
}

/// The ending that marks a unit name as that of a service.
pub open spec fn unit_suffix() -> Seq<char> {
    seq!['.', 's', 'e', 'r', 'v', 'i', 'c', 'e']
}

/// Whether `name` ends in `unit_suffix`.
pub open spec fn has_unit_suffix(name: Seq<char>) -> bool {
    name.len() >= unit_suffix().len() && name.skip(name.len() - unit_suffix().len())
        == unit_suffix()
}

/// `name` without the service endings at its end, however many there are.
pub open spec fn normalize_unit_spec(name: Seq<char>) -> Seq<char>
    decreases name.len(),
{
    if has_unit_suffix(name) {
        normalize_unit_spec(name.take(name.len() - unit_suffix().len()))
    } else {
        name
    }
}

/// The single entry of the list when the units could not be listed.
pub open spec fn all_units_label() -> Seq<char> {
    "<All Systemd units>"@
}

/// The names the pane lists for what the unit listing returned: every
/// line of its output normalized, in order, or the one label that stands
/// for all.
pub open spec fn listed_units_spec(listed: Result<Seq<char>, FetchError>) -> Seq<Seq<char>> {
    match listed {
        Ok(output) => Seq::new(
            lines_spec(output).len(),
            |i: int| normalize_unit_spec(lines_spec(output)[i]),
        ),
        Err(_) => seq![all_units_label()],
    }
}

/// Whether the first `end` characters of `name` end in `unit_suffix`.
fn ends_in_unit_suffix(name: &str, end: usize) -> (r: bool)
    requires
        end <= name@.len(),
    ensures
        r == has_unit_suffix(name@.take(end as int)),
{
    if end < 8 {
        return false;
    }
    let suffix = ".service".to_owned();
    let tail = name.substring_char(end - 8, end).to_owned();
    proof {
        reveal_strlit(".service");
        assert(suffix@ =~= unit_suffix());
        assert(tail@ =~= name@.take(end as int).skip(end - 8));
    }
    tail == suffix
}

/// Removes the service endings from the end of a unit name, so that the
/// name is the one the log query takes as its filter.
pub fn normalize_unit(name: &str) -> (r: String)
    ensures
        r@ == normalize_unit_spec(name@),
{
    let mut end: usize = name.unicode_len();
    assert(name@.take(end as int) =~= name@);
    while ends_in_unit_suffix(name, end)
        invariant
            end <= name@.len(),
            normalize_unit_spec(name@) == normalize_unit_spec(name@.take(end as int)),
        decreases end,
    {
        assert(name@.take(end as int).take(end - 8) =~= name@.take(end - 8));
        end = end - 8;
    }
    assert(name@.subrange(0, end as int) =~= name@.take(end as int));
    name.substring_char(0, end).to_owned()
}

/// The unit names to list, from what the unit listing returned: its
/// output, one name to the line, or why there is none.
pub fn fetch_systemd_units(listed: Result<String, FetchError>) -> (units: Vec<String>)
    ensures
        texts(units@) == listed_units_spec(
            match listed {
                Ok(output) => Ok(output@),
                Err(e) => Err(e),
            },
        ),
        listed is Err ==> units.len() == 1,
{
    match listed {
        Ok(output) => {
            let lines = split_lines(output.as_str());
            let mut units: Vec<String> = Vec::new();
            let count: usize = lines.len();
            let mut i: usize = 0;
            while i < count
                invariant
                    count == lines.len(),
                    i <= count,
                    units.len() == i,
                    texts(lines@) == lines_spec(output@),
                    forall|k: int|
                        0 <= k < i ==> (#[trigger] units[k])@ == normalize_unit_spec(
                            lines_spec(output@)[k],
                        ),
                decreases count - i,
            {
                assert(lines[i as int]@ == texts(lines@)[i as int]);
                units.push(normalize_unit(lines[i].as_str()));
                i = i + 1;
            }
            assert(texts(units@) =~= listed_units_spec(Ok(output@)));
            units
        },
        Err(_) => {
            let mut units: Vec<String> = Vec::new();
            units.push("<All Systemd units>".to_owned());
            assert(texts(units@) =~= seq![all_units_label()]);
            units
        },
    }
}

} // verus!
