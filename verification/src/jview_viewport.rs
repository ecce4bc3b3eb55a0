//! The window a pane shows of a list of lines that may grow or shrink
//! between two looks at it.

use vstd::prelude::*;
use crate::jview_text::{string_tail, tail_from, texts};

verus! {

/// A two-dimensional scroll position and the number of rows on screen.
///
/// Offsets are positions in whatever list of lines is current; nothing ties
/// them to one list. `scroll` clamps them against the list at hand, and
/// `visible_slice` shows no row for an offset at or past its end.
#[derive(Debug, Clone, Copy, PartialEq, Eq, Structural)]
pub struct ViewportState {
    /// Index of the first line shown.
    pub vertical_offset: usize,
    /// Number of leading characters cut from every line shown.
    pub horizontal_offset: usize,
    /// Number of rows the window can show.
    pub viewport_height: usize,
}

/// The largest vertical offset that still shows a line of a list of
/// `line_count` lines: its last index, or 0 for an empty list.
pub open spec fn last_offset(line_count: nat) -> nat {
    if line_count == 0 {
        0
    } else {
        (line_count - 1) as nat
    }
}

/// `value` moved into `[low, high]`.
pub open spec fn clamp_int(value: int, low: int, high: int) -> int {
    if value < low {
        low
    } else if value > high {
        high
    } else {
        value
    }
}

/// How many rows a window of `height` rows shows of `line_count` lines when
/// it starts at line `vertical`.
pub open spec fn rows_shown(line_count: nat, vertical: nat, height: nat) -> nat {
    if vertical >= line_count {
        0
    } else if line_count - vertical < height {
        (line_count - vertical) as nat
    } else {
        height
    }
}

impl ViewportState {
    /// The position after moving by the given deltas over a list of
    /// `line_count` lines.
    ///
    /// The vertical offset ends in `[0, last_offset(line_count)]`. The
    /// horizontal offset has no bound but 0 below and what a `usize` holds
    /// above. The height is kept.
    pub open spec fn scroll_spec(
        self,
        delta_vertical: int,
        delta_horizontal: int,
        line_count: nat,
    ) -> ViewportState {
        ViewportState {
            vertical_offset: clamp_int(
                self.vertical_offset + delta_vertical,
                0,
                last_offset(line_count) as int,
            ) as usize,
            horizontal_offset: clamp_int(
                self.horizontal_offset + delta_horizontal,
                0,
                usize::MAX as int,
            ) as usize,
            viewport_height: self.viewport_height,
        }
    }

    /// The rows this window shows of `lines`: row `i` is line
    /// `vertical_offset + i` without its first `horizontal_offset`
    /// characters, and is empty when the line is no longer than that.
    pub open spec fn visible_slice_spec(self, lines: Seq<Seq<char>>) -> Seq<Seq<char>> {
        Seq::new(
            rows_shown(lines.len(), self.vertical_offset as nat, self.viewport_height as nat),
            |i: int| tail_from(lines[self.vertical_offset + i], self.horizontal_offset as nat),
        )
    }

    /// Moves the window by the given deltas and clamps the result against
    /// a list of `line_count` lines.
    pub fn scroll(
        &self,
        delta_vertical: isize,
        delta_horizontal: isize,
        line_count: usize,
    ) -> (r: ViewportState)
        ensures
            r == self.scroll_spec(delta_vertical as int, delta_horizontal as int, line_count as nat),
            r.vertical_offset <= last_offset(line_count as nat),
            line_count == 0 ==> r.vertical_offset == 0,
            r.viewport_height == self.viewport_height,
    {
        let limit: usize = if line_count == 0 {
            0
        } else {
            line_count - 1
        };
        ViewportState {
            vertical_offset: move_within(self.vertical_offset, delta_vertical, limit),
            horizontal_offset: move_within(self.horizontal_offset, delta_horizontal, usize::MAX),
            viewport_height: self.viewport_height,
        }
    }

    /// Cuts the visible rows out of `lines`.
    ///
    /// Never more than `viewport_height` rows, and never a row for a line
    /// that `lines` does not have. A line that the horizontal offset has
    /// passed still gets its row, which is empty.
    pub fn visible_slice(&self, lines: &Vec<String>) -> (rows: Vec<String>)
        ensures
            texts(rows@) == self.visible_slice_spec(texts(lines@)),
            rows.len() <= self.viewport_height,
            rows.len() <= lines.len(),
            rows.len() > 0 ==> self.vertical_offset + rows.len() <= lines.len(),
    {
        let mut rows: Vec<String> = Vec::new();
        let count: usize = lines.len();
        let first: usize = self.vertical_offset;
        let mut i: usize = first;
        while i < count && rows.len() < self.viewport_height
            invariant
                count == lines.len(),
                first == self.vertical_offset,
                first <= i,
                i <= count || rows.len() == 0,
                rows.len() == i - first,
                rows.len() <= self.viewport_height,
                forall|k: int|
                    0 <= k < rows.len() ==> (#[trigger] rows[k])@ == tail_from(
                        lines[first + k]@,
                        self.horizontal_offset as nat,
                    ),
            decreases count - i,
        {
            let row = string_tail(lines[i].as_str(), self.horizontal_offset);
            rows.push(row);
            i = i + 1;
        }
        assert(texts(rows@) =~= self.visible_slice_spec(texts(lines@)));
        rows
    }
}

/// `offset + delta`, moved into `[0, limit]`.
fn move_within(offset: usize, delta: isize, limit: usize) -> (r: usize)
    ensures
        r == clamp_int(offset + delta, 0, limit as int),
{
    let target: i128 = offset as i128 + delta as i128;
    if target < 0 {
        0
    } else if target > limit as i128 {
        limit
    } else {
        target as usize
    }
}

/// A window never shows more rows than it is high, and its last row stands
/// for a line that the list has: the rows end where the list ends or before.
pub proof fn lemma_visible_slice_within_bounds(state: ViewportState, lines: Seq<Seq<char>>)
    ensures
        state.visible_slice_spec(lines).len() <= state.viewport_height,
        state.visible_slice_spec(lines).len() <= lines.len(),
        state.visible_slice_spec(lines).len() > 0 ==> state.vertical_offset
            + state.visible_slice_spec(lines).len() <= lines.len(),
        lines.len() == 0 ==> state.visible_slice_spec(lines).len() == 0,
        state.viewport_height == 0 ==> state.visible_slice_spec(lines).len() == 0,
{
}

/// Scrolling right changes what the rows hold, never how many there are: a
/// line no longer than the horizontal offset keeps its row, and the row is
/// the empty string.
pub proof fn lemma_line_scrolled_past_is_empty_row(
    state: ViewportState,
    lines: Seq<Seq<char>>,
    i: int,
)
    requires
        0 <= i < state.visible_slice_spec(lines).len(),
        lines[state.vertical_offset + i].len() <= state.horizontal_offset,
    ensures
        state.visible_slice_spec(lines)[i] == Seq::<char>::empty(),
        state.visible_slice_spec(lines).len() == (ViewportState {
            horizontal_offset: 0,
            ..state
        }).visible_slice_spec(lines).len(),
{
}

/// Over an empty list every scroll ends at vertical offset 0.
pub proof fn lemma_scroll_over_nothing(state: ViewportState, delta_vertical: int, delta_horizontal: int)
    ensures
        state.scroll_spec(delta_vertical, delta_horizontal, 0).vertical_offset == 0,
{
}

} // verus!
