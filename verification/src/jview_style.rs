//! What a pane hands to whoever draws it: text, colours and a title, as
//! plain values.

use vstd::prelude::*;

verus! {

/// The colours the panes use.
#[derive(Debug, Clone, Copy, PartialEq, Eq, Structural)]
pub enum PaneColor {
    Black,
    Blue,
    Cyan,
    Yellow,
}

/// A foreground and a background colour.
#[derive(Debug, Clone, Copy, PartialEq, Eq, Structural)]
pub struct PaneStyle {
    pub fg: PaneColor,
    pub bg: PaneColor,
}

/// One row of a list, with the style it is drawn in.
#[derive(Debug, PartialEq, Eq)]
pub struct StyledRow {
    pub text: String,
    pub style: PaneStyle,
}

/// What a `StyledRow` holds.
pub struct StyledRowView {
    pub text: Seq<char>,
    pub style: PaneStyle,
}

impl View for StyledRow {
    type V = StyledRowView;

    open spec fn view(&self) -> StyledRowView {
        StyledRowView { text: self.text@, style: self.style }
    }
}

/// What each row of a list holds, in order.
pub open spec fn row_views(rows: Seq<StyledRow>) -> Seq<StyledRowView> {
    Seq::new(rows.len(), |i: int| rows[i]@)
}

/// A titled list of rows.
#[derive(Debug, PartialEq, Eq)]
pub struct ListWidget {
    pub title: String,
    pub style: PaneStyle,
    pub items: Vec<StyledRow>,
}

/// What a `ListWidget` holds.
pub struct ListWidgetView {
    pub title: Seq<char>,
    pub style: PaneStyle,
    pub items: Seq<StyledRowView>,
}

impl View for ListWidget {
    type V = ListWidgetView;

    open spec fn view(&self) -> ListWidgetView {
        ListWidgetView { title: self.title@, style: self.style, items: row_views(self.items@) }
    }
}

/// A titled piece of text.
#[derive(Debug, PartialEq, Eq)]
pub struct TextWidget {
    pub title: String,
    pub style: PaneStyle,
    pub text: String,
}

/// What a `TextWidget` holds.
pub struct TextWidgetView {
    pub title: Seq<char>,
    pub style: PaneStyle,
    pub text: Seq<char>,
}

impl View for TextWidget {
    type V = TextWidgetView;

    open spec fn view(&self) -> TextWidgetView {
        TextWidgetView { title: self.title@, style: self.style, text: self.text@ }
    }
}

} // verus!
