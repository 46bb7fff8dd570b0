//! The box in which the filter is typed.
use vstd::prelude::*;
use crate::geometry::Rect;
use crate::state::{ActiveBlock, KeyBindings, KeyBindingsView, Snapshot, SnapshotView};
use crate::text::{byte_len, text_len, title_with_keys, write_title};

verus! {

/// The columns between the panel's left edge and the first typed character.
pub const CURSOR_INDENT: u16 = 2;

/// The rows between the panel's top edge and the typed line.
pub const CURSOR_ROW: u16 = 1;

/// The filter panel: a bordered box around the typed text, and the place of
/// the text cursor where the panel has the focus.
#[derive(Clone, Debug, PartialEq, Eq)]
pub struct FilterPanel {
    pub area: Rect,
    pub title: String,
    /// Whether the border is drawn in the tone of the focused panel.
    pub active: bool,
    pub text: String,
    /// Column and row of the text cursor on the screen.
    pub cursor: Option<(u16, u16)>,
}

pub ghost struct FilterPanelView {
    pub area: Rect,
    pub title: Seq<char>,
    pub active: bool,
    pub text: Seq<char>,
    pub cursor: Option<(u16, u16)>,
}

impl View for FilterPanel {
    type V = FilterPanelView;

    open spec fn view(&self) -> FilterPanelView {
        FilterPanelView {
            area: self.area,
            title: self.title@,
            active: self.active,
            text: self.text@,
            cursor: self.cursor,
        }
    }
}

/// The panel's title, which names the key that jumps to the filter and the
/// key that shows or hides it.
pub open spec fn filter_title(keys: KeyBindingsView) -> Seq<char> {
    title_with_keys(" Filter "@, keys.jump_to_filter, " (toggle: "@, keys.toggle_filter, ") "@)
}

/// The column of the text cursor: just behind the typed text.
pub open spec fn cursor_column(area: Rect, filter: Seq<char>) -> int {
    area.x + CURSOR_INDENT + byte_len(filter)
}

/// The row of the text cursor.
pub open spec fn cursor_row(area: Rect) -> int {
    area.y + CURSOR_ROW
}

/// The text cursor of a filter panel at `area` is a cell that a terminal can
/// address.
pub open spec fn cursor_on_screen(area: Rect, filter: Seq<char>) -> bool {
    cursor_column(area, filter) <= u16::MAX && cursor_row(area) <= u16::MAX
}

/// The filter panel that `app` asks for in `area`.
pub open spec fn filter_panel(app: SnapshotView, keys: KeyBindingsView, area: Rect) -> FilterPanelView {
    let active = app.active_block == ActiveBlock::Filter;
    FilterPanelView {
        area,
        title: filter_title(keys),
        active,
        text: app.filter,
        cursor: if active {
            Some((cursor_column(area, app.filter) as u16, cursor_row(area) as u16))
        } else {
            None
        },
    }
}

/// Tests `cursor_on_screen` at run time.
pub fn cursor_is_on_screen(area: Rect, filter: &String) -> (ok: bool)
    ensures
        ok == cursor_on_screen(area, filter@),
{
    let len = text_len(filter);
    let room: u16 = u16::MAX - CURSOR_INDENT;
    area.x <= room && len <= (room - area.x) as usize && area.y <= u16::MAX - CURSOR_ROW
}

/// Describes the filter panel in `area`.
///
/// Where the filter has the focus, the panel is active and the text cursor
/// stands `CURSOR_INDENT` columns plus the length of the typed text to the
/// right of the panel's corner, and `CURSOR_ROW` rows below it. Otherwise the
/// panel places no cursor.
pub fn draw_filter(app: &Snapshot, keys: &KeyBindings, area: Rect) -> (panel: FilterPanel)
    requires
        app.active_block == ActiveBlock::Filter ==> cursor_on_screen(area, app.filter@),
    ensures
        panel@ == filter_panel(app@, keys@, area),
{
    let title = write_title(
        " Filter ",
        keys.jump_to_filter.as_str(),
        " (toggle: ",
        keys.toggle_filter.as_str(),
        ") ",
    );
    let active = app.active_block == ActiveBlock::Filter;
    let cursor = if active {
        let len = text_len(&app.filter);
        Some((area.x + CURSOR_INDENT + len as u16, area.y + CURSOR_ROW))
    } else {
        None
    };
    FilterPanel { area, title, active, text: app.filter.clone(), cursor }
}

} // verus!
