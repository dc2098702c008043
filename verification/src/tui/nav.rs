//! The keyboard navigation rules of the interface: moving through the
//! result grid, the pickers, the guide, the schedule calendar and the lists
//! of saved schedules, and editing the query with completions. Each rule is
//! a function from the current position and the key to the next position;
//! the interface applies them to its state.
use vstd::prelude::*;
use crate::tui::state::{ErrorType, FocusMode};
use crate::data::sql::{School, Term};
use crate::tui::themes::{ThemePalette, all_palettes, lemma_palettes_listed_once};
use crate::dsl::compiler::{CompileOutcome, Compilation, Compiler, tab_completions};
use crate::text::{
    concat, char_is_ws, chars_of, is_ws, span_fits, span_ok, span_text, starts_with, starts_with_chars,
    str_eq, str_lower, span_string, string_of, string_push, to_lower, trim, trim_chars, utf8_of,
};
use vstd::string::*;

verus! {

/// A navigation key.
#[derive(Debug, Clone, Copy, PartialEq, Eq, Structural)]
pub enum NavKey {
    Up,
    Down,
    Left,
    Right,
    PageUp,
    PageDown,
    Home,
    End,
}

// ---------------------------------------------------------------------------
// The result grid
// ---------------------------------------------------------------------------

/// Results are shown three to a row.
pub const RESULT_COLUMNS: usize = 3;

/// Where the selection is in the result grid: the selected result and the
/// first result shown.
#[derive(Debug, Clone, Copy, PartialEq, Eq, Structural)]
pub struct GridPosition {
    pub selected: usize,
    pub scroll: usize,
}

/// What a key does in the result grid: the new position, or leaving the
/// grid for the query input (the position then stays as it was).
#[derive(Debug, Clone, Copy, PartialEq, Eq, Structural)]
pub enum GridMove {
    Stay(GridPosition),
    ToQueryInput,
}

/// The selected result is on screen: at or after the first result shown
/// and fewer than `visible` results after it.
pub open spec fn on_screen(p: GridPosition, visible: int) -> bool {
    p.scroll <= p.selected < p.scroll + visible
}

/// The position after `Up`: a row up, scrolling back to the start of that
/// row when it was above the screen; from the first row, to the query
/// input.
pub open spec fn grid_up_spec(p: GridPosition) -> GridMove {
    if p.selected < 3 {
        GridMove::ToQueryInput
    } else {
        let s = p.selected - 3;
        GridMove::Stay(GridPosition {
            selected: s as usize,
            scroll: if s < p.scroll { ((s / 3) * 3) as usize } else { p.scroll },
        })
    }
}

/// The position after `Down`, with `total` results of which `visible` fit
/// on screen: a row down when there is a result there; the screen scrolls
/// by whole rows so that the selection is on its last row, or back to the
/// top when every result fits.
pub open spec fn grid_down_spec(p: GridPosition, total: int, visible: int) -> GridPosition {
    if p.selected + 3 < total {
        let s = p.selected + 3;
        let scroll = if total <= visible {
            0
        } else if s >= p.scroll + visible {
            let rows = visible / 3;
            let row = s / 3;
            let first = if row - (rows - 1) > 0 { row - (rows - 1) } else { 0 };
            first * 3
        } else {
            p.scroll as int
        };
        GridPosition { selected: s as usize, scroll: scroll as usize }
    } else {
        p
    }
}

/// The position after `Left`: the previous result, scrolling back to it
/// when it was above the screen.
pub open spec fn grid_left_spec(p: GridPosition) -> GridPosition {
    if p.selected > 0 {
        let s = p.selected - 1;
        GridPosition { selected: s as usize, scroll: if s < p.scroll { s as usize } else { p.scroll } }
    } else {
        p
    }
}

/// The position after `Right`: the next result when there is one; the
/// screen scrolls so that it is the last shown, or back to the top when
/// every result fits.
pub open spec fn grid_right_spec(p: GridPosition, total: int, visible: int) -> GridPosition {
    if p.selected + 1 < total {
        let s = p.selected + 1;
        let scroll = if total <= visible {
            0
        } else if s >= p.scroll + visible {
            if s - (visible - 1) > 0 { s - (visible - 1) } else { 0 }
        } else {
            p.scroll as int
        };
        GridPosition { selected: s as usize, scroll: scroll as usize }
    } else {
        p
    }
}

/// Moving down or right subtracts one from the rows or results that fit;
/// none fitting would go below zero.
pub open spec fn grid_move_defined(p: GridPosition, total: int, visible: int) -> bool {
    &&& p.selected + 3 <= usize::MAX
    &&& p.scroll + visible <= usize::MAX
    &&& (total > visible && p.selected + 3 < total && p.selected + 3 >= p.scroll + visible ==> visible >= 3)
    &&& (total > visible && p.selected + 1 < total && p.selected + 1 >= p.scroll + visible ==> visible >= 1)
}

/// Moves up in the result grid.
pub fn grid_up(p: GridPosition) -> (r: GridMove)
    ensures
        r == grid_up_spec(p),
{
    if p.selected == 0 {
        return GridMove::ToQueryInput;
    }
    if p.selected >= RESULT_COLUMNS {
        let s = p.selected - RESULT_COLUMNS;
        let scroll = if s < p.scroll { (s / RESULT_COLUMNS) * RESULT_COLUMNS } else { p.scroll };
        GridMove::Stay(GridPosition { selected: s, scroll })
    } else {
        GridMove::ToQueryInput
    }
}

/// Moves down in the result grid of `total` results, `visible` of which fit
/// on screen.
pub fn grid_down(p: GridPosition, total: usize, visible: usize) -> (r: GridPosition)
    requires
        grid_move_defined(p, total as int, visible as int),
    ensures
        r == grid_down_spec(p, total as int, visible as int),
{
    if p.selected + RESULT_COLUMNS < total {
        let s = p.selected + RESULT_COLUMNS;
        let scroll = if total <= visible {
            0
        } else if s >= p.scroll + visible {
            let rows = visible / RESULT_COLUMNS;
            let row = s / RESULT_COLUMNS;
            let first = row.saturating_sub(rows - 1);
            assert(first <= row);
            assert(first * 3 <= s) by (nonlinear_arith)
                requires first <= row, row == s / 3;
            first * RESULT_COLUMNS
        } else {
            p.scroll
        };
        GridPosition { selected: s, scroll }
    } else {
        p
    }
}

/// Moves left in the result grid.
pub fn grid_left(p: GridPosition) -> (r: GridPosition)
    ensures
        r == grid_left_spec(p),
{
    if p.selected > 0 {
        let s = p.selected - 1;
        GridPosition { selected: s, scroll: if s < p.scroll { s } else { p.scroll } }
    } else {
        p
    }
}

/// Moves right in the result grid of `total` results, `visible` of which
/// fit on screen.
pub fn grid_right(p: GridPosition, total: usize, visible: usize) -> (r: GridPosition)
    requires
        grid_move_defined(p, total as int, visible as int),
    ensures
        r == grid_right_spec(p, total as int, visible as int),
{
    if p.selected + 1 < total {
        let s = p.selected + 1;
        let scroll = if total <= visible {
            0
        } else if s >= p.scroll + visible {
            s.saturating_sub(visible - 1)
        } else {
            p.scroll
        };
        GridPosition { selected: s, scroll }
    } else {
        p
    }
}

/// Moving through the result grid never leaves the results, and keeps the
/// selected result on screen when at least one row fits.
pub proof fn lemma_grid_keeps_selection_on_screen(p: GridPosition, total: usize, visible: usize)
    requires
        p.selected < total,
        visible >= 3,
        on_screen(p, visible as int),
    ensures
        grid_down_spec(p, total as int, visible as int).selected < total,
        on_screen(grid_down_spec(p, total as int, visible as int), visible as int),
        grid_right_spec(p, total as int, visible as int).selected < total,
        on_screen(grid_right_spec(p, total as int, visible as int), visible as int),
        on_screen(grid_left_spec(p), visible as int),
        grid_up_spec(p) matches GridMove::Stay(q) ==> on_screen(q, visible as int),
{
    let s: int = p.selected + 3;
    let v: int = visible as int;
    if p.selected + 3 < total && total > visible && s >= p.scroll + v {
        let rows = v / 3;
        let row = s / 3;
        assert(3 * rows <= v && v < 3 * rows + 3 && rows >= 1) by (nonlinear_arith)
            requires rows == v / 3, v >= 3;
        assert(3 * row <= s && s < 3 * row + 3) by (nonlinear_arith)
            requires row == s / 3, s >= 0;
        if row - (rows - 1) > 0 {
            let first = row - (rows - 1);
            assert(first * 3 == 3 * row - 3 * rows + 3) by (nonlinear_arith)
                requires first == row - (rows - 1);
        } else {
            assert(0int * 3 == 0);
        }
    }
    if p.selected >= 3 {
        let u: int = p.selected - 3;
        assert(3 * (u / 3) <= u && u < 3 * (u / 3) + 3) by (nonlinear_arith)
            requires u >= 0;
        assert((u / 3) * 3 == 3 * (u / 3)) by (nonlinear_arith);
    }
}

// ---------------------------------------------------------------------------
// Scrolling the guide and the results
// ---------------------------------------------------------------------------

/// Lines moved by a page of the guide.
pub const GUIDE_PAGE: usize = 10;

/// The guide's scroll position after a key, with `max` the last position
/// (zero while it is not known): a line or a page at a time, kept within
/// `max` when it is known.
pub open spec fn guide_scroll_spec(key: NavKey, scroll: int, max: int) -> int {
    match key {
        NavKey::Up => if scroll > 0 { scroll - 1 } else { 0 },
        NavKey::Down => if max > 0 { if scroll + 1 < max { scroll + 1 } else { max } } else { scroll + 1 },
        NavKey::PageUp => if scroll >= 10 { scroll - 10 } else { 0 },
        NavKey::PageDown => if max > 0 { if scroll + 10 < max { scroll + 10 } else { max } } else { scroll + 10 },
        NavKey::Home => 0,
        NavKey::End => if max > 0 { max } else { 10000 },
        _ => scroll,
    }
}

/// Scrolls the guide.
pub fn guide_scroll(key: NavKey, scroll: usize, max: usize) -> (r: usize)
    requires
        scroll + GUIDE_PAGE <= usize::MAX,
    ensures
        r == guide_scroll_spec(key, scroll as int, max as int),
{
    match key {
        NavKey::Up => if scroll > 0 { scroll - 1 } else { 0 },
        NavKey::Down => if max > 0 { if scroll + 1 < max { scroll + 1 } else { max } } else { scroll + 1 },
        NavKey::PageUp => if scroll >= GUIDE_PAGE { scroll - GUIDE_PAGE } else { 0 },
        NavKey::PageDown => if max > 0 {
            if scroll + GUIDE_PAGE < max { scroll + GUIDE_PAGE } else { max }
        } else {
            scroll + GUIDE_PAGE
        },
        NavKey::Home => 0,
        NavKey::End => if max > 0 { max } else { 10000 },
        _ => scroll,
    }
}

/// The guide's scroll position once its last position is known: at most
/// that position, or the top when there is nothing to scroll.
pub fn clamp_guide_scroll(scroll: usize, max: usize) -> (r: usize)
    ensures
        r == (if max > 0 { if scroll < max { scroll } else { max } } else { 0 }),
{
    if max > 0 {
        if scroll < max { scroll } else { max }
    } else {
        0
    }
}

/// Once the guide's last position is known, scrolling stays within it.
pub proof fn lemma_guide_scroll_bounded(key: NavKey, scroll: int, max: int)
    requires
        max > 0,
        0 <= scroll <= max,
    ensures
        0 <= guide_scroll_spec(key, scroll, max) <= max,
{
}

/// The first result shown after paging the results from the query input
/// (`PageUp` back by a row, `PageDown` on by a row, but no further than
/// the last row of `total` results).
pub open spec fn results_page_spec(up: bool, scroll: int, total: int) -> int {
    if up {
        if scroll >= 3 { scroll - 3 } else { 0 }
    } else {
        let last = if total >= 3 { total - 3 } else { 0 };
        if scroll + 3 < last { scroll + 3 } else { last }
    }
}

/// Pages the results from the query input.
pub fn results_page(up: bool, scroll: usize, total: usize) -> (r: usize)
    requires
        scroll + 3 <= usize::MAX,
    ensures
        r == results_page_spec(up, scroll as int, total as int),
{
    if up {
        if scroll >= 3 { scroll - 3 } else { 0 }
    } else {
        let last = total.saturating_sub(3);
        if scroll + 3 < last { scroll + 3 } else { last }
    }
}

// ---------------------------------------------------------------------------
// Pickers and menus
// ---------------------------------------------------------------------------

/// Entries a picker shows at a time.
pub const PICKER_ROWS: usize = 6;

/// Where the selection is in a picker: the selected entry and the first
/// entry shown.
#[derive(Debug, Clone, Copy, PartialEq, Eq, Structural)]
pub struct PickerPosition {
    pub index: usize,
    pub offset: usize,
}

/// The picker position after `Up` (`up`) or `Down` among `count` entries:
/// one entry at a time, never past the ends, scrolling so that the selected
/// entry stays among the six shown.
pub open spec fn picker_move_spec(up: bool, p: PickerPosition, count: int) -> PickerPosition {
    if up {
        if p.index > 0 {
            let i = p.index - 1;
            PickerPosition { index: i as usize, offset: if i < p.offset { i as usize } else { p.offset } }
        } else {
            p
        }
    } else {
        let last = if count >= 1 { count - 1 } else { 0 };
        if p.index < last {
            let i = p.index + 1;
            PickerPosition { index: i as usize, offset: if i >= p.offset + 6 { (i - 6 + 1) as usize } else { p.offset } }
        } else {
            p
        }
    }
}

/// Moves the selection of a picker of `count` entries.
pub fn picker_move(up: bool, p: PickerPosition, count: usize) -> (r: PickerPosition)
    requires
        p.offset + PICKER_ROWS <= usize::MAX,
    ensures
        r == picker_move_spec(up, p, count as int),
{
    if up {
        if p.index > 0 {
            let i = p.index - 1;
            PickerPosition { index: i, offset: if i < p.offset { i } else { p.offset } }
        } else {
            p
        }
    } else {
        let last = count.saturating_sub(1);
        if p.index < last {
            let i = p.index + 1;
            PickerPosition { index: i, offset: if i >= p.offset + PICKER_ROWS { i - PICKER_ROWS + 1 } else { p.offset } }
        } else {
            p
        }
    }
}

/// A picker's selection stays among its entries and among the six shown.
pub proof fn lemma_picker_keeps_selection_shown(up: bool, p: PickerPosition, count: usize)
    requires
        p.index < count,
        p.offset <= p.index < p.offset + 6,
    ensures
        picker_move_spec(up, p, count as int).index < count,
        picker_move_spec(up, p, count as int).offset <= picker_move_spec(up, p, count as int).index,
        picker_move_spec(up, p, count as int).index < picker_move_spec(up, p, count as int).offset + 6,
{
}

/// The last entry of the settings menu (theme, school, term, sync).
pub const SETTINGS_LAST: usize = 3;

/// The selected settings entry after `Up` (`up`) or `Down`, never past the
/// ends.
pub fn settings_move(up: bool, index: usize) -> (r: usize)
    ensures
        r == (if up { if index > 0 { index - 1 } else { index as int } } else if index < 3 { index + 1 } else { index as int }),
{
    if up {
        if index > 0 { index - 1 } else { index }
    } else if index < SETTINGS_LAST {
        index + 1
    } else {
        index
    }
}

/// The entry after `Up` (`up`) or `Down` in a menu of `count` entries that
/// wraps around at both ends.
pub open spec fn wrap_move_spec(up: bool, index: int, count: int) -> int {
    if up {
        if index > 0 { index - 1 } else { count - 1 }
    } else if index < count - 1 {
        index + 1
    } else {
        0
    }
}

/// Moves through a menu that wraps around.
pub fn wrap_move(up: bool, index: usize, count: usize) -> (r: usize)
    requires
        count > 0,
    ensures
        r == wrap_move_spec(up, index as int, count as int),
{
    if up {
        if index > 0 { index - 1 } else { count - 1 }
    } else if index < count - 1 {
        index + 1
    } else {
        0
    }
}

/// In a wrapping menu, moving down and then up, or up and then down,
/// returns to the entry one started from.
pub proof fn lemma_wrap_moves_undo(index: int, count: int)
    requires
        0 <= index < count,
    ensures
        wrap_move_spec(true, wrap_move_spec(false, index, count), count) == index,
        wrap_move_spec(false, wrap_move_spec(true, index, count), count) == index,
        0 <= wrap_move_spec(true, index, count) < count,
        0 <= wrap_move_spec(false, index, count) < count,
{
}

// ---------------------------------------------------------------------------
// Themes
// ---------------------------------------------------------------------------

/// The place of a palette in the menu of themes.
pub open spec fn palette_index(t: ThemePalette) -> int {
    match t {
        ThemePalette::Default => 0,
        ThemePalette::Dark => 1,
        ThemePalette::Pastel => 2,
        ThemePalette::Blue => 3,
        ThemePalette::Green => 4,
        ThemePalette::Purple => 5,
        ThemePalette::Orange => 6,
        ThemePalette::Red => 7,
        ThemePalette::Monochrome => 8,
        ThemePalette::Cyberpunk => 9,
        ThemePalette::Forest => 10,
        ThemePalette::Ocean => 11,
        ThemePalette::Sunset => 12,
    }
}

/// A palette stands at its place in the menu of themes.
pub proof fn lemma_palette_index(t: ThemePalette)
    ensures
        0 <= palette_index(t) < all_palettes().len(),
        all_palettes()[palette_index(t)] == t,
{
}

/// The theme after `Left` (`forward` false) or `Right` on the theme entry:
/// the previous or next in the menu, wrapping around at both ends.
pub open spec fn theme_step_spec(t: ThemePalette, forward: bool) -> ThemePalette {
    all_palettes()[wrap_move_spec(!forward, palette_index(t), all_palettes().len() as int)]
}

/// Changes the theme with `Left` or `Right`.
pub fn theme_step(current: ThemePalette, forward: bool) -> (r: ThemePalette)
    ensures
        r == theme_step_spec(current, forward),
{
    let themes = ThemePalette::all();
    proof {
        lemma_palettes_listed_once();
        lemma_palette_index(current);
    }
    let mut i: usize = 0;
    let mut found: Option<usize> = None;
    while i < themes.len()
        invariant
            themes@ == all_palettes(),
            i <= themes.len(),
            found is None ==> forall|j: int| 0 <= j < i ==> themes@[j] != current,
            found matches Some(k) ==> k < themes.len() && themes@[k as int] == current,
        decreases themes.len() - i,
    {
        if found.is_none() && themes[i] == current {
            found = Some(i);
        }
        i = i + 1;
    }
    let current_idx = match found {
        Some(k) => k,
        None => 0,
    };
    proof {
        assert(themes@[palette_index(current)] == current);
        assert(current_idx == palette_index(current));
    }
    let new_idx = if forward {
        if current_idx < themes.len() - 1 { current_idx + 1 } else { 0 }
    } else if current_idx > 0 {
        current_idx - 1
    } else {
        themes.len() - 1
    };
    themes[new_idx]
}

/// Stepping the theme forward and then back, or back and then forward,
/// returns to the theme one started from.
pub proof fn lemma_theme_steps_undo(t: ThemePalette)
    ensures
        theme_step_spec(theme_step_spec(t, true), false) == t,
        theme_step_spec(theme_step_spec(t, false), true) == t,
{
    lemma_palette_index(t);
    lemma_palettes_listed_once();
    let n = all_palettes().len() as int;
    let f = wrap_move_spec(false, palette_index(t), n);
    let b = wrap_move_spec(true, palette_index(t), n);
    lemma_wrap_moves_undo(palette_index(t), n);
    lemma_palette_index(all_palettes()[f]);
    lemma_palette_index(all_palettes()[b]);
    assert(palette_index(all_palettes()[f]) == f);
    assert(palette_index(all_palettes()[b]) == b);
}

// ---------------------------------------------------------------------------
// The schedule calendar and the lists of schedules
// ---------------------------------------------------------------------------

/// The last half-hour slot of the calendar (8am to 10:30pm).
pub const LAST_SLOT: usize = 28;

/// The last day of the calendar (Monday is 0, Sunday 6).
pub const LAST_DAY: usize = 6;

/// The calendar cell after an arrow key: `Up` and `Down` move by a time
/// slot, `Left` and `Right` by a day, wrapping around at both ends.
pub open spec fn calendar_move_spec(key: NavKey, day: int, slot: int) -> (int, int) {
    match key {
        NavKey::Up => (day, if slot > 0 { slot - 1 } else { 28 }),
        NavKey::Down => (day, if slot < 28 { slot + 1 } else { 0 }),
        NavKey::Left => (if day > 0 { day - 1 } else { 6 }, slot),
        NavKey::Right => (if day < 6 { day + 1 } else { 0 }, slot),
        _ => (day, slot),
    }
}

/// Moves the selected cell of the calendar.
pub fn calendar_move(key: NavKey, day: usize, slot: usize) -> (r: (usize, usize))
    ensures
        (r.0 as int, r.1 as int) == calendar_move_spec(key, day as int, slot as int),
{
    match key {
        NavKey::Up => (day, if slot > 0 { slot - 1 } else { LAST_SLOT }),
        NavKey::Down => (day, if slot < LAST_SLOT { slot + 1 } else { 0 }),
        NavKey::Left => (if day > 0 { day - 1 } else { LAST_DAY }, slot),
        NavKey::Right => (if day < LAST_DAY { day + 1 } else { 0 }, slot),
        _ => (day, slot),
    }
}

/// On the calendar, the opposite arrow undoes a move, and moves stay
/// within the week and the day's slots.
pub proof fn lemma_calendar_moves_undo(day: int, slot: int)
    requires
        0 <= day <= 6,
        0 <= slot <= 28,
    ensures
        ({
            let (d, s) = calendar_move_spec(NavKey::Down, day, slot);
            calendar_move_spec(NavKey::Up, d, s) == (day, slot)
        }),
        ({
            let (d, s) = calendar_move_spec(NavKey::Up, day, slot);
            calendar_move_spec(NavKey::Down, d, s) == (day, slot)
        }),
        ({
            let (d, s) = calendar_move_spec(NavKey::Right, day, slot);
            calendar_move_spec(NavKey::Left, d, s) == (day, slot)
        }),
        ({
            let (d, s) = calendar_move_spec(NavKey::Left, day, slot);
            calendar_move_spec(NavKey::Right, d, s) == (day, slot)
        }),
        forall|k: NavKey| #![trigger calendar_move_spec(k, day, slot)] {
            let (d, s) = calendar_move_spec(k, day, slot);
            0 <= d <= 6 && 0 <= s <= 28
        },
{
}

/// The schedule shown after `PageUp` (`back`) or `PageDown` among `count`
/// schedules: the previous or next, wrapping around; nothing moves when
/// there are none.
pub open spec fn cycle_spec(back: bool, index: int, count: int) -> int {
    if count == 0 {
        index
    } else if back {
        if index > 0 { index - 1 } else { count - 1 }
    } else if index < count - 1 {
        index + 1
    } else {
        0
    }
}

/// Moves to the previous or next of `count` schedules.
pub fn cycle(back: bool, index: usize, count: usize) -> (r: usize)
    ensures
        r == cycle_spec(back, index as int, count as int),
{
    if count == 0 {
        index
    } else if back {
        if index > 0 { index - 1 } else { count - 1 }
    } else if index < count - 1 {
        index + 1
    } else {
        0
    }
}

/// Cycling back and then forward, or forward and then back, returns to the
/// schedule one started from.
pub proof fn lemma_cycle_undo(index: int, count: int)
    requires
        0 <= index < count,
    ensures
        cycle_spec(true, cycle_spec(false, index, count), count) == index,
        cycle_spec(false, cycle_spec(true, index, count), count) == index,
{
}

/// The selected entry of a list of `count` entries after `Up` (`up`) or
/// `Down`: one entry at a time, never past the ends.
pub open spec fn list_move_spec(up: bool, index: int, count: int) -> int {
    if up {
        if index > 0 { index - 1 } else { index }
    } else {
        let last = if count >= 1 { count - 1 } else { 0 };
        if index < last { index + 1 } else { index }
    }
}

/// Moves the selection of a list of `count` entries.
pub fn list_move(up: bool, index: usize, count: usize) -> (r: usize)
    ensures
        r == list_move_spec(up, index as int, count as int),
{
    if up {
        if index > 0 { index - 1 } else { index }
    } else if index < count.saturating_sub(1) {
        index + 1
    } else {
        index
    }
}

/// The selection after an entry was removed and `count` remain: the last
/// entry when the selection fell off the end, the first when none remain.
pub open spec fn after_removal_spec(index: int, count: int) -> int {
    if index >= count && count > 0 {
        count - 1
    } else if count == 0 {
        0
    } else {
        index
    }
}

/// Keeps the selection on the list after an entry was removed.
pub fn after_removal(index: usize, count: usize) -> (r: usize)
    ensures
        r == after_removal_spec(index as int, count as int),
{
    if index >= count && count > 0 {
        count - 1
    } else if count == 0 {
        0
    } else {
        index
    }
}

/// After a removal the selection is on the list, or at its start when the
/// list is empty; a selection still on the list stays where it was.
pub proof fn lemma_removal_keeps_selection(index: int, count: int)
    requires
        0 <= index,
        0 <= count,
    ensures
        count > 0 ==> 0 <= after_removal_spec(index, count) < count,
        count == 0 ==> after_removal_spec(index, count) == 0,
        index < count ==> after_removal_spec(index, count) == index,
{
}

// ---------------------------------------------------------------------------
// Focus
// ---------------------------------------------------------------------------

/// Where closing the detail view goes: back where it was opened from, but
/// to the schedule view when it was opened over a saved schedule.
pub open spec fn detail_exit_spec(return_to: FocusMode) -> FocusMode {
    if return_to == FocusMode::MySchedules {
        FocusMode::ScheduleCreation
    } else {
        return_to
    }
}

/// The focus after closing the detail view.
pub fn detail_exit(return_to: FocusMode) -> (r: FocusMode)
    ensures
        r == detail_exit_spec(return_to),
{
    if return_to == FocusMode::MySchedules {
        FocusMode::ScheduleCreation
    } else {
        return_to
    }
}

/// Whether going to the schedule view starts a new schedule from the
/// cart: only with classes in the cart, and not when coming back from the
/// detail view, the save prompt or the saved schedules.
pub fn enters_creation_mode(from: FocusMode, cart_empty: bool) -> (r: bool)
    ensures
        r == (from != FocusMode::DetailView && from != FocusMode::SaveNameInput
            && from != FocusMode::MySchedules && !cart_empty),
{
    from != FocusMode::DetailView && from != FocusMode::SaveNameInput && from != FocusMode::MySchedules
        && !cart_empty
}

// ---------------------------------------------------------------------------
// Timers
// ---------------------------------------------------------------------------

/// A notice disappears once it has been shown for more than three seconds.
pub fn toast_expired(elapsed_nanos: u128) -> (r: bool)
    ensures
        r == (elapsed_nanos > 3_000_000_000),
{
    elapsed_nanos > 3_000_000_000
}

/// A cursor blinks when more than half a second has passed since it last
/// did.
pub fn cursor_blinks(elapsed_nanos: u128) -> (r: bool)
    ensures
        r == (elapsed_nanos > 500_000_000),
{
    elapsed_nanos > 500_000_000
}

// ---------------------------------------------------------------------------
// Completing the query
// ---------------------------------------------------------------------------

/// The characters after the last white space of `s` (all of `s` when it
/// has none).
pub open spec fn trailing_word(s: Seq<char>) -> Seq<char>
    decreases s.len(),
{
    if s.len() == 0 || is_ws(s.last()) {
        Seq::empty()
    } else {
        trailing_word(s.drop_last()).push(s.last())
    }
}

/// The last word of `s` (std's `split_whitespace().last()`, empty when
/// there is none).
pub open spec fn last_word(s: Seq<char>) -> Seq<char> {
    trailing_word(crate::text::trim_end(s))
}

/// The last word of the characters.
fn last_word_chars(v: &Vec<char>) -> (r: Vec<char>)
    ensures
        r@ == last_word(v@),
{
    let mut end: usize = v.len();
    assert(v@.subrange(0, end as int) =~= v@);
    while end > 0 && char_is_ws(v[end - 1])
        invariant
            end <= v.len(),
            crate::text::trim_end(v@) == crate::text::trim_end(v@.subrange(0, end as int)),
        decreases end,
    {
        proof {
            let t = v@.subrange(0, end as int);
            assert(t.drop_last() =~= v@.subrange(0, end - 1));
        }
        end = end - 1;
    }
    let ghost t = v@.subrange(0, end as int);
    assert(crate::text::trim_end(t) == t);
    let mut start: usize = end;
    while start > 0 && !char_is_ws(v[start - 1])
        invariant
            start <= end <= v.len(),
            t == v@.subrange(0, end as int),
            trailing_word(t) == trailing_word(v@.subrange(0, start as int)) + v@.subrange(start as int, end as int),
        decreases start,
    {
        proof {
            let u = v@.subrange(0, start as int);
            assert(u.drop_last() =~= v@.subrange(0, start - 1));
            assert(u.last() == v@[start - 1]);
            assert(trailing_word(u) == trailing_word(v@.subrange(0, start - 1)).push(v@[start - 1]));
            assert(trailing_word(v@.subrange(0, start - 1)).push(v@[start - 1]) + v@.subrange(start as int, end as int)
                =~= trailing_word(v@.subrange(0, start - 1)) + v@.subrange(start - 1, end as int));
        }
        start = start - 1;
    }
    assert(trailing_word(v@.subrange(0, start as int)) =~= Seq::<char>::empty());
    let mut r: Vec<char> = Vec::new();
    let mut i: usize = start;
    while i < end
        invariant
            start <= i <= end <= v.len(),
            r@ == v@.subrange(start as int, i as int),
        decreases end - i,
    {
        r.push(v[i]);
        i = i + 1;
        assert(r@ =~= v@.subrange(start as int, i as int));
    }
    assert(trailing_word(t) =~= r@);
    r
}

/// The word being completed: the last word, in lower case, when the input
/// does not end in a space; nothing otherwise.
pub open spec fn partial_word_spec(input: Seq<char>) -> Seq<char> {
    if input.len() > 0 && input.last() != ' ' {
        str_lower(last_word(input))
    } else {
        Seq::empty()
    }
}

/// The word being completed.
pub fn partial_word(input: &str) -> (r: String)
    ensures
        r@ == partial_word_spec(input@),
{
    let chars = chars_of(input);
    if chars.len() > 0 && chars[chars.len() - 1] != ' ' {
        let w = string_of(&last_word_chars(&chars));
        to_lower(w.as_str())
    } else {
        String::new()
    }
}

/// The suggestions whose lower-case form begins with `p`, in order.
pub open spec fn keep_prefixed(s: Seq<Seq<char>>, p: Seq<char>) -> Seq<Seq<char>>
    decreases s.len(),
{
    if s.len() == 0 {
        Seq::empty()
    } else {
        let r = keep_prefixed(s.drop_last(), p);
        if starts_with(str_lower(s.last()), p) {
            r.push(s.last())
        } else {
            r
        }
    }
}

/// The word to replace and the completions to offer: the suggestions
/// that begin with the partial word, when there are such; otherwise every
/// suggestion, replacing nothing (the partial word is then a whole value).
pub open spec fn offered_spec(suggestions: Seq<Seq<char>>, partial: Seq<char>) -> (Seq<char>, Seq<Seq<char>>) {
    if partial.len() > 0 && keep_prefixed(suggestions, partial).len() > 0 {
        (partial, keep_prefixed(suggestions, partial))
    } else {
        (Seq::empty(), suggestions)
    }
}

/// The suggestions that begin with `p`.
fn prefixed(suggestions: &Vec<String>, p: &str) -> (r: Vec<String>)
    ensures
        r.deep_view() == keep_prefixed(suggestions.deep_view(), p@),
{
    let pc = chars_of(p);
    let mut r: Vec<String> = Vec::new();
    let mut i: usize = 0;
    while i < suggestions.len()
        invariant
            i <= suggestions.len(),
            pc@ == p@,
            r.deep_view() == keep_prefixed(suggestions.deep_view().subrange(0, i as int), p@),
        decreases suggestions.len() - i,
    {
        let lower = to_lower(suggestions[i].as_str());
        let lc = chars_of(lower.as_str());
        let ghost before = r.deep_view();
        proof {
            let sub = suggestions.deep_view().subrange(0, i + 1);
            assert(sub.drop_last() =~= suggestions.deep_view().subrange(0, i as int));
            assert(sub.last() == suggestions[i as int]@);
        }
        if starts_with_chars(&lc, &pc) {
            r.push(suggestions[i].clone());
            assert(r.deep_view() =~= before.push(suggestions[i as int]@));
        }
        i = i + 1;
    }
    assert(suggestions.deep_view().subrange(0, i as int) =~= suggestions.deep_view());
    r
}

/// The hint shown when nothing can be offered, by the last word typed.
pub open spec fn hint_spec(word: Seq<char>) -> Seq<char> {
    if word == "contains"@ || word == "is"@ || word == "equals"@ || word == "has"@ {
        "Enter a value in quotes, e.g. \"Computer Science\""@
    } else if word == "="@ || word == "!="@ {
        "Enter a value, e.g. \"CS\" or 101"@
    } else if word == "<"@ || word == ">"@ || word == "<="@ || word == ">="@ {
        "Enter a number, e.g. 3 or 100"@
    } else if word == "with"@ {
        "Enter a value in quotes, e.g. \"Intro\""@
    } else if word == "hours"@ {
        "Enter an operator (=, <, >, etc.) then a number"@
    } else if word == "type"@ {
        "Enter a condition (is, equals, contains) then a value"@
    } else {
        Seq::empty()
    }
}

/// A hint for what to type after the input's last word (empty when there
/// is none).
pub fn completion_hint(input: &str) -> (r: String)
    ensures
        r@ == hint_spec(str_lower(last_word(input@))),
{
    let chars = chars_of(input);
    let w = to_lower(string_of(&last_word_chars(&chars)).as_str());
    let w = w.as_str();
    if str_eq(w, "contains") || str_eq(w, "is") || str_eq(w, "equals") || str_eq(w, "has") {
        "Enter a value in quotes, e.g. \"Computer Science\"".to_string()
    } else if str_eq(w, "=") || str_eq(w, "!=") {
        "Enter a value, e.g. \"CS\" or 101".to_string()
    } else if str_eq(w, "<") || str_eq(w, ">") || str_eq(w, "<=") || str_eq(w, ">=") {
        "Enter a number, e.g. 3 or 100".to_string()
    } else if str_eq(w, "with") {
        "Enter a value in quotes, e.g. \"Intro\"".to_string()
    } else if str_eq(w, "hours") {
        "Enter an operator (=, <, >, etc.) then a number".to_string()
    } else if str_eq(w, "type") {
        "Enter a condition (is, equals, contains) then a value".to_string()
    } else {
        String::new()
    }
}

/// What pressing Tab in the query input gives.
pub struct TabResult {
    /// The word a chosen completion replaces (empty: none).
    pub partial_word: String,
    /// The completions offered.
    pub completions: Vec<String>,
    /// A hint to show instead, when nothing is offered.
    pub hint: Option<String>,
}

/// What pressing Tab gives for the input, given the suggestions for it:
/// the completions on offer, or, when there are none and the input is not
/// blank, the hint for its last word (if there is one).
pub open spec fn tab_result_spec(input: Seq<char>, suggestions: Seq<Seq<char>>) -> (Seq<char>, Seq<Seq<char>>, Option<Seq<char>>) {
    let (p, c) = offered_spec(suggestions, partial_word_spec(input));
    let h = hint_spec(str_lower(last_word(input)));
    (p, c, if c.len() == 0 && trim(input).len() > 0 && h.len() > 0 { Some(h) } else { None })
}

/// The value of a Tab result.
pub open spec fn tab_view(r: TabResult) -> (Seq<char>, Seq<Seq<char>>, Option<Seq<char>>) {
    (r.partial_word@, r.completions.deep_view(), match r.hint { Some(h) => Some(h@), None => None })
}

/// Pressing Tab, given the suggestions for the input.
pub fn tab_result(input: &str, suggestions: Vec<String>) -> (r: TabResult)
    ensures
        tab_view(r) == tab_result_spec(input@, suggestions.deep_view()),
{
    let partial = partial_word(input);
    let matching = if partial.as_str().unicode_len() > 0 {
        prefixed(&suggestions, partial.as_str())
    } else {
        Vec::new()
    };
    let (partial_word, completions) = if partial.as_str().unicode_len() > 0 && matching.len() > 0 {
        (partial, matching)
    } else {
        (String::new(), suggestions)
    };
    let hint = if completions.len() == 0 && trim_chars(&chars_of(input)).len() > 0 {
        let h = completion_hint(input);
        if h.as_str().unicode_len() > 0 { Some(h) } else { None }
    } else {
        None
    };
    TabResult { partial_word, completions, hint }
}

/// Pressing Tab in the query input: the compiler's suggestions for the
/// input, offered as `tab_result` offers them; `None` where the compiler
/// cannot complete the input.
pub fn complete_query(compiler: &mut Compiler, input: &str) -> (r: Option<TabResult>)
    ensures
        r is None <==> tab_completions(input@) is None,
        r matches Some(t) ==> tab_view(t) == tab_result_spec(input@, tab_completions(input@).unwrap()),
{
    match compiler.try_get_tab_completion(input.to_string()) {
        None => None,
        Some(suggestions) => Some(tab_result(input, suggestions)),
    }
}

/// The selected completion after `Up` (`up`) or `Down`/`Tab` among
/// `count`: `Up` stops at the first, `Down` wraps around to it.
pub open spec fn completion_move_spec(up: bool, index: Option<usize>, count: int) -> Option<usize> {
    match index {
        None => None,
        Some(i) => if up {
            if i > 0 { Some((i - 1) as usize) } else { Some(i) }
        } else if i < count - 1 {
            Some((i + 1) as usize)
        } else {
            Some(0)
        },
    }
}

/// Moves through the completions on offer.
pub fn completion_move(up: bool, index: Option<usize>, count: usize) -> (r: Option<usize>)
    requires
        index is Some ==> count > 0,
    ensures
        r == completion_move_spec(up, index, count as int),
{
    match index {
        None => None,
        Some(i) => if up {
            if i > 0 { Some(i - 1) } else { Some(i) }
        } else if i < count - 1 {
            Some(i + 1)
        } else {
            Some(0)
        },
    }
}

/// The byte length of the input once the partial word is cut from it.
pub open spec fn cut_point(input: Seq<char>, partial: Seq<char>) -> int {
    let n = utf8_of(input).len() - utf8_of(partial).len();
    if n > 0 { n } else { 0 }
}

/// Whether a completion replaces the partial word: it begins with it, in
/// lower case.
pub open spec fn replaces_partial(partial: Seq<char>, completion: Seq<char>) -> bool {
    partial.len() > 0 && starts_with(str_lower(completion), partial)
}

/// The input after choosing a completion. A placeholder (`<...>`) leaves
/// it unchanged. Otherwise the partial word is cut off when the completion
/// begins with it, or else a space is added after a word; then the
/// completion follows, and a space unless it opens a quotation.
pub open spec fn insert_completion_spec(input: Seq<char>, partial: Seq<char>, completion: Seq<char>) -> Seq<char> {
    if completion.len() > 0 && completion[0] == '<' {
        input
    } else {
        let base = if replaces_partial(partial, completion) {
            span_text(input, 0, cut_point(input, partial))
        } else if input.len() > 0 && input.last() != ' ' {
            input.push(' ')
        } else {
            input
        };
        base + completion + (if completion.len() > 0 && completion[0] == '"' { Seq::empty() } else { seq![' '] })
    }
}

/// Cutting the partial word off must leave whole characters.
pub open spec fn insert_completion_defined(input: Seq<char>, partial: Seq<char>, completion: Seq<char>) -> bool {
    (completion.len() > 0 && completion[0] == '<') || !replaces_partial(partial, completion)
        || span_ok(input, 0, cut_point(input, partial))
}

/// Chooses a completion.
pub fn insert_completion(input: &str, partial: &str, completion: &str) -> (r: String)
    requires
        insert_completion_defined(input@, partial@, completion@),
    ensures
        r@ == insert_completion_spec(input@, partial@, completion@),
{
    let cc = chars_of(completion);
    if cc.len() > 0 && cc[0] == '<' {
        return input.to_string();
    }
    let pc = chars_of(partial);
    let lower = chars_of(to_lower(completion).as_str());
    let mut base = if pc.len() > 0 && starts_with_chars(&lower, &pc) {
        proof {
            assert(input.spec_bytes() == utf8_of(input@));
            assert(partial.spec_bytes() == utf8_of(partial@));
        }
        let n = input.as_bytes().len().saturating_sub(partial.as_bytes().len());
        assert(n == cut_point(input@, partial@));
        span_string(input, 0, n)
    } else {
        let ic = chars_of(input);
        let mut b = input.to_string();
        if ic.len() > 0 && ic[ic.len() - 1] != ' ' {
            string_push(&mut b, ' ');
        }
        b
    };
    base.append(completion);
    if !(cc.len() > 0 && cc[0] == '"') {
        string_push(&mut base, ' ');
    }
    proof {
        assert(seq![' '] =~= Seq::<char>::empty().push(' '));
    }
    base
}

/// Chooses a completion when cutting the partial word off leaves whole
/// characters; `None` otherwise, with the input left as it is.
pub fn try_insert_completion(input: &str, partial: &str, completion: &str) -> (r: Option<String>)
    ensures
        r is None <==> !insert_completion_defined(input@, partial@, completion@),
        r matches Some(s) ==> s@ == insert_completion_spec(input@, partial@, completion@),
{
    let cc = chars_of(completion);
    let placeholder = cc.len() > 0 && cc[0] == '<';
    let pc = chars_of(partial);
    let lower = chars_of(to_lower(completion).as_str());
    let replaces = pc.len() > 0 && starts_with_chars(&lower, &pc);
    proof {
        assert(input.spec_bytes() == utf8_of(input@));
        assert(partial.spec_bytes() == utf8_of(partial@));
    }
    let n = input.as_bytes().len().saturating_sub(partial.as_bytes().len());
    assert(n == cut_point(input@, partial@));
    if placeholder || !replaces || span_fits(input, 0, n) {
        Some(insert_completion(input, partial, completion))
    } else {
        None
    }
}

// ---------------------------------------------------------------------------
// Naming a schedule to save
// ---------------------------------------------------------------------------

/// A key while typing text.
#[derive(Debug, Clone, Copy, PartialEq, Eq, Structural)]
pub enum EditKey {
    Char(char),
    Backspace,
    Enter,
    Esc,
    Other,
}

/// What a key does while a schedule is being named.
#[derive(Debug, Clone, PartialEq, Eq)]
pub enum SaveNameStep {
    /// `Ctrl+C`: leave the program.
    Exit,
    /// `Esc`: the name is cleared and the schedule view returns.
    Cancel,
    /// `Enter` with a blank name: the user is told that it cannot be empty.
    EmptyName,
    /// `Enter`: save the schedule under this name (the typed name trimmed).
    Save(String),
    /// The name was edited, or the key does nothing.
    Continue,
}

/// The value of a step.
pub ghost enum SaveNameStepV {
    Exit,
    Cancel,
    EmptyName,
    Save(Seq<char>),
    Continue,
}

/// The value of a step.
pub open spec fn save_step_view(s: SaveNameStep) -> SaveNameStepV {
    match s {
        SaveNameStep::Exit => SaveNameStepV::Exit,
        SaveNameStep::Cancel => SaveNameStepV::Cancel,
        SaveNameStep::EmptyName => SaveNameStepV::EmptyName,
        SaveNameStep::Save(n) => SaveNameStepV::Save(n@),
        SaveNameStep::Continue => SaveNameStepV::Continue,
    }
}

/// The step and the typed name after a key: `Ctrl+C` leaves; `Esc` clears
/// the name and cancels; `Enter` saves under the trimmed name, unless it is
/// blank; `Backspace` removes the last character and a character is
/// appended.
pub open spec fn save_name_spec(name: Seq<char>, key: EditKey, ctrl: bool) -> (SaveNameStepV, Seq<char>) {
    match key {
        EditKey::Char(c) => if c == 'c' && ctrl {
            (SaveNameStepV::Exit, name)
        } else {
            (SaveNameStepV::Continue, name.push(c))
        },
        EditKey::Esc => (SaveNameStepV::Cancel, Seq::empty()),
        EditKey::Enter => if trim(name).len() == 0 {
            (SaveNameStepV::EmptyName, name)
        } else {
            (SaveNameStepV::Save(trim(name)), name)
        },
        EditKey::Backspace => (SaveNameStepV::Continue, if name.len() > 0 { name.drop_last() } else { name }),
        EditKey::Other => (SaveNameStepV::Continue, name),
    }
}

/// The characters but the last.
pub(crate) fn without_last(s: &String) -> (r: String)
    ensures
        r@ == (if s@.len() > 0 { s@.drop_last() } else { s@ }),
{
    let mut cs = chars_of(s.as_str());
    if cs.len() > 0 {
        cs.pop();
    }
    string_of(&cs)
}

/// Handles a key while a schedule is being named.
pub fn save_name_key(name: &mut String, key: EditKey, ctrl: bool) -> (r: SaveNameStep)
    ensures
        (save_step_view(r), final(name)@) == save_name_spec(old(name)@, key, ctrl),
{
    match key {
        EditKey::Char(c) => {
            if c == 'c' && ctrl {
                return SaveNameStep::Exit;
            }
            string_push(name, c);
            SaveNameStep::Continue
        },
        EditKey::Esc => {
            *name = String::new();
            SaveNameStep::Cancel
        },
        EditKey::Enter => {
            let t = string_of(&trim_chars(&chars_of(name.as_str())));
            if t.as_str().unicode_len() == 0 {
                SaveNameStep::EmptyName
            } else {
                SaveNameStep::Save(t)
            }
        },
        EditKey::Backspace => {
            *name = without_last(name);
            SaveNameStep::Continue
        },
        EditKey::Other => SaveNameStep::Continue,
    }
}

// ---------------------------------------------------------------------------
// What the screen shows
// ---------------------------------------------------------------------------

/// Whether the character at index `i` of the input lies in one of the
/// problem ranges (and is shown in red).
pub open spec fn in_ranges(i: int, ranges: Seq<(usize, usize)>) -> bool {
    exists|k: int| #![trigger ranges[k]] 0 <= k < ranges.len() && ranges[k].0 <= i < ranges[k].1
}

/// Whether the character at index `i` is highlighted.
pub fn is_problematic(i: usize, ranges: &Vec<(usize, usize)>) -> (r: bool)
    ensures
        r == in_ranges(i as int, ranges@),
{
    let mut k: usize = 0;
    while k < ranges.len()
        invariant
            k <= ranges.len(),
            forall|j: int| #![trigger ranges@[j]] 0 <= j < k ==> !(ranges@[j].0 <= i < ranges@[j].1),
        decreases ranges.len() - k,
    {
        let (start, end) = ranges[k];
        if start <= i && i < end {
            return true;
        }
        k = k + 1;
    }
    false
}

/// Which characters of the input are highlighted, in order.
pub fn highlighted(input: &str, ranges: &Vec<(usize, usize)>) -> (r: Vec<bool>)
    ensures
        r@.len() == input@.len(),
        forall|i: int| 0 <= i < r@.len() ==> r@[i] == in_ranges(i, ranges@),
{
    let n = chars_of(input).len();
    let mut r: Vec<bool> = Vec::new();
    let mut i: usize = 0;
    while i < n
        invariant
            i <= n,
            n == input@.len(),
            r@.len() == i,
            forall|j: int| 0 <= j < i ==> r@[j] == in_ranges(j, ranges@),
        decreases n - i,
    {
        r.push(is_problematic(i, ranges));
        i = i + 1;
    }
    r
}

/// The help line under the search bar: none while a notice is shown; an
/// example query while the input is empty; how to search otherwise.
pub fn search_help(input: &str, notice_shown: bool) -> (r: Option<&'static str>)
    ensures
        notice_shown ==> r is None,
        !notice_shown && input@.len() == 0 ==> r == Some("Type a ClassQL query (e.g., 'prof is Alan')"),
        !notice_shown && input@.len() > 0 ==> r == Some("Press Enter to Search, Esc to Exit"),
{
    if notice_shown {
        None
    } else if input.unicode_len() == 0 {
        Some("Type a ClassQL query (e.g., 'prof is Alan')")
    } else {
        Some("Press Enter to Search, Esc to Exit")
    }
}

/// The height of a notice of `lines` lines: its lines and a border, at
/// most ten rows (the count is taken as a 16-bit number).
pub fn notice_height(lines: usize) -> (r: u16)
    requires
        (lines as u16) + 2 <= u16::MAX,
    ensures
        r == (if (lines as u16) + 2 < 10 { (lines as u16) + 2 } else { 10 }),
{
    let h = lines as u16 + 2;
    if h < 10 { h } else { 10 }
}

/// A rectangle of the screen: column, row, width and height.
#[derive(Debug, Clone, Copy, PartialEq, Eq, Structural)]
pub struct Area {
    pub x: u16,
    pub y: u16,
    pub width: u16,
    pub height: u16,
}

/// `a - b`, or zero when `b` is larger.
pub open spec fn sat_sub(a: int, b: int) -> int {
    if a > b { a - b } else { 0 }
}

/// Where the list of saved schedules is drawn on a `w` by `h` screen: up to
/// 50 columns (leaving two on each side) and 15 rows (leaving 20),
/// centred, from row 13.
pub fn saved_list_area(w: u16, h: u16) -> (r: Area)
    ensures
        r.width == (if 50 < sat_sub(w as int, 4) { 50 } else { sat_sub(w as int, 4) }),
        r.height == (if 15 < sat_sub(h as int, 20) { 15 } else { sat_sub(h as int, 20) }),
        r.x == sat_sub(w as int, r.width as int) / 2,
        r.y == 13,
{
    let width = if 50 < w.saturating_sub(4) { 50 } else { w.saturating_sub(4) };
    let height = if 15 < h.saturating_sub(20) { 15 } else { h.saturating_sub(20) };
    Area { x: w.saturating_sub(width) / 2, y: 13, width, height }
}

/// Where the prompt for a schedule's name is drawn on a `w` by `h`
/// screen: 40 by 5, centred.
pub fn save_prompt_area(w: u16, h: u16) -> (r: Area)
    ensures
        r == (Area { x: (sat_sub(w as int, 40) / 2) as u16, y: (sat_sub(h as int, 5) / 2) as u16, width: 40, height: 5 }),
{
    Area { x: w.saturating_sub(40) / 2, y: h.saturating_sub(5) / 2, width: 40, height: 5 }
}

/// The list of saved schedules lies within the screen's width.
pub proof fn lemma_saved_list_fits(w: u16, h: u16, r: Area)
    requires
        r.width == (if 50 < sat_sub(w as int, 4) { 50 } else { sat_sub(w as int, 4) }),
        r.x == sat_sub(w as int, r.width as int) / 2,
    ensures
        r.x + r.width <= w,
{
}

/// The lines of the list of saved schedules: each name after a marker,
/// `▸ ` for the selected one; a note when there are none.
pub open spec fn saved_lines_spec(names: Seq<Seq<char>>, selected: int) -> Seq<Seq<char>> {
    if names.len() == 0 {
        seq!["No saved schedules yet."@]
    } else {
        Seq::new(names.len(), |i: int| (if i == selected { "\u{25b8} "@ } else { "  "@ }) + names[i])
    }
}

/// The lines of the list of saved schedules.
pub fn saved_lines(names: &Vec<String>, selected: usize) -> (r: Vec<String>)
    ensures
        r.deep_view() == saved_lines_spec(names.deep_view(), selected as int),
{
    let mut r: Vec<String> = Vec::new();
    if names.len() == 0 {
        r.push("No saved schedules yet.".to_string());
        assert(r.deep_view() =~= seq!["No saved schedules yet."@]);
        return r;
    }
    let mut i: usize = 0;
    while i < names.len()
        invariant
            i <= names.len(),
            names.len() > 0,
            r.deep_view() =~= Seq::new(i as nat, |j: int| (if j == selected { "\u{25b8} "@ } else { "  "@ }) + names.deep_view()[j]),
        decreases names.len() - i,
    {
        let mut line = if i == selected { "\u{25b8} ".to_string() } else { "  ".to_string() };
        line.append(names[i].as_str());
        let ghost before = r.deep_view();
        r.push(line);
        proof {
            assert(names.deep_view()[i as int] == names[i as int]@);
            assert(r.deep_view() =~= before.push(line@));
        }
        i = i + 1;
    }
    r
}

// ---------------------------------------------------------------------------
// Keys in the detail view, the saved schedules and the settings
// ---------------------------------------------------------------------------

/// A key of the keyboard.
#[derive(Debug, Clone, Copy, PartialEq, Eq, Structural)]
pub enum UiKey {
    Char(char),
    Enter,
    Esc,
    Backspace,
    Tab,
    Up,
    Down,
    Left,
    Right,
    PageUp,
    PageDown,
    Home,
    End,
    Other,
}

/// A key with the modifiers held.
#[derive(Debug, Clone, Copy, PartialEq, Eq, Structural)]
pub struct KeyPress {
    pub key: UiKey,
    pub ctrl: bool,
    pub alt: bool,
}

/// What a key does in the detail view of a class.
#[derive(Debug, Clone, Copy, PartialEq, Eq, Structural)]
pub enum DetailStep {
    /// Close the view and go to this focus.
    Navigate(FocusMode),
    /// Open the query guide over the view.
    OpenGuide,
    /// Add the class to the cart, or take it out.
    ToggleCart,
    Continue,
}

/// `Esc`, `Backspace` and `Enter` close the detail view; `Alt+G` opens the
/// guide; `C` toggles the class in the cart, except over a schedule being
/// built.
pub open spec fn detail_key_spec(k: KeyPress, return_to: FocusMode) -> DetailStep {
    match k.key {
        UiKey::Esc | UiKey::Backspace | UiKey::Enter => DetailStep::Navigate(detail_exit_spec(return_to)),
        UiKey::Char(c) => if (c == 'g' || c == 'G') && k.alt {
            DetailStep::OpenGuide
        } else if c == 'c' || c == 'C' {
            if return_to != FocusMode::ScheduleCreation { DetailStep::ToggleCart } else { DetailStep::Continue }
        } else {
            DetailStep::Continue
        },
        _ => DetailStep::Continue,
    }
}

/// Handles a key in the detail view, opened from `return_to`.
pub fn detail_view_key(k: KeyPress, return_to: FocusMode) -> (r: DetailStep)
    ensures
        r == detail_key_spec(k, return_to),
{
    match k.key {
        UiKey::Esc | UiKey::Backspace | UiKey::Enter => DetailStep::Navigate(detail_exit(return_to)),
        UiKey::Char(c) => if (c == 'g' || c == 'G') && k.alt {
            DetailStep::OpenGuide
        } else if c == 'c' || c == 'C' {
            if return_to != FocusMode::ScheduleCreation { DetailStep::ToggleCart } else { DetailStep::Continue }
        } else {
            DetailStep::Continue
        },
        _ => DetailStep::Continue,
    }
}

/// What a key does in the list of saved schedules.
#[derive(Debug, Clone, Copy, PartialEq, Eq, Structural)]
pub enum ListStep {
    Exit,
    Navigate(FocusMode),
    /// The selection moved to this entry.
    Moved(usize),
    /// Show this saved schedule in the schedule view.
    Open(usize),
    /// Delete this saved schedule.
    Delete(usize),
    Continue,
}

/// `Ctrl+C` leaves; `Esc` returns to the main menu; `Up` and `Down` move
/// the selection; `Enter` opens and `D` deletes the selected schedule when
/// there is one.
pub open spec fn saved_list_key_spec(k: KeyPress, index: int, count: int) -> ListStep {
    match k.key {
        UiKey::Char(c) => if c == 'c' && k.ctrl {
            ListStep::Exit
        } else if (c == 'd' || c == 'D') && index < count {
            ListStep::Delete(index as usize)
        } else {
            ListStep::Continue
        },
        UiKey::Esc => ListStep::Navigate(FocusMode::MainMenu),
        UiKey::Up => ListStep::Moved(list_move_spec(true, index, count) as usize),
        UiKey::Down => ListStep::Moved(list_move_spec(false, index, count) as usize),
        UiKey::Enter => if index < count { ListStep::Open(index as usize) } else { ListStep::Continue },
        _ => ListStep::Continue,
    }
}

/// Handles a key in the list of `count` saved schedules, `index` selected.
pub fn saved_list_key(k: KeyPress, index: usize, count: usize) -> (r: ListStep)
    ensures
        r == saved_list_key_spec(k, index as int, count as int),
{
    match k.key {
        UiKey::Char(c) => if c == 'c' && k.ctrl {
            ListStep::Exit
        } else if (c == 'd' || c == 'D') && index < count {
            ListStep::Delete(index)
        } else {
            ListStep::Continue
        },
        UiKey::Esc => ListStep::Navigate(FocusMode::MainMenu),
        UiKey::Up => ListStep::Moved(list_move(true, index, count)),
        UiKey::Down => ListStep::Moved(list_move(false, index, count)),
        UiKey::Enter => if index < count { ListStep::Open(index) } else { ListStep::Continue },
        _ => ListStep::Continue,
    }
}

/// What `Enter` does in the settings.
#[derive(Debug, Clone, PartialEq, Eq)]
pub enum SettingsStep {
    /// Select this school (and forget the term), telling the user so.
    SelectSchool { id: String, notice: String },
    /// Select this term, telling the user so.
    SelectTerm { id: String, notice: String },
    /// Open the school picker at this entry.
    OpenSchoolPicker(usize),
    /// Open the term picker at this entry.
    OpenTermPicker(usize),
    /// Close the open picker; nothing is selected.
    ClosePicker,
    /// Tell the user something.
    Notice(String, ErrorType),
    /// Start synchronising the course data.
    Sync,
    Nothing,
}

/// The value of a settings step.
pub ghost enum SettingsStepV {
    SelectSchool { id: Seq<char>, notice: Seq<char> },
    SelectTerm { id: Seq<char>, notice: Seq<char> },
    OpenSchoolPicker(int),
    OpenTermPicker(int),
    ClosePicker,
    Notice(Seq<char>, ErrorType),
    Sync,
    Nothing,
}

/// The value of a settings step.
pub open spec fn settings_step_view(s: SettingsStep) -> SettingsStepV {
    match s {
        SettingsStep::SelectSchool { id, notice } => SettingsStepV::SelectSchool { id: id@, notice: notice@ },
        SettingsStep::SelectTerm { id, notice } => SettingsStepV::SelectTerm { id: id@, notice: notice@ },
        SettingsStep::OpenSchoolPicker(i) => SettingsStepV::OpenSchoolPicker(i as int),
        SettingsStep::OpenTermPicker(i) => SettingsStepV::OpenTermPicker(i as int),
        SettingsStep::ClosePicker => SettingsStepV::ClosePicker,
        SettingsStep::Notice(m, t) => SettingsStepV::Notice(m@, t),
        SettingsStep::Sync => SettingsStepV::Sync,
        SettingsStep::Nothing => SettingsStepV::Nothing,
    }
}

/// The place of the first entry with identifier `id`, or the first place
/// when there is none.
pub open spec fn place_of(ids: Seq<Seq<char>>, id: Seq<char>) -> int
    decreases ids.len(),
{
    if ids.len() == 0 {
        0
    } else if ids[0] == id {
        0
    } else {
        let rest = place_of(ids.drop_first(), id);
        if ids.drop_first().contains(id) { rest + 1 } else { 0 }
    }
}

/// A picker opens at the first entry of the selected identifier when it is
/// listed, and at the first entry otherwise.
pub proof fn lemma_place_of(ids: Seq<Seq<char>>, id: Seq<char>)
    ensures
        ids.contains(id) ==> 0 <= place_of(ids, id) < ids.len() && ids[place_of(ids, id)] == id
            && forall|j: int| 0 <= j < place_of(ids, id) ==> ids[j] != id,
        !ids.contains(id) ==> place_of(ids, id) == 0,
    decreases ids.len(),
{
    if ids.len() > 0 && ids[0] != id {
        lemma_place_of(ids.drop_first(), id);
        if ids.contains(id) {
            let k = choose|k: int| 0 <= k < ids.len() && ids[k] == id;
            assert(ids.drop_first()[k - 1] == id);
        }
        if ids.drop_first().contains(id) {
            let k = choose|k: int| 0 <= k < ids.drop_first().len() && ids.drop_first()[k] == id;
            assert(ids[k + 1] == id);
            assert forall|j: int| 0 <= j < place_of(ids, id) implies ids[j] != id by {
                if j > 0 {
                    assert(ids[j] == ids.drop_first()[j - 1]);
                }
            }
        }
    } else if ids.len() > 0 {
        assert(ids[0] == id);
    }
}

/// The identifiers of the schools.
pub open spec fn school_ids(v: Seq<School>) -> Seq<Seq<char>> {
    Seq::new(v.len(), |i: int| v[i].id@)
}

/// The identifiers of the terms.
pub open spec fn term_ids(v: Seq<Term>) -> Seq<Seq<char>> {
    Seq::new(v.len(), |i: int| v[i].id@)
}

/// What the settings look like when `Enter` is pressed.
pub struct SettingsView<'a> {
    /// The selected entry: theme, school, term, sync.
    pub entry: usize,
    pub school_picker_open: bool,
    pub term_picker_open: bool,
    pub schools: &'a Vec<School>,
    pub terms: &'a Vec<Term>,
    pub school_index: usize,
    pub term_index: usize,
    pub school_id: &'a Option<String>,
    pub term_id: &'a Option<String>,
    pub syncing: bool,
}

/// `Enter` on the school entry selects the school under the cursor of an
/// open picker, or opens the picker (at the selected school) when there
/// are schools; on the term entry likewise for terms, once a school is
/// selected; on the sync entry it starts synchronising unless that is
/// under way.
pub open spec fn settings_enter_spec(v: SettingsView) -> SettingsStepV {
    if v.entry == 1 {
        if v.school_picker_open {
            if v.school_index < v.schools@.len() {
                SettingsStepV::SelectSchool {
                    id: v.schools@[v.school_index as int].id@,
                    notice: "Selected: "@ + v.schools@[v.school_index as int].name@,
                }
            } else {
                SettingsStepV::ClosePicker
            }
        } else if v.schools@.len() > 0 {
            SettingsStepV::OpenSchoolPicker(match v.school_id {
                Some(id) => place_of(school_ids(v.schools@), id@),
                None => v.school_index as int,
            })
        } else {
            SettingsStepV::Notice("No schools available. Sync first!"@, ErrorType::Warning)
        }
    } else if v.entry == 2 {
        if v.term_picker_open {
            if v.term_index < v.terms@.len() {
                SettingsStepV::SelectTerm {
                    id: v.terms@[v.term_index as int].id@,
                    notice: "Selected: "@ + v.terms@[v.term_index as int].name@,
                }
            } else {
                SettingsStepV::ClosePicker
            }
        } else if v.school_id is None {
            SettingsStepV::Notice("Select a school first!"@, ErrorType::Warning)
        } else if v.terms@.len() > 0 {
            SettingsStepV::OpenTermPicker(match v.term_id {
                Some(id) => place_of(term_ids(v.terms@), id@),
                None => v.term_index as int,
            })
        } else {
            SettingsStepV::Notice("No terms available for this school."@, ErrorType::Warning)
        }
    } else if v.entry == 3 && !v.syncing {
        SettingsStepV::Sync
    } else {
        SettingsStepV::Nothing
    }
}

/// The place of `id` among the identifiers (the first place when it is
/// not there).
fn find_place(ids: &Vec<String>, id: &String) -> (r: usize)
    ensures
        r == place_of(ids.deep_view(), id@),
{
    let mut i: usize = ids.len();
    let mut place: usize = 0;
    while i > 0
        invariant
            i <= ids.len(),
            place == place_of(ids.deep_view().subrange(i as int, ids.len() as int), id@)
                + (if ids.deep_view().subrange(i as int, ids.len() as int).contains(id@) { i as int } else { 0 }),
        decreases i,
    {
        let ghost rest = ids.deep_view().subrange(i as int, ids.len() as int);
        let ghost here = ids.deep_view().subrange(i - 1, ids.len() as int);
        proof {
            assert(here.drop_first() =~= rest);
            assert(here[0] == ids[i - 1]@);
        }
        if crate::text::str_eq(ids[i - 1].as_str(), id.as_str()) {
            place = i - 1;
            proof {
                assert(here.contains(id@)) by { assert(here[0] == id@); }
            }
        } else {
            proof {
                if rest.contains(id@) {
                    let k = choose|k: int| 0 <= k < rest.len() && rest[k] == id@;
                    assert(here[k + 1] == id@);
                }
                if here.contains(id@) {
                    let k = choose|k: int| 0 <= k < here.len() && here[k] == id@;
                    assert(k != 0);
                    assert(rest[k - 1] == id@);
                }
            }
        }
        i = i - 1;
    }
    assert(ids.deep_view().subrange(0, ids.len() as int) =~= ids.deep_view());
    place
}

/// Handles `Enter` in the settings.
pub fn settings_enter(v: SettingsView) -> (r: SettingsStep)
    ensures
        settings_step_view(r) == settings_enter_spec(v),
{
    if v.entry == 1 {
        if v.school_picker_open {
            if v.school_index < v.schools.len() {
                let s = &v.schools[v.school_index];
                SettingsStep::SelectSchool { id: s.id.clone(), notice: concat("Selected: ", s.name.as_str()) }
            } else {
                SettingsStep::ClosePicker
            }
        } else if v.schools.len() > 0 {
            let index = match v.school_id {
                Some(id) => {
                    let mut ids: Vec<String> = Vec::new();
                    let mut i: usize = 0;
                    while i < v.schools.len()
                        invariant
                            i <= v.schools@.len(),
                            ids.deep_view() == school_ids(v.schools@).subrange(0, i as int),
                        decreases v.schools@.len() - i,
                    {
                        let next = v.schools[i].id.clone();
                        let ghost before = ids.deep_view();
                        ids.push(next);
                        proof {
                            assert(ids.deep_view() =~= before.push(v.schools@[i as int].id@));
                        }
                        i = i + 1;
                        assert(ids.deep_view() =~= school_ids(v.schools@).subrange(0, i as int));
                    }
                    assert(school_ids(v.schools@).subrange(0, i as int) =~= school_ids(v.schools@));
                    find_place(&ids, id)
                },
                None => v.school_index,
            };
            SettingsStep::OpenSchoolPicker(index)
        } else {
            SettingsStep::Notice("No schools available. Sync first!".to_string(), ErrorType::Warning)
        }
    } else if v.entry == 2 {
        if v.term_picker_open {
            if v.term_index < v.terms.len() {
                let t = &v.terms[v.term_index];
                SettingsStep::SelectTerm { id: t.id.clone(), notice: concat("Selected: ", t.name.as_str()) }
            } else {
                SettingsStep::ClosePicker
            }
        } else if v.school_id.is_none() {
            SettingsStep::Notice("Select a school first!".to_string(), ErrorType::Warning)
        } else if v.terms.len() > 0 {
            let index = match v.term_id {
                Some(id) => {
                    let mut ids: Vec<String> = Vec::new();
                    let mut i: usize = 0;
                    while i < v.terms.len()
                        invariant
                            i <= v.terms@.len(),
                            ids.deep_view() == term_ids(v.terms@).subrange(0, i as int),
                        decreases v.terms@.len() - i,
                    {
                        let next = v.terms[i].id.clone();
                        let ghost before = ids.deep_view();
                        ids.push(next);
                        proof {
                            assert(ids.deep_view() =~= before.push(v.terms@[i as int].id@));
                        }
                        i = i + 1;
                        assert(ids.deep_view() =~= term_ids(v.terms@).subrange(0, i as int));
                    }
                    assert(term_ids(v.terms@).subrange(0, i as int) =~= term_ids(v.terms@));
                    find_place(&ids, id)
                },
                None => v.term_index,
            };
            SettingsStep::OpenTermPicker(index)
        } else {
            SettingsStep::Notice("No terms available for this school.".to_string(), ErrorType::Warning)
        }
    } else if v.entry == 3 && !v.syncing {
        SettingsStep::Sync
    } else {
        SettingsStep::Nothing
    }
}

// ---------------------------------------------------------------------------
// Running a query
// ---------------------------------------------------------------------------

/// Why a query cannot be run yet: no school selected, or no term selected
/// for a school other than the test one.
pub open spec fn query_precheck_spec(school_id: Option<Seq<char>>, term_id: Option<Seq<char>>) -> Option<Seq<char>> {
    if school_id is None {
        Some("Please select a school first (Settings \u{2192} School)"@)
    } else if term_id is None && school_id != Some("_test"@) {
        Some("Please select a term first (Settings \u{2192} Term)"@)
    } else {
        None
    }
}

/// The warning to show instead of running a query, if any.
pub fn query_precheck(school_id: &Option<String>, term_id: &Option<String>) -> (r: Option<String>)
    ensures
        (match r { Some(m) => Some(m@), None => None }) == query_precheck_spec(
            crate::text::opt_text(*school_id),
            crate::text::opt_text(*term_id),
        ),
{
    match school_id {
        None => Some("Please select a school first (Settings \u{2192} School)".to_string()),
        Some(s) => {
            if term_id.is_none() && !crate::text::str_eq(s.as_str(), "_test") {
                Some("Please select a term first (Settings \u{2192} Term)".to_string())
            } else {
                None
            }
        },
    }
}

/// The notice a compiled query gives: none when it is ready to run;
/// otherwise the message, the kind of error (a code generation error is
/// reported as a semantic one) and the positions to highlight.
pub open spec fn compilation_notice_spec(c: CompileOutcome) -> Option<(Seq<char>, ErrorType, Seq<(usize, usize)>)> {
    match c {
        CompileOutcome::LexerError { message, positions } => Some((message, ErrorType::Lexer, positions)),
        CompileOutcome::ParserError { message, positions } => Some((message, ErrorType::Parser, positions)),
        CompileOutcome::SemanticError { message, positions } => Some((message, ErrorType::Semantic, positions)),
        CompileOutcome::CodeGenError { message } => Some((message, ErrorType::Semantic, Seq::empty())),
        _ => None,
    }
}

/// A copy of the positions.
fn copy_positions(v: &Vec<(usize, usize)>) -> (r: Vec<(usize, usize)>)
    ensures
        r@ == v@,
{
    let mut r: Vec<(usize, usize)> = Vec::new();
    let mut i: usize = 0;
    while i < v.len()
        invariant
            i <= v.len(),
            r@ == v@.subrange(0, i as int),
        decreases v.len() - i,
    {
        r.push(v[i]);
        i = i + 1;
        assert(r@ =~= v@.subrange(0, i as int));
    }
    assert(v@.subrange(0, i as int) =~= v@);
    r
}

/// The notice a compiled query gives.
pub fn compilation_notice(c: &Compilation) -> (r: Option<(String, ErrorType, Vec<(usize, usize)>)>)
    ensures
        (match r { Some((m, k, ps)) => Some((m@, k, ps@)), None => None }) == compilation_notice_spec(c@),
{
    match c {
        Compilation::Ready { .. } => None,
        Compilation::LexerError { message, problematic_positions } =>
            Some((message.clone(), ErrorType::Lexer, copy_positions(problematic_positions))),
        Compilation::ParserError { message, problematic_positions } =>
            Some((message.clone(), ErrorType::Parser, copy_positions(problematic_positions))),
        Compilation::SemanticError { message, problematic_positions } =>
            Some((message.clone(), ErrorType::Semantic, copy_positions(problematic_positions))),
        Compilation::CodeGenError { message } => Some((message.clone(), ErrorType::Semantic, Vec::new())),
    }
}

} // verus!
