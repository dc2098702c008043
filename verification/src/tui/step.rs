//! The interface as a state machine: the state the keyboard drives, and
//! one step from a state and a key (or the outcome of a compilation the
//! previous step asked for) to the next state and the action the program
//! must carry out (compile, query, load, save, quit or redraw). The loop
//! that reads keys, draws and carries out the actions stands outside.
use vstd::prelude::*;
use crate::tui::state::{ErrorType, FocusMode};
use crate::tui::nav::{
    GridMove, GridPosition, KeyPress, NavKey, UiKey, DetailStep, ListStep, EditKey, SaveNameStep,
    SaveNameStepV, calendar_move, calendar_move_spec, completion_move, completion_move_spec,
    compilation_notice, compilation_notice_spec, cycle, cycle_spec, detail_key_spec,
    detail_view_key, grid_down, grid_down_spec, grid_left, grid_left_spec, grid_move_defined,
    grid_right, grid_right_spec, grid_up, grid_up_spec, guide_scroll, guide_scroll_spec,
    query_precheck, query_precheck_spec, results_page, results_page_spec, save_name_key,
    save_name_spec, save_step_view, saved_list_key, saved_list_key_spec, settings_move,
    without_last, wrap_move, wrap_move_spec, PickerPosition, picker_move, picker_move_spec, PICKER_ROWS,
    theme_step, theme_step_spec, SettingsStep, SettingsStepV, settings_step_view, after_removal,
    after_removal_spec,
};
use crate::tui::themes::ThemePalette;
use crate::dsl::compiler::{CompileOutcome, Compilation};
use crate::text::{opt_text, string_push};

verus! {

/// The entries of the main menu, in order: search, build a schedule, the
/// saved schedules, help, settings, quit.
pub const MENU_ENTRIES: usize = 6;

/// The state the keyboard drives.
pub struct UiState {
    pub focus: FocusMode,
    /// The selected entry of the main menu.
    pub menu_index: usize,
    /// The query being typed.
    pub input: String,
    /// How many results the last query found.
    pub results_count: usize,
    /// The selected result and the first result shown.
    pub grid: GridPosition,
    /// How many results fit on the screen.
    pub visible: usize,
    /// The notice shown, with its kind.
    pub notice: Option<(String, ErrorType)>,
    /// The spans of the query to highlight.
    pub positions: Vec<(usize, usize)>,
    /// Whether completions are on offer, which is selected, and how many.
    pub show_completions: bool,
    pub completion_index: Option<usize>,
    pub completion_count: usize,
    /// Where closing the detail view, or leaving the guide, returns to.
    pub detail_return: FocusMode,
    pub guide_return: FocusMode,
    /// The guide's scroll position and its last position (zero while not
    /// known).
    pub guide_scroll: usize,
    pub guide_max: usize,
    /// The selected school and term.
    pub school_id: Option<String>,
    pub term_id: Option<String>,
    /// The classes in the cart, and the one selected while choosing classes.
    pub cart_count: usize,
    pub cart_index: usize,
    /// Whether classes are being chosen (rather than schedules viewed).
    pub selection_mode: bool,
    /// The schedule shown among those built.
    pub schedule_index: usize,
    pub schedule_count: usize,
    /// The selected day and half-hour slot of the calendar.
    pub day: usize,
    pub slot: usize,
    /// The selected saved schedule among those saved.
    pub saved_index: usize,
    pub saved_count: usize,
    /// The name being typed for a schedule to save.
    pub save_name: String,
    /// The selected settings entry.
    pub settings_index: usize,
    /// Whether the school or the term picker is open, where each stands, and
    /// how many schools and terms there are to pick from.
    pub school_picker_open: bool,
    pub term_picker_open: bool,
    pub school_picker: PickerPosition,
    pub term_picker: PickerPosition,
    pub school_count: usize,
    pub term_count: usize,
    /// The colour theme.
    pub theme: ThemePalette,
}

/// The value of a `UiState`.
pub ghost struct UiView {
    pub focus: FocusMode,
    pub menu_index: usize,
    pub input: Seq<char>,
    pub results_count: usize,
    pub grid: GridPosition,
    pub visible: usize,
    pub notice: Option<(Seq<char>, ErrorType)>,
    pub positions: Seq<(usize, usize)>,
    pub show_completions: bool,
    pub completion_index: Option<usize>,
    pub completion_count: usize,
    pub detail_return: FocusMode,
    pub guide_return: FocusMode,
    pub guide_scroll: usize,
    pub guide_max: usize,
    pub school_id: Option<Seq<char>>,
    pub term_id: Option<Seq<char>>,
    pub cart_count: usize,
    pub cart_index: usize,
    pub selection_mode: bool,
    pub schedule_index: usize,
    pub schedule_count: usize,
    pub day: usize,
    pub slot: usize,
    pub saved_index: usize,
    pub saved_count: usize,
    pub save_name: Seq<char>,
    pub settings_index: usize,
    pub school_picker_open: bool,
    pub term_picker_open: bool,
    pub school_picker: PickerPosition,
    pub term_picker: PickerPosition,
    pub school_count: usize,
    pub term_count: usize,
    pub theme: ThemePalette,
}

impl View for UiState {
    type V = UiView;

    open spec fn view(&self) -> UiView {
        UiView {
            focus: self.focus,
            menu_index: self.menu_index,
            input: self.input@,
            results_count: self.results_count,
            grid: self.grid,
            visible: self.visible,
            notice: match self.notice {
                Some((m, k)) => Some((m@, k)),
                None => None,
            },
            positions: self.positions@,
            show_completions: self.show_completions,
            completion_index: self.completion_index,
            completion_count: self.completion_count,
            detail_return: self.detail_return,
            guide_return: self.guide_return,
            guide_scroll: self.guide_scroll,
            guide_max: self.guide_max,
            school_id: opt_text(self.school_id),
            term_id: opt_text(self.term_id),
            cart_count: self.cart_count,
            cart_index: self.cart_index,
            selection_mode: self.selection_mode,
            schedule_index: self.schedule_index,
            schedule_count: self.schedule_count,
            day: self.day,
            slot: self.slot,
            saved_index: self.saved_index,
            saved_count: self.saved_count,
            save_name: self.save_name@,
            settings_index: self.settings_index,
            school_picker_open: self.school_picker_open,
            term_picker_open: self.term_picker_open,
            school_picker: self.school_picker,
            term_picker: self.term_picker,
            school_count: self.school_count,
            term_count: self.term_count,
            theme: self.theme,
        }
    }
}

/// What the program must do after a step.
#[derive(Debug, Clone, PartialEq, Eq)]
pub enum UiAction {
    /// Nothing beyond drawing the new state.
    Redraw,
    /// Leave the program.
    Quit,
    /// Compile this query; the outcome comes back in the next step.
    Compile(String),
    /// Run this SQL with these values bound to its placeholders (on the
    /// test database when asked) and hand the number of classes found to
    /// `results_loaded`.
    Query { sql: String, params: Vec<String>, use_test_db: bool },
    /// Offer completions for the query.
    Complete,
    /// Put the completion at this place into the query.
    AcceptCompletion(usize),
    /// Load the saved schedules and hand their number to `schedules_loaded`.
    LoadSchedules,
    /// Load the schools and terms for the settings.
    LoadSettings,
    /// Carry out the selected settings entry: hand what `settings_enter`
    /// gives for it to `settings_applied`.
    SettingsEnter(usize),
    /// Synchronise the course data.
    Sync,
    /// Add the class shown in the detail view to the cart, or take it out.
    ToggleCart,
    /// Build the schedules from the chosen classes.
    BuildSchedules,
    /// Show the saved schedule at this place.
    ShowSaved(usize),
    /// Delete the saved schedule at this place.
    DeleteSaved(usize),
    /// Save the schedule shown under this name.
    Save(String),
}

/// The value of a `UiAction`.
pub ghost enum UiActionV {
    Redraw,
    Quit,
    Compile(Seq<char>),
    Query { sql: Seq<char>, params: Seq<Seq<char>>, use_test_db: bool },
    Complete,
    AcceptCompletion(usize),
    LoadSchedules,
    LoadSettings,
    SettingsEnter(usize),
    Sync,
    ToggleCart,
    BuildSchedules,
    ShowSaved(usize),
    DeleteSaved(usize),
    Save(Seq<char>),
}

impl View for UiAction {
    type V = UiActionV;

    open spec fn view(&self) -> UiActionV {
        match self {
            UiAction::Redraw => UiActionV::Redraw,
            UiAction::Quit => UiActionV::Quit,
            UiAction::Compile(q) => UiActionV::Compile(q@),
            UiAction::Query { sql, params, use_test_db } => UiActionV::Query {
                sql: sql@,
                params: params.deep_view(),
                use_test_db: *use_test_db,
            },
            UiAction::Complete => UiActionV::Complete,
            UiAction::AcceptCompletion(i) => UiActionV::AcceptCompletion(*i),
            UiAction::LoadSchedules => UiActionV::LoadSchedules,
            UiAction::LoadSettings => UiActionV::LoadSettings,
            UiAction::SettingsEnter(i) => UiActionV::SettingsEnter(*i),
            UiAction::Sync => UiActionV::Sync,
            UiAction::ToggleCart => UiActionV::ToggleCart,
            UiAction::BuildSchedules => UiActionV::BuildSchedules,
            UiAction::ShowSaved(i) => UiActionV::ShowSaved(*i),
            UiAction::DeleteSaved(i) => UiActionV::DeleteSaved(*i),
            UiAction::Save(n) => UiActionV::Save(n@),
        }
    }
}

// ---------------------------------------------------------------------------
// The step, stated
// ---------------------------------------------------------------------------

/// `Ctrl+C`.
pub open spec fn is_ctrl_c(k: KeyPress) -> bool {
    k.key == UiKey::Char('c') && k.ctrl
}

/// `Alt+G`.
pub open spec fn is_alt_g(k: KeyPress) -> bool {
    (k.key == UiKey::Char('g') || k.key == UiKey::Char('G')) && k.alt
}

/// The state with no notice and nothing highlighted.
pub open spec fn cleared(s: UiView) -> UiView {
    UiView { notice: None, positions: Seq::empty(), ..s }
}

/// The state with the guide opened from `from`, at its top.
pub open spec fn open_guide(s: UiView, from: FocusMode) -> UiView {
    UiView { guide_return: from, focus: FocusMode::QueryGuide, guide_scroll: 0, ..s }
}

/// The query without its last character.
pub open spec fn drop_last_char(q: Seq<char>) -> Seq<char> {
    if q.len() > 0 { q.drop_last() } else { q }
}

/// The arrow and paging keys as navigation keys.
pub open spec fn nav_key(k: UiKey) -> Option<NavKey> {
    match k {
        UiKey::Up => Some(NavKey::Up),
        UiKey::Down => Some(NavKey::Down),
        UiKey::Left => Some(NavKey::Left),
        UiKey::Right => Some(NavKey::Right),
        UiKey::PageUp => Some(NavKey::PageUp),
        UiKey::PageDown => Some(NavKey::PageDown),
        UiKey::Home => Some(NavKey::Home),
        UiKey::End => Some(NavKey::End),
        _ => None,
    }
}

/// The main menu: `Ctrl+C` and `Esc` leave; `Up` and `Down` move through
/// the entries, wrapping around; `Enter` opens the selected entry (building
/// a schedule needs classes in the cart).
pub open spec fn menu_step(s: UiView, k: KeyPress) -> (UiView, UiActionV) {
    if is_ctrl_c(k) || k.key == UiKey::Esc {
        (s, UiActionV::Quit)
    } else if k.key == UiKey::Up || k.key == UiKey::Down {
        (UiView { menu_index: wrap_move_spec(k.key == UiKey::Up, s.menu_index as int, 6) as usize, ..s }, UiActionV::Redraw)
    } else if k.key == UiKey::Enter {
        if s.menu_index == 0 {
            (UiView { focus: FocusMode::QueryInput, ..s }, UiActionV::Redraw)
        } else if s.menu_index == 1 {
            if s.cart_count == 0 {
                (
                    UiView { notice: Some(("Cart is empty! Add classes to cart first."@, ErrorType::Semantic)), ..s },
                    UiActionV::Redraw,
                )
            } else {
                (
                    UiView {
                        focus: FocusMode::ScheduleCreation,
                        selection_mode: true,
                        schedule_index: 0,
                        schedule_count: 0,
                        cart_index: 0,
                        ..s
                    },
                    UiActionV::Redraw,
                )
            }
        } else if s.menu_index == 2 {
            (s, UiActionV::LoadSchedules)
        } else if s.menu_index == 3 {
            (open_guide(s, FocusMode::MainMenu), UiActionV::Redraw)
        } else if s.menu_index == 4 {
            (UiView { focus: FocusMode::Settings, ..s }, UiActionV::LoadSettings)
        } else if s.menu_index == 5 {
            (s, UiActionV::Quit)
        } else {
            (s, UiActionV::Redraw)
        }
    } else {
        (s, UiActionV::Redraw)
    }
}

/// While completions are on offer: `Esc` withdraws them; `Up` and `Down`
/// move the selection; `Enter` and `Tab` take the selected one.
pub open spec fn completion_step(s: UiView, k: KeyPress) -> (UiView, UiActionV) {
    let hidden = UiView { show_completions: false, completion_index: None, ..s };
    if k.key == UiKey::Esc {
        (hidden, UiActionV::Redraw)
    } else if k.key == UiKey::Up || k.key == UiKey::Down {
        let i = if s.completion_count == 0 { None } else { s.completion_index };
        (
            UiView { completion_index: completion_move_spec(k.key == UiKey::Up, i, s.completion_count as int), ..s },
            UiActionV::Redraw,
        )
    } else if k.key == UiKey::Enter || k.key == UiKey::Tab {
        match s.completion_index {
            Some(i) => (hidden, UiActionV::AcceptCompletion(i)),
            None => (hidden, UiActionV::Redraw),
        }
    } else {
        (s, UiActionV::Redraw)
    }
}

/// The query input: typing edits the query and clears the notice; `Enter`
/// compiles the query once a school (and, but for the test school, a term)
/// is selected, and otherwise warns without compiling; `Down` moves to the
/// results; `Tab` asks for completions; `PageUp` and `PageDown` page the
/// results; `Esc` returns to the menu; `Alt+G` opens the guide.
pub open spec fn query_step(s: UiView, k: KeyPress) -> (UiView, UiActionV) {
    if is_ctrl_c(k) {
        (s, UiActionV::Quit)
    } else if is_alt_g(k) {
        (open_guide(s, FocusMode::QueryInput), UiActionV::Redraw)
    } else {
        match k.key {
            UiKey::Esc => (UiView { focus: FocusMode::MainMenu, ..s }, UiActionV::Redraw),
            UiKey::Down => if s.results_count > 0 {
                (
                    UiView { focus: FocusMode::ResultsBrowse, grid: GridPosition { selected: 0, scroll: 0 }, ..s },
                    UiActionV::Redraw,
                )
            } else {
                (s, UiActionV::Redraw)
            },
            UiKey::Enter => match query_precheck_spec(s.school_id, s.term_id) {
                Some(m) => (UiView { notice: Some((m, ErrorType::Warning)), ..s }, UiActionV::Redraw),
                None => (s, UiActionV::Compile(s.input)),
            },
            UiKey::Backspace => (UiView { input: drop_last_char(s.input), ..cleared(s) }, UiActionV::Redraw),
            UiKey::Tab => (s, UiActionV::Complete),
            UiKey::Char(c) => (UiView { input: s.input.push(c), ..cleared(s) }, UiActionV::Redraw),
            UiKey::PageUp | UiKey::PageDown => if s.grid.scroll + 3 <= usize::MAX {
                let scroll = results_page_spec(k.key == UiKey::PageUp, s.grid.scroll as int, s.results_count as int);
                (UiView { grid: GridPosition { scroll: scroll as usize, ..s.grid }, ..s }, UiActionV::Redraw)
            } else {
                (s, UiActionV::Redraw)
            },
            _ => (s, UiActionV::Redraw),
        }
    }
}

/// The result grid: the arrows move the selection (`Up` from the first row
/// returns to the query input); `Enter` opens the selected class; typing or
/// `Tab` returns to the query input; `Esc` returns to the menu; `Alt+G`
/// opens the guide.
pub open spec fn results_step(s: UiView, k: KeyPress) -> (UiView, UiActionV) {
    let defined = grid_move_defined(s.grid, s.results_count as int, s.visible as int);
    if is_ctrl_c(k) {
        (s, UiActionV::Quit)
    } else if is_alt_g(k) {
        (open_guide(s, FocusMode::ResultsBrowse), UiActionV::Redraw)
    } else {
        match k.key {
            UiKey::Esc => (UiView { focus: FocusMode::MainMenu, ..s }, UiActionV::Redraw),
            UiKey::Up => match grid_up_spec(s.grid) {
                GridMove::Stay(g) => (UiView { grid: g, ..s }, UiActionV::Redraw),
                GridMove::ToQueryInput => (UiView { focus: FocusMode::QueryInput, ..s }, UiActionV::Redraw),
            },
            UiKey::Down => if defined {
                (UiView { grid: grid_down_spec(s.grid, s.results_count as int, s.visible as int), ..s }, UiActionV::Redraw)
            } else {
                (s, UiActionV::Redraw)
            },
            UiKey::Left => (UiView { grid: grid_left_spec(s.grid), ..s }, UiActionV::Redraw),
            UiKey::Right => if defined {
                (UiView { grid: grid_right_spec(s.grid, s.results_count as int, s.visible as int), ..s }, UiActionV::Redraw)
            } else {
                (s, UiActionV::Redraw)
            },
            UiKey::Enter => if s.grid.selected < s.results_count {
                (UiView { detail_return: FocusMode::ResultsBrowse, focus: FocusMode::DetailView, ..s }, UiActionV::Redraw)
            } else {
                (s, UiActionV::Redraw)
            },
            UiKey::Char(c) => (
                UiView { focus: FocusMode::QueryInput, input: s.input.push(c), ..cleared(s) },
                UiActionV::Redraw,
            ),
            UiKey::Backspace => (
                UiView { focus: FocusMode::QueryInput, input: drop_last_char(s.input), ..cleared(s) },
                UiActionV::Redraw,
            ),
            UiKey::Tab => (UiView { focus: FocusMode::QueryInput, ..s }, UiActionV::Complete),
            _ => (s, UiActionV::Redraw),
        }
    }
}

/// The detail view of a class.
pub open spec fn detail_step(s: UiView, k: KeyPress) -> (UiView, UiActionV) {
    match detail_key_spec(k, s.detail_return) {
        DetailStep::Navigate(f) => (UiView { focus: f, ..s }, UiActionV::Redraw),
        DetailStep::OpenGuide => (open_guide(s, FocusMode::DetailView), UiActionV::Redraw),
        DetailStep::ToggleCart => (s, UiActionV::ToggleCart),
        DetailStep::Continue => (s, UiActionV::Redraw),
    }
}

/// The guide: `Esc` and `Alt+G` return to where it was opened from; the
/// arrows, paging keys, `Home` and `End` scroll it.
pub open spec fn guide_step(s: UiView, k: KeyPress) -> (UiView, UiActionV) {
    if k.key == UiKey::Esc || is_alt_g(k) {
        (UiView { focus: s.guide_return, guide_scroll: 0, ..s }, UiActionV::Redraw)
    } else {
        match nav_key(k.key) {
            Some(n) => if s.guide_scroll + 10 <= usize::MAX {
                (
                    UiView { guide_scroll: guide_scroll_spec(n, s.guide_scroll as int, s.guide_max as int) as usize, ..s },
                    UiActionV::Redraw,
                )
            } else {
                (s, UiActionV::Redraw)
            },
            None => (s, UiActionV::Redraw),
        }
    }
}

/// The schedule view. While classes are chosen, `Up` and `Down` move
/// through the cart, `Enter` builds the schedules and `Esc` returns to the
/// menu. While schedules are shown, the arrows move over the calendar,
/// `PageUp` and `PageDown` cycle through the schedules (the saved ones,
/// when opened from them), `S` names the schedule to save, and `Esc`
/// returns to the saved schedules or to choosing classes.
pub open spec fn schedule_step(s: UiView, k: KeyPress) -> (UiView, UiActionV) {
    if is_ctrl_c(k) {
        (s, UiActionV::Quit)
    } else if s.selection_mode {
        match k.key {
            UiKey::Esc => (UiView { focus: FocusMode::MainMenu, ..s }, UiActionV::Redraw),
            UiKey::Up => if s.cart_count > 0 && s.cart_index > 0 {
                (UiView { cart_index: (s.cart_index - 1) as usize, ..s }, UiActionV::Redraw)
            } else {
                (s, UiActionV::Redraw)
            },
            UiKey::Down => if s.cart_count > 0 && s.cart_index < s.cart_count - 1 {
                (UiView { cart_index: (s.cart_index + 1) as usize, ..s }, UiActionV::Redraw)
            } else {
                (s, UiActionV::Redraw)
            },
            UiKey::Enter => (s, UiActionV::BuildSchedules),
            _ => (s, UiActionV::Redraw),
        }
    } else {
        match k.key {
            UiKey::Esc => if s.detail_return == FocusMode::MySchedules {
                (UiView { focus: FocusMode::MySchedules, ..s }, UiActionV::Redraw)
            } else {
                (UiView { selection_mode: true, schedule_count: 0, schedule_index: 0, ..s }, UiActionV::Redraw)
            },
            UiKey::Up | UiKey::Down | UiKey::Left | UiKey::Right => {
                let (d, t) = calendar_move_spec(nav_key(k.key).unwrap(), s.day as int, s.slot as int);
                (UiView { day: d as usize, slot: t as usize, ..s }, UiActionV::Redraw)
            },
            UiKey::PageUp | UiKey::PageDown => {
                let back = k.key == UiKey::PageUp;
                if s.detail_return == FocusMode::MySchedules {
                    if s.saved_count > 0 {
                        let i = cycle_spec(back, s.saved_index as int, s.saved_count as int) as usize;
                        (UiView { saved_index: i, schedule_index: 0, ..s }, UiActionV::ShowSaved(i))
                    } else {
                        (s, UiActionV::Redraw)
                    }
                } else {
                    (
                        UiView { schedule_index: cycle_spec(back, s.schedule_index as int, s.schedule_count as int) as usize, ..s },
                        UiActionV::Redraw,
                    )
                }
            },
            UiKey::Char(c) => if (c == 's' || c == 'S') && s.schedule_count > 0 {
                (UiView { focus: FocusMode::SaveNameInput, save_name: Seq::empty(), ..s }, UiActionV::Redraw)
            } else {
                (s, UiActionV::Redraw)
            },
            _ => (s, UiActionV::Redraw),
        }
    }
}

/// A key as an editing key.
pub open spec fn edit_key(k: UiKey) -> EditKey {
    match k {
        UiKey::Char(c) => EditKey::Char(c),
        UiKey::Backspace => EditKey::Backspace,
        UiKey::Enter => EditKey::Enter,
        UiKey::Esc => EditKey::Esc,
        _ => EditKey::Other,
    }
}

/// Naming a schedule to save: the name is edited; `Enter` saves under the
/// trimmed name, or warns when it is blank; `Esc` returns to the schedule.
pub open spec fn save_name_step(s: UiView, k: KeyPress) -> (UiView, UiActionV) {
    let (step, name) = save_name_spec(s.save_name, edit_key(k.key), k.ctrl);
    match step {
        SaveNameStepV::Exit => (s, UiActionV::Quit),
        SaveNameStepV::Cancel => (UiView { focus: FocusMode::ScheduleCreation, save_name: name, ..s }, UiActionV::Redraw),
        SaveNameStepV::EmptyName => (
            UiView { notice: Some(("Schedule name cannot be empty!"@, ErrorType::Semantic)), save_name: name, ..s },
            UiActionV::Redraw,
        ),
        SaveNameStepV::Save(n) => (UiView { save_name: name, ..s }, UiActionV::Save(n)),
        SaveNameStepV::Continue => (UiView { save_name: name, ..s }, UiActionV::Redraw),
    }
}

/// The list of saved schedules.
pub open spec fn saved_step(s: UiView, k: KeyPress) -> (UiView, UiActionV) {
    match saved_list_key_spec(k, s.saved_index as int, s.saved_count as int) {
        ListStep::Exit => (s, UiActionV::Quit),
        ListStep::Navigate(f) => (UiView { focus: f, ..s }, UiActionV::Redraw),
        ListStep::Moved(i) => (UiView { saved_index: i, ..s }, UiActionV::Redraw),
        ListStep::Open(i) => (
            UiView {
                focus: FocusMode::ScheduleCreation,
                selection_mode: false,
                detail_return: FocusMode::MySchedules,
                schedule_index: 0,
                ..s
            },
            UiActionV::ShowSaved(i),
        ),
        ListStep::Delete(i) => (s, UiActionV::DeleteSaved(i)),
        ListStep::Continue => (s, UiActionV::Redraw),
    }
}

/// The settings: `Esc` closes the open picker, or returns to the menu;
/// `Up` and `Down` move within the open picker, or through the entries;
/// `Left` and `Right` on the theme entry change the theme; `Enter` carries
/// out the selected entry.
pub open spec fn settings_step(s: UiView, k: KeyPress) -> (UiView, UiActionV) {
    if is_ctrl_c(k) {
        (s, UiActionV::Quit)
    } else {
        match k.key {
            UiKey::Esc => if s.school_picker_open {
                (UiView { school_picker_open: false, ..s }, UiActionV::Redraw)
            } else if s.term_picker_open {
                (UiView { term_picker_open: false, ..s }, UiActionV::Redraw)
            } else {
                (UiView { focus: FocusMode::MainMenu, ..s }, UiActionV::Redraw)
            },
            UiKey::Up | UiKey::Down => {
                let up = k.key == UiKey::Up;
                if s.school_picker_open {
                    if s.school_picker.offset + 6 <= usize::MAX {
                        (
                            UiView { school_picker: picker_move_spec(up, s.school_picker, s.school_count as int), ..s },
                            UiActionV::Redraw,
                        )
                    } else {
                        (s, UiActionV::Redraw)
                    }
                } else if s.term_picker_open {
                    if s.term_picker.offset + 6 <= usize::MAX {
                        (
                            UiView { term_picker: picker_move_spec(up, s.term_picker, s.term_count as int), ..s },
                            UiActionV::Redraw,
                        )
                    } else {
                        (s, UiActionV::Redraw)
                    }
                } else if up {
                    (
                        UiView { settings_index: if s.settings_index > 0 { (s.settings_index - 1) as usize } else { s.settings_index }, ..s },
                        UiActionV::Redraw,
                    )
                } else {
                    (
                        UiView { settings_index: if s.settings_index < 3 { (s.settings_index + 1) as usize } else { s.settings_index }, ..s },
                        UiActionV::Redraw,
                    )
                }
            },
            UiKey::Left | UiKey::Right => if s.settings_index == 0 {
                (UiView { theme: theme_step_spec(s.theme, k.key == UiKey::Right), ..s }, UiActionV::Redraw)
            } else {
                (s, UiActionV::Redraw)
            },
            UiKey::Enter => (s, UiActionV::SettingsEnter(s.settings_index)),
            _ => (s, UiActionV::Redraw),
        }
    }
}

/// What carrying out a settings entry does to the state: a school chosen is
/// selected, its term forgotten and its picker closed; a term chosen is
/// selected and its picker closed; a picker opens at the given entry or
/// closes; a notice is shown. Selections are reported as successes.
pub open spec fn settings_applied_spec(s: UiView, step: SettingsStepV) -> (UiView, UiActionV) {
    match step {
        SettingsStepV::SelectSchool { id, notice } => (
            UiView {
                school_id: Some(id),
                term_id: None,
                school_picker_open: false,
                term_count: 0,
                notice: Some((notice, ErrorType::Success)),
                ..s
            },
            UiActionV::Redraw,
        ),
        SettingsStepV::SelectTerm { id, notice } => (
            UiView { term_id: Some(id), term_picker_open: false, notice: Some((notice, ErrorType::Success)), ..s },
            UiActionV::Redraw,
        ),
        SettingsStepV::OpenSchoolPicker(i) => (
            UiView { school_picker_open: true, school_picker: PickerPosition { index: i as usize, ..s.school_picker }, ..s },
            UiActionV::Redraw,
        ),
        SettingsStepV::OpenTermPicker(i) => (
            UiView { term_picker_open: true, term_picker: PickerPosition { index: i as usize, ..s.term_picker }, ..s },
            UiActionV::Redraw,
        ),
        SettingsStepV::ClosePicker => (UiView { school_picker_open: false, term_picker_open: false, ..s }, UiActionV::Redraw),
        SettingsStepV::Notice(m, k) => (UiView { notice: Some((m, k)), ..s }, UiActionV::Redraw),
        SettingsStepV::Sync => (UiView { notice: Some(("Starting sync..."@, ErrorType::Info)), ..s }, UiActionV::Sync),
        SettingsStepV::Nothing => (s, UiActionV::Redraw),
    }
}

/// What a key does in state `s`.
pub open spec fn key_step(s: UiView, k: KeyPress) -> (UiView, UiActionV) {
    match s.focus {
        FocusMode::MainMenu => menu_step(s, k),
        FocusMode::QueryInput | FocusMode::ResultsBrowse => if s.show_completions {
            completion_step(s, k)
        } else if s.focus == FocusMode::QueryInput {
            query_step(s, k)
        } else {
            results_step(s, k)
        },
        FocusMode::DetailView => detail_step(s, k),
        FocusMode::QueryGuide | FocusMode::Help => guide_step(s, k),
        FocusMode::ScheduleCreation => schedule_step(s, k),
        FocusMode::SaveNameInput => save_name_step(s, k),
        FocusMode::MySchedules => saved_step(s, k),
        FocusMode::Settings => settings_step(s, k),
    }
}

/// What the outcome of a compilation does: a query ready to run clears the
/// notice and is run; a failed one shows its message as a notice of its
/// kind and highlights its positions, and the results stay as they were.
pub open spec fn outcome_step(s: UiView, c: CompileOutcome) -> (UiView, UiActionV) {
    match c {
        CompileOutcome::Ready { sql, params, use_test_db, .. } => (cleared(s), UiActionV::Query { sql, params, use_test_db }),
        _ => match compilation_notice_spec(c) {
            Some((m, kind, ps)) => (UiView { notice: Some((m, kind)), positions: ps, ..s }, UiActionV::Redraw),
            None => (s, UiActionV::Redraw),
        },
    }
}

/// One step: the outcome of a compilation when one came back, otherwise
/// the key.
pub open spec fn ui_step_spec(s: UiView, k: KeyPress, outcome: Option<CompileOutcome>) -> (UiView, UiActionV) {
    match outcome {
        Some(c) => outcome_step(s, c),
        None => key_step(s, k),
    }
}

/// The state once the results of a query are in: `count` classes, the
/// first selected and shown, no notice.
pub open spec fn results_loaded_spec(s: UiView, count: usize) -> UiView {
    UiView { results_count: count, grid: GridPosition { selected: 0, scroll: 0 }, ..cleared(s) }
}

// ---------------------------------------------------------------------------
// Properties of the step
// ---------------------------------------------------------------------------

/// `Enter` in the query input before a school (or, but for the test school,
/// a term) is selected warns and compiles nothing: the notice is a warning
/// with the message of `query_precheck`, the query and the results stay as
/// they were, and the only action is to redraw.
pub proof fn lemma_unready_query_only_warns(s: UiView, k: KeyPress)
    requires
        s.focus == FocusMode::QueryInput,
        !s.show_completions,
        k.key == UiKey::Enter,
        query_precheck_spec(s.school_id, s.term_id) is Some,
    ensures
        ({
            let (t, a) = ui_step_spec(s, k, None);
            &&& a == UiActionV::Redraw
            &&& t.notice == Some((query_precheck_spec(s.school_id, s.term_id)->Some_0, ErrorType::Warning))
            &&& t.input == s.input
            &&& t.results_count == s.results_count
            &&& t.grid == s.grid
            &&& t.focus == s.focus
        }),
{
}

/// `Enter` in the query input once a school (and a term where one is
/// needed) is selected asks for the query as typed to be compiled, and
/// changes nothing yet.
pub proof fn lemma_ready_query_compiles(s: UiView, k: KeyPress)
    requires
        s.focus == FocusMode::QueryInput,
        !s.show_completions,
        k.key == UiKey::Enter,
        query_precheck_spec(s.school_id, s.term_id) is None,
    ensures
        ui_step_spec(s, k, None) == (s, UiActionV::Compile(s.input)),
{
}

/// A compilation that fails shows its message as a notice of its kind and
/// highlights its positions; the results, the selection and the focus stay
/// as they were, and nothing is run.
pub proof fn lemma_failed_compilation_keeps_results(s: UiView, k: KeyPress, c: CompileOutcome)
    requires
        !(c is Ready),
        compilation_notice_spec(c) is Some,
    ensures
        ({
            let (t, a) = ui_step_spec(s, k, Some(c));
            let (m, kind, ps) = compilation_notice_spec(c)->Some_0;
            &&& a == UiActionV::Redraw
            &&& t.notice == Some((m, kind))
            &&& t.positions == ps
            &&& t.results_count == s.results_count
            &&& t.grid == s.grid
            &&& t.focus == s.focus
            &&& t.input == s.input
        }),
{
}

/// A compilation that succeeds runs its query with its parameters; once
/// the classes are in, they are the results, the first is selected and
/// shown, and no notice or highlight is left.
pub proof fn lemma_successful_query_resets_results(s: UiView, k: KeyPress, c: CompileOutcome, count: usize)
    requires
        c is Ready,
    ensures
        ({
            let (t, a) = ui_step_spec(s, k, Some(c));
            let u = results_loaded_spec(t, count);
            &&& a == (UiActionV::Query { sql: c->Ready_sql, params: c->Ready_params, use_test_db: c->Ready_use_test_db })
            &&& u.results_count == count
            &&& u.grid == (GridPosition { selected: 0, scroll: 0 })
            &&& u.notice is None
            &&& u.positions.len() == 0
            &&& u.focus == s.focus
            &&& u.input == s.input
        }),
{
}

/// Keys on the schedule calendar (other than `Esc`, which leaves it) keep
/// the shown schedule among the `n` built and the selected cell within the
/// week and the day's 29 half-hour slots: `PageDown` shows schedule
/// `(i + 1) % n` and `PageUp` schedule `(i + n - 1) % n`; the arrows move
/// by a slot or a day, wrapping from the last to the first and back.
pub proof fn lemma_schedule_view_keys(s: UiView, k: KeyPress)
    requires
        s.focus == FocusMode::ScheduleCreation,
        !s.selection_mode,
        s.detail_return != FocusMode::MySchedules,
        0 <= s.schedule_index < s.schedule_count,
        s.day <= 6,
        s.slot <= 28,
        k.key != UiKey::Esc,
    ensures
        ({
            let t = ui_step_spec(s, k, None).0;
            let n = s.schedule_count as int;
            let i = s.schedule_index as int;
            &&& t.schedule_index < s.schedule_count
            &&& t.schedule_count == s.schedule_count
            &&& t.day <= 6
            &&& t.slot <= 28
            &&& (k.key == UiKey::PageDown ==> t.schedule_index == (i + 1) % n)
            &&& (k.key == UiKey::PageUp ==> t.schedule_index == (i + n - 1) % n)
            &&& (k.key == UiKey::Down ==> t.slot == (if s.slot == 28 { 0 } else { s.slot + 1 }))
            &&& (k.key == UiKey::Up ==> t.slot == (if s.slot == 0 { 28 } else { s.slot - 1 }))
            &&& (k.key == UiKey::Right ==> t.day == (if s.day == 6 { 0 } else { s.day + 1 }))
            &&& (k.key == UiKey::Left ==> t.day == (if s.day == 0 { 6 } else { s.day - 1 }))
        }),
{
    let n = s.schedule_count as int;
    let i = s.schedule_index as int;
    if i < n - 1 {
        assert((i + 1) % n == i + 1) by (nonlinear_arith)
            requires 0 <= i, i + 1 < n;
    } else {
        assert((i + 1) % n == 0) by (nonlinear_arith)
            requires i + 1 == n, n > 0;
    }
    if i > 0 {
        assert((i + n - 1) % n == i - 1) by (nonlinear_arith)
            requires 0 < i, i < n;
    } else {
        assert((i + n - 1) % n == n - 1) by (nonlinear_arith)
            requires i == 0, n > 0;
    }
}

/// On the schedule calendar, `PageDown` and then `PageUp` return to the
/// schedule one started from.
pub proof fn lemma_schedule_paging_undoes(s: UiView, down: KeyPress, up: KeyPress)
    requires
        s.focus == FocusMode::ScheduleCreation,
        !s.selection_mode,
        s.detail_return != FocusMode::MySchedules,
        s.schedule_index < s.schedule_count,
        down.key == UiKey::PageDown,
        up.key == UiKey::PageUp,
    ensures
        ui_step_spec(ui_step_spec(s, down, None).0, up, None).0.schedule_index == s.schedule_index,
{
    crate::tui::nav::lemma_cycle_undo(s.schedule_index as int, s.schedule_count as int);
}

// ---------------------------------------------------------------------------
// The cart
// ---------------------------------------------------------------------------

/// The identifiers without any copy of `id`, in order.
pub open spec fn without_id(ids: Seq<Seq<char>>, id: Seq<char>) -> Seq<Seq<char>>
    decreases ids.len(),
{
    if ids.len() == 0 {
        Seq::empty()
    } else {
        let r = without_id(ids.drop_last(), id);
        if ids.last() == id { r } else { r.push(ids.last()) }
    }
}

/// The cart after the class `id` is toggled: taken out when it is in,
/// added at the end otherwise.
pub open spec fn cart_toggled(ids: Seq<Seq<char>>, id: Seq<char>) -> Seq<Seq<char>> {
    if ids.contains(id) { without_id(ids, id) } else { ids.push(id) }
}

/// Adds the class `id` to the cart, or takes it out when it is in; tells
/// whether it was added.
pub fn toggle_in_cart(cart: &mut Vec<String>, id: &str) -> (added: bool)
    ensures
        final(cart).deep_view() == cart_toggled(old(cart).deep_view(), id@),
        added == !old(cart).deep_view().contains(id@),
{
    let ghost ids = cart.deep_view();
    let mut kept: Vec<String> = Vec::new();
    let mut found = false;
    let mut i: usize = 0;
    assert(kept.deep_view() =~= Seq::<Seq<char>>::empty());
    assert(ids.subrange(0, 0) =~= Seq::<Seq<char>>::empty());
    while i < cart.len()
        invariant
            i <= cart.len(),
            ids == cart.deep_view(),
            found == ids.subrange(0, i as int).contains(id@),
            kept.deep_view() == without_id(ids.subrange(0, i as int), id@),
        decreases cart.len() - i,
    {
        let item = &cart[i];
        let ghost sub = ids.subrange(0, i as int + 1);
        assert(sub.drop_last() =~= ids.subrange(0, i as int));
        assert(sub.last() == item@);
        if crate::text::str_eq(item.as_str(), id) {
            found = true;
            assert(sub[i as int] == id@);
        } else {
            let ghost before = kept.deep_view();
            kept.push(item.clone());
            assert(kept.deep_view() =~= before.push(item@));
            if !found {
                assert forall|j: int| 0 <= j < sub.len() implies sub[j] != id@ by {
                    if j < i {
                        assert(sub[j] == ids.subrange(0, i as int)[j]);
                    }
                }
            }
        }
        proof {
            if ids.subrange(0, i as int).contains(id@) {
                let j = choose|j: int| 0 <= j < i && ids.subrange(0, i as int)[j] == id@;
                assert(sub[j] == id@);
            }
        }
        i = i + 1;
    }
    assert(ids.subrange(0, i as int) =~= ids);
    if found {
        *cart = kept;
        false
    } else {
        let ghost before = cart.deep_view();
        cart.push(id.to_string());
        assert(cart.deep_view() =~= before.push(id@));
        true
    }
}

// ---------------------------------------------------------------------------
// The step, carried out
// ---------------------------------------------------------------------------

impl UiState {
    /// The state the interface starts in: the main menu, nothing typed,
    /// found or selected, with `visible` results fitting on the screen.
    pub fn new(visible: usize, school_id: Option<String>, term_id: Option<String>) -> (r: UiState)
        ensures
            r@.focus == FocusMode::MainMenu,
            r@.input == Seq::<char>::empty(),
            r@.results_count == 0,
            r@.visible == visible,
            r@.notice is None,
            r@.school_id == opt_text(school_id),
            r@.term_id == opt_text(term_id),
    {
        UiState {
            focus: FocusMode::MainMenu,
            menu_index: 0,
            input: String::new(),
            results_count: 0,
            grid: GridPosition { selected: 0, scroll: 0 },
            visible,
            notice: None,
            positions: Vec::new(),
            show_completions: false,
            completion_index: None,
            completion_count: 0,
            detail_return: FocusMode::ResultsBrowse,
            guide_return: FocusMode::MainMenu,
            guide_scroll: 0,
            guide_max: 0,
            school_id,
            term_id,
            cart_count: 0,
            cart_index: 0,
            selection_mode: true,
            schedule_index: 0,
            schedule_count: 0,
            day: 0,
            slot: 0,
            saved_index: 0,
            saved_count: 0,
            save_name: String::new(),
            settings_index: 0,
            school_picker_open: false,
            term_picker_open: false,
            school_picker: PickerPosition { index: 0, offset: 0 },
            term_picker: PickerPosition { index: 0, offset: 0 },
            school_count: 0,
            term_count: 0,
            theme: ThemePalette::Default,
        }
    }

    /// The saved schedules are loaded: `count` of them, the first selected,
    /// shown in their list.
    pub fn schedules_loaded(&mut self, count: usize)
        ensures
            final(self)@ == (UiView {
                saved_count: count,
                saved_index: 0,
                focus: FocusMode::MySchedules,
                ..old(self)@
            }),
    {
        self.saved_count = count;
        self.saved_index = 0;
        self.focus = FocusMode::MySchedules;
    }

    /// What `settings_enter` gave for the selected entry is carried out.
    pub fn settings_applied(&mut self, step: SettingsStep) -> (r: UiAction)
        ensures
            (final(self)@, r@) == settings_applied_spec(old(self)@, settings_step_view(step)),
    {
        match step {
            SettingsStep::SelectSchool { id, notice } => {
                self.school_id = Some(id);
                self.term_id = None;
                self.school_picker_open = false;
                self.term_count = 0;
                self.notice = Some((notice, ErrorType::Success));
                UiAction::Redraw
            },
            SettingsStep::SelectTerm { id, notice } => {
                self.term_id = Some(id);
                self.term_picker_open = false;
                self.notice = Some((notice, ErrorType::Success));
                UiAction::Redraw
            },
            SettingsStep::OpenSchoolPicker(i) => {
                self.school_picker_open = true;
                self.school_picker = PickerPosition { index: i, offset: self.school_picker.offset };
                UiAction::Redraw
            },
            SettingsStep::OpenTermPicker(i) => {
                self.term_picker_open = true;
                self.term_picker = PickerPosition { index: i, offset: self.term_picker.offset };
                UiAction::Redraw
            },
            SettingsStep::ClosePicker => {
                self.school_picker_open = false;
                self.term_picker_open = false;
                UiAction::Redraw
            },
            SettingsStep::Notice(m, k) => {
                self.notice = Some((m, k));
                UiAction::Redraw
            },
            SettingsStep::Sync => {
                self.notice = Some(("Starting sync...".to_string(), ErrorType::Info));
                UiAction::Sync
            },
            SettingsStep::Nothing => UiAction::Redraw,
        }
    }

    /// The schools and the terms of the selected school are loaded: `schools`
    /// and `terms` of them to pick from.
    pub fn choices_loaded(&mut self, schools: usize, terms: usize)
        ensures
            final(self)@ == (UiView { school_count: schools, term_count: terms, ..old(self)@ }),
    {
        self.school_count = schools;
        self.term_count = terms;
    }

    /// The cart now holds `count` classes; the selection among them stays
    /// on a class (the last, when the selected one is gone).
    pub fn cart_changed(&mut self, count: usize)
        ensures
            final(self)@ == (UiView {
                cart_count: count,
                cart_index: after_removal_spec(old(self)@.cart_index as int, count as int) as usize,
                ..old(self)@
            }),
    {
        self.cart_count = count;
        self.cart_index = after_removal(self.cart_index, count);
    }

    /// The results of a query are in: `count` classes were found.
    pub fn results_loaded(&mut self, count: usize)
        ensures
            final(self)@ == results_loaded_spec(old(self)@, count),
    {
        self.notice = None;
        self.positions = Vec::new();
        self.results_count = count;
        self.grid = GridPosition { selected: 0, scroll: 0 };
    }
}

fn clear_notice(state: &mut UiState)
    ensures
        final(state)@ == cleared(old(state)@),
{
    state.notice = None;
    state.positions = Vec::new();
    assert(final(state)@.positions =~= Seq::<(usize, usize)>::empty());
}

fn guide_from(state: &mut UiState, from: FocusMode)
    ensures
        final(state)@ == open_guide(old(state)@, from),
{
    state.guide_return = from;
    state.focus = FocusMode::QueryGuide;
    state.guide_scroll = 0;
}

fn pop_input(state: &mut UiState)
    ensures
        final(state)@ == (UiView { input: drop_last_char(old(state)@.input), ..old(state)@ }),
{
    state.input = without_last(&state.input);
}

fn ctrl_c(k: KeyPress) -> (b: bool)
    ensures
        b == is_ctrl_c(k),
{
    k.key == UiKey::Char('c') && k.ctrl
}

fn alt_g(k: KeyPress) -> (b: bool)
    ensures
        b == is_alt_g(k),
{
    (k.key == UiKey::Char('g') || k.key == UiKey::Char('G')) && k.alt
}

fn to_nav_key(k: UiKey) -> (r: Option<NavKey>)
    ensures
        r == nav_key(k),
{
    match k {
        UiKey::Up => Some(NavKey::Up),
        UiKey::Down => Some(NavKey::Down),
        UiKey::Left => Some(NavKey::Left),
        UiKey::Right => Some(NavKey::Right),
        UiKey::PageUp => Some(NavKey::PageUp),
        UiKey::PageDown => Some(NavKey::PageDown),
        UiKey::Home => Some(NavKey::Home),
        UiKey::End => Some(NavKey::End),
        _ => None,
    }
}

fn menu_key(state: &mut UiState, k: KeyPress) -> (r: UiAction)
    ensures
        (final(state)@, r@) == menu_step(old(state)@, k),
{
    if ctrl_c(k) || k.key == UiKey::Esc {
        return UiAction::Quit;
    }
    if k.key == UiKey::Up || k.key == UiKey::Down {
        state.menu_index = wrap_move(k.key == UiKey::Up, state.menu_index, MENU_ENTRIES);
        return UiAction::Redraw;
    }
    if k.key != UiKey::Enter {
        return UiAction::Redraw;
    }
    if state.menu_index == 0 {
        state.focus = FocusMode::QueryInput;
        UiAction::Redraw
    } else if state.menu_index == 1 {
        if state.cart_count == 0 {
            state.notice = Some(("Cart is empty! Add classes to cart first.".to_string(), ErrorType::Semantic));
        } else {
            state.focus = FocusMode::ScheduleCreation;
            state.selection_mode = true;
            state.schedule_index = 0;
            state.schedule_count = 0;
            state.cart_index = 0;
        }
        UiAction::Redraw
    } else if state.menu_index == 2 {
        UiAction::LoadSchedules
    } else if state.menu_index == 3 {
        guide_from(state, FocusMode::MainMenu);
        UiAction::Redraw
    } else if state.menu_index == 4 {
        state.focus = FocusMode::Settings;
        UiAction::LoadSettings
    } else if state.menu_index == 5 {
        UiAction::Quit
    } else {
        UiAction::Redraw
    }
}

fn completion_key(state: &mut UiState, k: KeyPress) -> (r: UiAction)
    ensures
        (final(state)@, r@) == completion_step(old(state)@, k),
{
    if k.key == UiKey::Esc {
        state.show_completions = false;
        state.completion_index = None;
        UiAction::Redraw
    } else if k.key == UiKey::Up || k.key == UiKey::Down {
        let i = if state.completion_count == 0 { None } else { state.completion_index };
        state.completion_index = completion_move(k.key == UiKey::Up, i, state.completion_count);
        UiAction::Redraw
    } else if k.key == UiKey::Enter || k.key == UiKey::Tab {
        let chosen = state.completion_index;
        state.show_completions = false;
        state.completion_index = None;
        match chosen {
            Some(i) => UiAction::AcceptCompletion(i),
            None => UiAction::Redraw,
        }
    } else {
        UiAction::Redraw
    }
}

fn query_key(state: &mut UiState, k: KeyPress) -> (r: UiAction)
    ensures
        (final(state)@, r@) == query_step(old(state)@, k),
{
    if ctrl_c(k) {
        return UiAction::Quit;
    }
    if alt_g(k) {
        guide_from(state, FocusMode::QueryInput);
        return UiAction::Redraw;
    }
    match k.key {
        UiKey::Esc => {
            state.focus = FocusMode::MainMenu;
            UiAction::Redraw
        },
        UiKey::Down => {
            if state.results_count > 0 {
                state.focus = FocusMode::ResultsBrowse;
                state.grid = GridPosition { selected: 0, scroll: 0 };
            }
            UiAction::Redraw
        },
        UiKey::Enter => {
            match query_precheck(&state.school_id, &state.term_id) {
                Some(m) => {
                    state.notice = Some((m, ErrorType::Warning));
                    UiAction::Redraw
                },
                None => UiAction::Compile(state.input.clone()),
            }
        },
        UiKey::Backspace => {
            clear_notice(state);
            pop_input(state);
            UiAction::Redraw
        },
        UiKey::Tab => UiAction::Complete,
        UiKey::Char(c) => {
            clear_notice(state);
            string_push(&mut state.input, c);
            UiAction::Redraw
        },
        UiKey::PageUp | UiKey::PageDown => {
            if state.grid.scroll <= usize::MAX - 3 {
                let scroll = results_page(k.key == UiKey::PageUp, state.grid.scroll, state.results_count);
                state.grid = GridPosition { selected: state.grid.selected, scroll };
            }
            UiAction::Redraw
        },
        _ => UiAction::Redraw,
    }
}

fn grid_defined(p: GridPosition, total: usize, visible: usize) -> (b: bool)
    ensures
        b == grid_move_defined(p, total as int, visible as int),
{
    p.selected <= usize::MAX - 3 && p.scroll <= usize::MAX - visible
        && (!(total > visible && p.selected + 3 < total && p.selected + 3 >= p.scroll + visible) || visible >= 3)
        && (!(total > visible && p.selected + 1 < total && p.selected + 1 >= p.scroll + visible) || visible >= 1)
}

fn results_key(state: &mut UiState, k: KeyPress) -> (r: UiAction)
    ensures
        (final(state)@, r@) == results_step(old(state)@, k),
{
    let defined = grid_defined(state.grid, state.results_count, state.visible);
    if ctrl_c(k) {
        return UiAction::Quit;
    }
    if alt_g(k) {
        guide_from(state, FocusMode::ResultsBrowse);
        return UiAction::Redraw;
    }
    match k.key {
        UiKey::Esc => {
            state.focus = FocusMode::MainMenu;
            UiAction::Redraw
        },
        UiKey::Up => {
            match grid_up(state.grid) {
                GridMove::Stay(g) => state.grid = g,
                GridMove::ToQueryInput => state.focus = FocusMode::QueryInput,
            }
            UiAction::Redraw
        },
        UiKey::Down => {
            if defined {
                state.grid = grid_down(state.grid, state.results_count, state.visible);
            }
            UiAction::Redraw
        },
        UiKey::Left => {
            state.grid = grid_left(state.grid);
            UiAction::Redraw
        },
        UiKey::Right => {
            if defined {
                state.grid = grid_right(state.grid, state.results_count, state.visible);
            }
            UiAction::Redraw
        },
        UiKey::Enter => {
            if state.grid.selected < state.results_count {
                state.detail_return = FocusMode::ResultsBrowse;
                state.focus = FocusMode::DetailView;
            }
            UiAction::Redraw
        },
        UiKey::Char(c) => {
            clear_notice(state);
            state.focus = FocusMode::QueryInput;
            string_push(&mut state.input, c);
            UiAction::Redraw
        },
        UiKey::Backspace => {
            clear_notice(state);
            state.focus = FocusMode::QueryInput;
            pop_input(state);
            UiAction::Redraw
        },
        UiKey::Tab => {
            state.focus = FocusMode::QueryInput;
            UiAction::Complete
        },
        _ => UiAction::Redraw,
    }
}

fn detail_key(state: &mut UiState, k: KeyPress) -> (r: UiAction)
    ensures
        (final(state)@, r@) == detail_step(old(state)@, k),
{
    match detail_view_key(k, state.detail_return) {
        DetailStep::Navigate(f) => {
            state.focus = f;
            UiAction::Redraw
        },
        DetailStep::OpenGuide => {
            guide_from(state, FocusMode::DetailView);
            UiAction::Redraw
        },
        DetailStep::ToggleCart => UiAction::ToggleCart,
        DetailStep::Continue => UiAction::Redraw,
    }
}

fn guide_key(state: &mut UiState, k: KeyPress) -> (r: UiAction)
    ensures
        (final(state)@, r@) == guide_step(old(state)@, k),
{
    if k.key == UiKey::Esc || alt_g(k) {
        state.focus = state.guide_return;
        state.guide_scroll = 0;
        return UiAction::Redraw;
    }
    match to_nav_key(k.key) {
        Some(n) => {
            if state.guide_scroll <= usize::MAX - 10 {
                state.guide_scroll = guide_scroll(n, state.guide_scroll, state.guide_max);
            }
            UiAction::Redraw
        },
        None => UiAction::Redraw,
    }
}

fn schedule_key(state: &mut UiState, k: KeyPress) -> (r: UiAction)
    ensures
        (final(state)@, r@) == schedule_step(old(state)@, k),
{
    if ctrl_c(k) {
        return UiAction::Quit;
    }
    if state.selection_mode {
        match k.key {
            UiKey::Esc => {
                state.focus = FocusMode::MainMenu;
                UiAction::Redraw
            },
            UiKey::Up => {
                if state.cart_count > 0 && state.cart_index > 0 {
                    state.cart_index = state.cart_index - 1;
                }
                UiAction::Redraw
            },
            UiKey::Down => {
                if state.cart_count > 0 && state.cart_index < state.cart_count - 1 {
                    state.cart_index = state.cart_index + 1;
                }
                UiAction::Redraw
            },
            UiKey::Enter => UiAction::BuildSchedules,
            _ => UiAction::Redraw,
        }
    } else {
        match k.key {
            UiKey::Esc => {
                if state.detail_return == FocusMode::MySchedules {
                    state.focus = FocusMode::MySchedules;
                } else {
                    state.selection_mode = true;
                    state.schedule_count = 0;
                    state.schedule_index = 0;
                }
                UiAction::Redraw
            },
            UiKey::Up | UiKey::Down | UiKey::Left | UiKey::Right => {
                let n = match to_nav_key(k.key) {
                    Some(n) => n,
                    None => NavKey::Up,
                };
                let (d, t) = calendar_move(n, state.day, state.slot);
                state.day = d;
                state.slot = t;
                UiAction::Redraw
            },
            UiKey::PageUp | UiKey::PageDown => {
                let back = k.key == UiKey::PageUp;
                if state.detail_return == FocusMode::MySchedules {
                    if state.saved_count > 0 {
                        let i = cycle(back, state.saved_index, state.saved_count);
                        state.saved_index = i;
                        state.schedule_index = 0;
                        UiAction::ShowSaved(i)
                    } else {
                        UiAction::Redraw
                    }
                } else {
                    state.schedule_index = cycle(back, state.schedule_index, state.schedule_count);
                    UiAction::Redraw
                }
            },
            UiKey::Char(c) => {
                if (c == 's' || c == 'S') && state.schedule_count > 0 {
                    state.focus = FocusMode::SaveNameInput;
                    state.save_name = String::new();
                }
                UiAction::Redraw
            },
            _ => UiAction::Redraw,
        }
    }
}

fn to_edit_key(k: UiKey) -> (r: EditKey)
    ensures
        r == edit_key(k),
{
    match k {
        UiKey::Char(c) => EditKey::Char(c),
        UiKey::Backspace => EditKey::Backspace,
        UiKey::Enter => EditKey::Enter,
        UiKey::Esc => EditKey::Esc,
        _ => EditKey::Other,
    }
}

fn save_name_input_key(state: &mut UiState, k: KeyPress) -> (r: UiAction)
    ensures
        (final(state)@, r@) == save_name_step(old(state)@, k),
{
    match save_name_key(&mut state.save_name, to_edit_key(k.key), k.ctrl) {
        SaveNameStep::Exit => UiAction::Quit,
        SaveNameStep::Cancel => {
            state.focus = FocusMode::ScheduleCreation;
            UiAction::Redraw
        },
        SaveNameStep::EmptyName => {
            state.notice = Some(("Schedule name cannot be empty!".to_string(), ErrorType::Semantic));
            UiAction::Redraw
        },
        SaveNameStep::Save(n) => UiAction::Save(n),
        SaveNameStep::Continue => UiAction::Redraw,
    }
}

fn saved_key(state: &mut UiState, k: KeyPress) -> (r: UiAction)
    ensures
        (final(state)@, r@) == saved_step(old(state)@, k),
{
    match saved_list_key(k, state.saved_index, state.saved_count) {
        ListStep::Exit => UiAction::Quit,
        ListStep::Navigate(f) => {
            state.focus = f;
            UiAction::Redraw
        },
        ListStep::Moved(i) => {
            state.saved_index = i;
            UiAction::Redraw
        },
        ListStep::Open(i) => {
            state.focus = FocusMode::ScheduleCreation;
            state.selection_mode = false;
            state.detail_return = FocusMode::MySchedules;
            state.schedule_index = 0;
            UiAction::ShowSaved(i)
        },
        ListStep::Delete(i) => UiAction::DeleteSaved(i),
        ListStep::Continue => UiAction::Redraw,
    }
}

fn settings_key(state: &mut UiState, k: KeyPress) -> (r: UiAction)
    ensures
        (final(state)@, r@) == settings_step(old(state)@, k),
{
    if ctrl_c(k) {
        return UiAction::Quit;
    }
    match k.key {
        UiKey::Esc => {
            if state.school_picker_open {
                state.school_picker_open = false;
            } else if state.term_picker_open {
                state.term_picker_open = false;
            } else {
                state.focus = FocusMode::MainMenu;
            }
            UiAction::Redraw
        },
        UiKey::Up | UiKey::Down => {
            let up = k.key == UiKey::Up;
            if state.school_picker_open {
                if state.school_picker.offset <= usize::MAX - PICKER_ROWS {
                    state.school_picker = picker_move(up, state.school_picker, state.school_count);
                }
            } else if state.term_picker_open {
                if state.term_picker.offset <= usize::MAX - PICKER_ROWS {
                    state.term_picker = picker_move(up, state.term_picker, state.term_count);
                }
            } else {
                state.settings_index = settings_move(up, state.settings_index);
            }
            UiAction::Redraw
        },
        UiKey::Left | UiKey::Right => {
            if state.settings_index == 0 {
                state.theme = theme_step(state.theme, k.key == UiKey::Right);
            }
            UiAction::Redraw
        },
        UiKey::Enter => UiAction::SettingsEnter(state.settings_index),
        _ => UiAction::Redraw,
    }
}

fn copy_strings(v: &Vec<String>) -> (r: Vec<String>)
    ensures
        r.deep_view() == v.deep_view(),
{
    let mut r: Vec<String> = Vec::new();
    let mut i: usize = 0;
    while i < v.len()
        invariant
            i <= v.len(),
            r.deep_view() == v.deep_view().subrange(0, i as int),
        decreases v.len() - i,
    {
        let ghost before = r.deep_view();
        r.push(v[i].clone());
        assert(r.deep_view() =~= before.push(v[i as int]@));
        i = i + 1;
        assert(r.deep_view() =~= v.deep_view().subrange(0, i as int));
    }
    assert(v.deep_view().subrange(0, i as int) =~= v.deep_view());
    r
}

fn outcome_apply(state: &mut UiState, c: &Compilation) -> (r: UiAction)
    ensures
        (final(state)@, r@) == outcome_step(old(state)@, c@),
{
    match c {
        Compilation::Ready { sql, params, use_test_db, .. } => {
            clear_notice(state);
            UiAction::Query { sql: sql.clone(), params: copy_strings(params), use_test_db: *use_test_db }
        },
        _ => match compilation_notice(c) {
            Some((m, kind, ps)) => {
                state.notice = Some((m, kind));
                state.positions = ps;
                UiAction::Redraw
            },
            None => UiAction::Redraw,
        },
    }
}

/// One step of the interface: the outcome of the compilation that the
/// previous step asked for, when it came back, otherwise the key `key`.
pub fn ui_step(state: &mut UiState, key: KeyPress, outcome: Option<Compilation>) -> (r: UiAction)
    ensures
        (final(state)@, r@) == ui_step_spec(
            old(state)@,
            key,
            match outcome {
                Some(c) => Some(c@),
                None => None,
            },
        ),
{
    match outcome {
        Some(c) => outcome_apply(state, &c),
        None => match state.focus {
            FocusMode::MainMenu => menu_key(state, key),
            FocusMode::QueryInput | FocusMode::ResultsBrowse => {
                if state.show_completions {
                    completion_key(state, key)
                } else if state.focus == FocusMode::QueryInput {
                    query_key(state, key)
                } else {
                    results_key(state, key)
                }
            },
            FocusMode::DetailView => detail_key(state, key),
            FocusMode::QueryGuide | FocusMode::Help => guide_key(state, key),
            FocusMode::ScheduleCreation => schedule_key(state, key),
            FocusMode::SaveNameInput => save_name_input_key(state, key),
            FocusMode::MySchedules => saved_key(state, key),
            FocusMode::Settings => settings_key(state, key),
        },
    }
}

} // verus!
