//! Interface states.
use vstd::prelude::*;

verus! {

/// What a notice reports: an error of a stage, or a warning, information
/// or success.
#[derive(Debug, Clone, Copy, PartialEq, Eq, Structural)]
pub enum ErrorType {
    Lexer,
    Parser,
    Semantic,
    Warning,
    Info,
    Success,
}

/// Which part of the interface has the keyboard focus.
#[derive(Debug, Clone, Copy, PartialEq, Eq, Structural)]
pub enum FocusMode {
    MainMenu,
    QueryInput,
    ResultsBrowse,
    DetailView,
    Settings,
    QueryGuide,
    Help,
    ScheduleCreation,
    MySchedules,
    SaveNameInput,
}

} // verus!
