//! Terminal-interface support: errors, interface state, themes and saved
//! schedules.
pub mod errors;
pub mod state;
pub mod themes;
pub mod save;
pub mod nav;
pub mod step;
