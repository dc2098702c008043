//! Course data: where the database lives, the sync server's settings, and
//! the records read from the database.
pub mod pool;
pub mod sync;
pub mod sql;
pub mod clock;
pub mod display;
