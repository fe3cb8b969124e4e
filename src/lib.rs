//! Calendar-to-board mapping and request validation for the
//! "a puzzle a day" calendar puzzle.
//!
//! The library turns a date (month, day of month and, for one board layout,
//! day of week) into the grid cells that must stay uncovered on the board,
//! checks which options each board layout accepts, and lays out the text that
//! reports the solver's answers.
pub mod grid;
pub mod names;
pub mod variant;
pub mod request;
pub mod report;
