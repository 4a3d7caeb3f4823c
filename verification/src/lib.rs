//! Terminal countdown timer core: duration/clock-time parsing, the
//! countdown/count-up state machine with pause/resume semantics, and the
//! event-driven control step that drives a live display.
pub mod control;
pub mod font;
pub mod time_parser;
pub mod timer;
pub mod ui;
