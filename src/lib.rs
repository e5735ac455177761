//! Core of an interactive system-resource dashboard: the view and selection
//! state machine, the process table engine, the metrics history windows and
//! the text helpers that the dashboard's panels are built from.

pub mod app;
pub mod history;
pub mod input;
pub mod levels;
pub mod process_table;
pub mod selection;
pub mod simulate;
pub mod sys_info;
pub mod text;
pub mod view;
