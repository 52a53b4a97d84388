//! Decision, parsing and formatting core of a heap tracing command line tool.

pub mod text;
pub mod number;
pub mod config;
pub mod args;
pub mod args_laws;
pub mod record;
pub mod replay_text;
pub mod record_text;
pub mod keys;
pub mod replay;
pub mod replay_laws;
pub mod record_laws;
pub mod timeline_laws;
pub mod snapshot;
pub mod classify;
pub mod registers;
pub mod stop_text;
pub mod stop_laws;
pub mod panes;
pub mod event;
pub mod breaks;
pub mod search;
pub mod live;
pub mod live_app;
pub mod live_update;
pub mod live_text;
pub mod live_keys;
pub mod live_laws;
pub mod command_laws;
pub mod update_laws;
pub mod screen;
pub mod arena;
pub mod print_text;
pub mod screen_laws;
pub mod views;
pub mod views_laws;
pub mod session;
pub mod worker;
pub mod session_laws;
pub mod word_laws;
