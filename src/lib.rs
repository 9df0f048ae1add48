//! Session aggregation and the interactive state machine behind a terminal
//! dashboard for multiplexer sessions, local and on remote hosts.

pub mod app;
pub mod cli;
pub mod clock;
pub mod editor;
pub mod entries;
pub mod hosts;
pub mod query;
pub mod session;
pub mod style;
pub mod text;
