//! Bootstrap and bridge logic of a desktop front-end for the `luau-format`
//! command-line formatter: which arguments the formatter is started with, how
//! its outcome is read, how the tool is acquired on first start, and how the
//! render loop reacts to the user and to finished background work.

pub mod app;
pub mod bootstrap;
pub mod cell;
pub mod options;
pub mod outcome;
