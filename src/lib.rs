//! A small in-memory bill tracker: a store of named amounts and the
//! decision logic of the interactive menu that drives it.

pub mod menu;
pub mod shell;
pub mod store;
pub mod text;
