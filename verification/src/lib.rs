//! A small catalogue of classic design patterns, each verified:
//! an undoable-command log in three representations, a strategy example
//! wired together by dependency injection, a masking newtype, and a
//! guard that releases a connection.

pub mod command;
pub mod decimal;
pub mod newtype;
pub mod raii_guard;
pub mod strategy_di;
