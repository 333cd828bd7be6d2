//! The engine of a terminal to-do manager: a registry of reference-counted
//! entities, lists with a selection cursor, a navigation stack, a modal
//! line editor, an edit ledger, and deferred actions applied to all of them.

pub mod app;
pub mod content;
pub mod input;
pub mod register;
pub mod service;
pub mod stack;
pub mod traits;
