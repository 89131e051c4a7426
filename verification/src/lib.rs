//! Core of a chat bot built around interactive command sessions.
//!
//! A slash command may open a long-lived, paginated response whose
//! navigation buttons feed events back through a process-wide router.
//! This crate holds the verified heart of that mechanism: the pagination
//! state machine, the session registry, the event router, the command
//! dispatch table, and the pure text logic of the individual commands.
//! The platform client, the HTTP calls and the event loop live outside,
//! in ordinary code that drives these functions.

pub mod action;
pub mod chat;
pub mod dispatch;
pub mod help;
pub mod random;
pub mod registry;
pub mod router;
pub mod say_hi;
pub mod session;
pub mod text;
pub mod util;
