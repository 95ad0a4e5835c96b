//! A terminal chat client's verified core: the text helpers, the
//! completion request/response exchange, the startup credential validation
//! and the single-turn session state machine.
pub mod completion;
pub mod config;
pub mod session;
pub mod text;
