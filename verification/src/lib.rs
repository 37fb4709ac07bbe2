//! A chat bot for Twitch, as a library that decides and never acts.
//!
//! The library keeps a credential valid (`twitch::oauth`), resolves identifiers
//! and sends messages through the REST interface (`twitch::helix`), and delivers
//! messages over a streaming connection with the REST interface as its fallback
//! (`twitch::client`). Around that core it reads chat commands (`commands`),
//! welcomes first-time chatters (`users`) and settles what a run of the program
//! has to do (`cli`, `config`, `session`).
//!
//! Nothing in it sends, waits, reads a clock or touches a file. An operation that
//! needs the outside world is a step function: the caller says what happened
//! last, and is told what to do next. Every such function is specified by a
//! function of the same shape over the views of its arguments, and the laws that
//! the operations obey are proved about those.

pub mod cli;
pub mod commands;
pub mod config;
pub mod http;
pub mod json;
pub mod message;
pub mod random;
pub mod session;
pub mod text;
pub mod twitch;
pub mod users;
