//! A PlanetScale context server for the Zed editor: a dispatcher that answers
//! newline-delimited JSON calls of four database operations, the stand-in
//! service behind them, and the decisions of the editor extensions that
//! start it.
pub mod json;
pub mod text;
pub mod service;
pub mod message;
pub mod dispatch;
pub mod capabilities;
pub mod session;
pub mod slash_commands;
pub mod extension;
