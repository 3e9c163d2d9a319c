//! A minimal static file server's request pipeline: mapping a request path to a
//! file under the static root, choosing the reply for what the file lookup found,
//! and the access-log record kept for each exchange.
mod text;
pub mod mime;
pub mod resolve;
pub mod response;
pub mod access_log;
pub mod config;
pub mod laws;
