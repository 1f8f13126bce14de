//! Per-connection protocol engine: the binary frame codec, the command table,
//! the task registry kept by a connection session, and the decisions made by
//! request handlers and the background tasks they start.

pub mod packet;
pub mod cmd_id;
pub mod command;
pub mod message;
pub mod session;
pub mod task;
pub mod handler;
pub mod config;
