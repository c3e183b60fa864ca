//! Control plane of a local helper that runs beside the Darktide game client.
//!
//! The helper answers a small set of HTTP requests on the local machine:
//! it reports whether a process is running, starts a restricted set of
//! auxiliary executables, stops processes that it started itself, and ends
//! when the game ends. This crate holds the decisions behind that surface,
//! each with a machine-checked contract; sockets, files and the operating
//! system's process calls are left to the program built around it.

pub mod allow_list;
pub mod command;
pub mod config;
pub mod dispatch;
pub mod file_info;
pub mod files;
pub mod gateway;
pub mod instance;
pub mod process_running;
pub mod processes;
pub mod query;
pub mod registry;
pub mod reply;
pub mod response;
pub mod termination;
pub mod text;
pub mod watchdog;
