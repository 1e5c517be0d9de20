//! Client-side logic of a command-line tool for a learning-management-system
//! REST API: command dispatch, request construction, projection of course and
//! assignment records, and the three-stage file submission workflow.
//!
//! The crate performs no I/O. Every network call is described by a
//! [`transport::Request`] value that the caller sends, and every piece of
//! persisted state is handed in and out as a plain value.

pub mod command;
pub mod config;
pub mod data;
pub mod fetch;
pub mod help;
pub mod session;
pub mod table;
pub mod text;
pub mod transport;
pub mod workflow;

pub use crate::config::Config;
