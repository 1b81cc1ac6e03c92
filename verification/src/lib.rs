//! A registry of tool servers, the catalogue of the tools they offer and the
//! dispatch of tool calls to them.
//!
//! The library holds the decisions: which configuration may be started, what
//! the registry contains after each step, which tools a listing yields and
//! which of them have a usable input schema. Spawning processes and talking to
//! a server are left to the caller, who hands the outcome of each such step
//! back to the functions here.

pub mod catalog;
pub mod config;
pub mod dispatch;
pub mod json;
pub mod error;
pub mod manager;
pub mod registry;
pub mod schema;
pub mod text;
pub mod tool;
