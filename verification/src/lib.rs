//! vpm turns a small vocabulary of package-management commands into
//! invocations of the XBPS tools and shows what those tools print.
//!
//! The library decides and formats; it starts no process and prints nothing.
//! [`commands::translate`] gives the invocations of a command,
//! [`commands::run`] and [`commands::dispatch::Dispatch::advance`] lead a
//! caller through them one at a time, [`commands::wrap_command`] and
//! [`commands::listing`] turn captured output into the lines to print.

pub mod arguments;
pub mod commands;
pub mod config;
pub mod style;
pub mod text;
