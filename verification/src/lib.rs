//! The decision core of a proxy between MCP clients that speak streamable HTTP
//! and MCP servers that speak over stdio.

pub mod child;
pub mod clap_args;
pub mod cli;
pub mod decimal;
pub mod error;
pub mod keep_alive;
pub mod line;
pub mod once;
pub mod options;
pub mod proxy;
pub mod serve;
pub mod session;
pub mod shutdown;
pub mod stderr;
