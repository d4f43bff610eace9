//! A line-delimited JSON-RPC server core: a fixed dispatch table over a
//! static set of tools, resources and prompts, with every handler verified
//! against a mathematical model of the JSON values it reads and builds.

pub mod doubles;
pub mod json;
pub mod laws;
pub mod server;
pub mod text;
pub mod types;
