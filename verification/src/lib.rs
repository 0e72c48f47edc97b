//! Module graph and specifier rewriting for an on-demand development server.
//!
//! The graph is built once from a dependency descriptor and then only read.
//! Rewriting turns every import string of a module into a path that the server
//! can serve.
pub mod api;
pub mod deno;
pub mod encoding;
pub mod graph;
pub mod model;
pub mod npm;
pub mod paths;
pub mod specifier;
pub mod text;
pub mod transpiler;
