//! View-angle dependent sprite sheets: a registry keyed by actor, action and
//! angle, the rules that fill it, and the rules that pick a sheet from it.

pub mod actor;
pub mod angle;
pub mod ident;
pub mod laws;
pub mod plugin;
pub mod registry;
pub mod resolve;
pub mod schema;
pub mod sheet;
