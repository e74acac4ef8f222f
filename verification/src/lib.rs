//! Command-dispatch core: a registry that routes (plugin name, command code)
//! pairs to handlers, decodes and encodes typed payloads at the boundary, and
//! funnels every failure into one shared error taxonomy.

pub mod codec;
pub mod error;
pub mod table;
pub mod handler;
pub mod state;
pub mod plugin;
pub mod dispatcher;
pub mod document;
pub mod folder;
