//! Item namespace of the Fe analyzer: named items, the interned data behind
//! their ids, the queries that answer questions about them, and the lowering
//! of expressions that runs before code generation.

pub mod ast;
pub mod files;
pub mod diagnostics;
pub mod sink;
pub mod builtins;
pub mod types;
pub mod items;
pub mod index_map;
pub mod deps;
pub mod db;
pub mod context;
pub mod lowering;
