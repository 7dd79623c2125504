# fe_items

The item namespace of the Fe analyzer, verified with Verus.

- `src/items.rs`: the named items (`Item`, `TypeDef`, `Class`) and the ids of
  ingots, modules, constants, type aliases, contracts, fields, functions,
  structs and events, with the queries on them: names, spans, parents,
  paths, name resolution, types, diagnostics and dependency graphs.
- `src/db.rs`: the analyzer database, one table per kind of id, each entry
  holding the interned data and the results computed for it.
- `src/index_map.rs`, `src/deps.rs`: the name maps (`indexmap`) and the
  dependency graphs (`petgraph`) the queries read, behind trusted wrappers.
- `src/lowering.rs`: lowering of expressions before code generation.
- `src/ast.rs`, `src/types.rs`, `src/builtins.rs`, `src/diagnostics.rs`,
  `src/sink.rs`, `src/context.rs`, `src/files.rs`: the syntax, types,
  built-ins and diagnostics these read and produce.
- `app/lib.rs`: helpers that take closures and iterators.
