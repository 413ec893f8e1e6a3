# clickhouse_datafusion

ClickHouse dictionaries and functions for DataFusion. The library's own
logic is verified by Verus against its contracts; what DataFusion, Arrow and
`datafusion-federation` compute, and what user-implemented rules and function
mappers answer, is taken from trusted declarations, which the doc comments in
`src/` name.

- `src/` is the verified library:
  - `names` — maps and sets keyed by names, in insertion order;
  - `dictionary` — dictionary layouts and metadata, the schema of a
    dictionary, the tables of a dictionary schema;
  - `dictget` — the return type of `dictGet` from its arguments, and its errors;
  - `aggregates` — `argMax`;
  - `context` — the dictionary schema map of a session extension, function
    aliases, and which aliases a session gets;
  - `federation` — whether a session is federated, how it is rebuilt for
    federation, and the provider that rewrites plans for ClickHouse (rules,
    folded over the plan in order, then function dealiasing);
  - `signature` — the signatures of the library's functions;
  - `arrow`, `text` — the Arrow constructors the library calls, and decimal
    rendering;
  - `laws` — properties that relate several operations.
- `app/` implements DataFusion's traits (functions, catalogs, tables) on top
  of the library and registers the functions into a `SessionContext`.
- `tests/` runs the library on concrete values.
