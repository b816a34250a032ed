# steampipe-forge

Generates the Go sources of a Steampipe plugin (table definitions,
`plugin.go`, test stubs) from a description of a provider's resources and
data sources, verified with Verus.

- `src/model.rs` — the entities the generators read.
- `src/naming.rs` — case conventions (`snake_case`, `PascalCase`, lowercasing).
- `src/escape.rs` — Go string-literal escaping, with its round-trip law.
- `src/column.rs` — Steampipe column types.
- `src/table_gen.rs` — the Go templates, each specified by the exact text it emits.
- `src/backend.rs` — artifact paths, naming convention, and the backend's artifacts.
- `app/` — the `iac_forge` integration: trait impls and IR conversion.
