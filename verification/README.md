# aqc_toml_engines

Requirement models, merge rules and reconcile engines for three TOML
configuration files: `deny.toml` (cargo-deny), `rust-toolchain.toml` and
`rustfmt.toml`.

Policies state requirements of a file: scalar assertions (`Equals`, `OneOf`,
`Present`, `Absent`, ordered bounds), list requirements (values contained,
excluded, or an exact list), item requirements, and whether the file is
closed to keys no requirement names. Merging the requirements of several
policies either resolves each setting or reports a conflict naming the
policies. Reconciling a file's bytes with merged requirements gives the
bytes the file should hold and the findings that explain each difference.

The library under `src/` is verified with Verus. Documents are parsed,
edited and rendered by `toml_edit`; the library sees a document through the
plain view of the item at each key path and the order of each table's keys,
and states what each edit does to them. Edits go only into standard
tables: a field whose table is an inline table (or another value) is
reported as unwritable rather than edited. Array settings whose entries are
strings, inline tables or tables (`bans.allow`, `licenses.clarify`, ...) are
read entry by entry and rebuilt only when a required item is missing, does
not satisfy its requirement, or is written in a form that is no longer
canonical. Globs are built and matched by `globset`; a glob that does not parse, or
whose pattern is too large to compile, is reported as an invalid requirement.

`app/` holds the serde forms of requirement values, converted to and from
the library's types.
