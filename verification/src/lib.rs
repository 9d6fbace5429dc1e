//! Requirement models, merge rules and reconcile decisions for three TOML
//! configuration files: `deny.toml`, `rust-toolchain.toml` and `rustfmt.toml`.

pub mod text;
pub mod text_order;
pub mod deny_values;
pub mod deny_text;
pub mod deny_confidence;
pub mod deny_items;
pub mod deny_table;
pub mod requirements;
pub mod scalar_value;
pub mod scalar_merge;
pub mod lists;
pub mod items;
pub mod columns;
pub mod deny_model;
pub mod deny_merge;
pub mod settings;
pub mod toolchain_values;
pub mod toolchain_model;
pub mod rustfmt_model;
pub mod globs;
pub mod toml_doc;
pub mod toml_io;
pub mod deny_scalars;
pub mod deny_scalar_edit;
pub mod deny_fields;
pub mod toml_entries;
pub mod deny_entries;
pub mod deny_item_apply;
pub mod deny_item_fields;
pub mod deny_scalar_fields;
pub mod deny_lists;
pub mod deny_list_fields;
pub mod deny_exact;
pub mod deny_engine;
pub mod toolchain_checks;
pub mod toolchain_fields;
pub mod toolchain_table;
pub mod toolchain_close;
pub mod toolchain_file;
pub mod toolchain_lists;
pub mod toolchain_engine;
pub mod findings;
pub mod rustfmt_reconcile;
pub mod rustfmt_merge;
pub mod rustfmt_engine;
pub mod laws;
