//! Column-family registry of the storage engine: the fixed set of column
//! families, their classification, name resolution, and the mode-dependent
//! translation of raw-KV column-family names.

pub mod cf_defs;
pub mod cf_lemmas;
