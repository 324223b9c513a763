//! A personal, namespaced key/value store: key addressing, the entries
//! table and its upsert semantics, and the rendering of stored values.

pub mod key;
pub mod render;
pub mod store;
pub mod sync_mode;
