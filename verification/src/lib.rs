//! Resolution of the in-memory object layout of a V8 engine hosted by a
//! running process: the engine version, the catalogue of layout facts the
//! engine publishes as debug symbols, and the version-gated rules that
//! derive the facts it does not publish.

pub mod backfill;
pub mod catalogue;
pub mod layout;
pub mod outcomes;
pub mod probe;
pub mod spy;
pub mod version;

pub use spy::V8Spy;
pub use version::v8_ver;
