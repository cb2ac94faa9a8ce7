//! A deduplicating, lazily loading cache for assets materialized from
//! filesystem-style paths.
//!
//! Callers describe how a value of their asset type is produced from a path by
//! implementing the [`Asset`] capability trait. The cache itself consists of
//! two pieces:
//!
//! - [`AssetHandle`]: a lightweight token identifying one requested asset by
//!   its source path and tracking how far it has progressed toward being
//!   loaded (unloaded / loaded at a slot / failed). A handle never stores the
//!   asset value itself.
//! - [`AssetManager`]: the owning cache. It keeps an append-only store of
//!   loaded values together with a path-to-slot index used to deduplicate, so
//!   that many handles for the same path alias one physical loaded value.
//!
//! Successful loads are memoized per path; failures are memoized only on the
//! handle that observed them, so a fresh handle for the same path retries.

pub mod asset;
pub mod handle;
pub mod manager;

pub use asset::Asset;
pub use handle::AssetHandle;
pub use handle::HandleView;
pub use manager::AssetManager;
pub use manager::ManagerView;
