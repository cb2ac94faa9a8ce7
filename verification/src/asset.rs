use vstd::prelude::*;

verus! {

/// Caller-supplied capability describing how a value of the implementing type
/// is produced from a path.
///
/// One implementation exists per asset kind; the cache invokes it at most once
/// per distinct path that ever loads successfully (per [`AssetManager`]
/// instance), and once per attempt for paths that keep failing.
///
/// [`AssetManager`]: crate::manager::AssetManager
pub trait Asset: Sized {
    /// Additional context required to perform a load. For assets that can be
    /// loaded without extra context this can be `()`.
    type Resources;

    /// The value describing why a load failed. The cache treats it as a fully
    /// opaque payload.
    type Error;

    /// Produces an asset value from the given path, or an error explaining why
    /// it could not be produced.
    ///
    /// The cache assumes nothing about this operation; whatever its
    /// implementation ensures is what callers of the cache may rely on for
    /// the values the cache hands back.
    fn load(path: &str, resources: &Self::Resources) -> Result<Self, Self::Error>;
}

} // verus!
