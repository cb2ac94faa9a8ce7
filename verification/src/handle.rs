use vstd::prelude::*;

use crate::asset::Asset;

verus! {

/// The lifecycle state of one requested asset, as specifications see it.
///
/// A handle starts `Unloaded`, and a call to the manager's load operation
/// moves it at most once to either `Loaded` (recording the slot of the stored
/// value) or `Failed` (recording the path and the captured error); it never
/// reverts.
pub enum HandleView<E> {
    /// Not yet loaded; `path` is the source path given at construction.
    Unloaded { path: Seq<char> },
    /// Successfully materialized; `slot` indexes the manager's storage.
    Loaded { slot: int },
    /// A load was attempted for `path` and failed with `error`.
    Failed { path: Seq<char>, error: E },
}

impl<E> HandleView<E> {
    /// The source path of a handle that has not reached `Loaded`.
    pub open spec fn path(self) -> Seq<char> {
        match self {
            HandleView::Unloaded { path } => path,
            HandleView::Failed { path, .. } => path,
            HandleView::Loaded { .. } => arbitrary(),
        }
    }

    /// The storage slot of a `Loaded` handle.
    pub open spec fn slot(self) -> int {
        match self {
            HandleView::Loaded { slot } => slot,
            _ => arbitrary(),
        }
    }

    /// The captured error of a `Failed` handle.
    pub open spec fn error(self) -> E {
        match self {
            HandleView::Failed { error, .. } => error,
            _ => arbitrary(),
        }
    }
}

/// Handle equality as the specifications state it: two `Loaded` handles are
/// equal iff they name the same slot; two `Unloaded` or two `Failed` handles
/// are equal iff they name the same path (the error payload is not compared);
/// handles in different states are never equal.
pub open spec fn state_eq<E>(a: HandleView<E>, b: HandleView<E>) -> bool {
    match (a, b) {
        (HandleView::Loaded { slot: s1 }, HandleView::Loaded { slot: s2 }) => s1 == s2,
        (HandleView::Unloaded { path: p1 }, HandleView::Unloaded { path: p2 }) => p1 == p2,
        (HandleView::Failed { path: p1, .. }, HandleView::Failed { path: p2, .. }) => p1 == p2,
        _ => false,
    }
}

pub(crate) enum AssetState<E> {
    Unloaded(String),
    Loaded(usize),
    Failed(String, E),
}

/// A handle to an asset of type `T`, used with an [`AssetManager<T>`].
///
/// A handle identifies one requested asset by its source path and records how
/// far it has progressed toward being loaded; it never holds the asset value
/// itself, so it can be duplicated and moved across thread boundaries
/// independently of the asset type — only the path and, after a failure, the
/// error value travel with it. Its view ([`HandleView`]) is what contracts
/// speak of.
///
/// [`AssetManager<T>`]: crate::manager::AssetManager
pub struct AssetHandle<T: Asset> {
    pub(crate) state: AssetState<T::Error>,
}

impl<T: Asset> View for AssetHandle<T> {
    type V = HandleView<T::Error>;

    closed spec fn view(&self) -> HandleView<T::Error> {
        match self.state {
            AssetState::Unloaded(p) => HandleView::Unloaded { path: p@ },
            AssetState::Loaded(i) => HandleView::Loaded { slot: i as int },
            AssetState::Failed(p, e) => HandleView::Failed { path: p@, error: e },
        }
    }
}

impl<T: Asset> AssetHandle<T> {
    /// Creates a new handle for an unloaded asset. Construction always
    /// succeeds; even a path that cannot be loaded is accepted, and failure is
    /// deferred to load time.
    pub fn new(path: &str) -> (h: Self)
        ensures
            h@ == (HandleView::<T::Error>::Unloaded { path: path@ }),
    {
        AssetHandle { state: AssetState::Unloaded(path.to_owned()) }
    }

    /// Returns the path to the asset while it is unloaded or failed; returns
    /// `None` once it is loaded (the slot, not the path, then identifies it).
    pub fn path(&self) -> (r: Option<&str>)
        ensures
            match r {
                Some(p) => !(self@ is Loaded) && p@ == self@.path(),
                None => self@ is Loaded,
            },
    {
        match &self.state {
            AssetState::Unloaded(p) => Some(p.as_str()),
            AssetState::Failed(p, _) => Some(p.as_str()),
            AssetState::Loaded(_) => None,
        }
    }

    /// Returns true if the asset has not been loaded yet.
    pub fn is_unloaded(&self) -> (r: bool)
        ensures
            r == (self@ is Unloaded),
    {
        matches!(self.state, AssetState::Unloaded(_))
    }

    /// Returns true if the asset has been successfully loaded.
    pub fn is_loaded(&self) -> (r: bool)
        ensures
            r == (self@ is Loaded),
    {
        matches!(self.state, AssetState::Loaded(_))
    }

    /// Returns true if the asset previously failed to load.
    pub fn is_err(&self) -> (r: bool)
        ensures
            r == (self@ is Failed),
    {
        matches!(self.state, AssetState::Failed(_, _))
    }

    /// The storage slot, if this handle is loaded.
    pub(crate) fn loaded_slot(&self) -> (r: Option<usize>)
        ensures
            match r {
                Some(i) => self@ is Loaded && i as int == self@.slot(),
                None => !(self@ is Loaded),
            },
    {
        match &self.state {
            AssetState::Loaded(i) => Some(*i),
            _ => None,
        }
    }

    /// The source path, if this handle is still unloaded.
    pub(crate) fn unloaded_path(&self) -> (r: Option<&String>)
        ensures
            match r {
                Some(p) => self@ is Unloaded && p@ == self@.path(),
                None => !(self@ is Unloaded),
            },
    {
        match &self.state {
            AssetState::Unloaded(p) => Some(p),
            _ => None,
        }
    }

    /// Moves this handle to `Loaded(slot)`.
    pub(crate) fn set_loaded(&mut self, slot: usize)
        ensures
            final(self)@ == (HandleView::<T::Error>::Loaded { slot: slot as int }),
    {
        self.state = AssetState::Loaded(slot);
    }

    /// Moves this handle to `Failed(path, error)`.
    pub(crate) fn set_failed(&mut self, path: String, error: T::Error)
        ensures
            final(self)@ == (HandleView::<T::Error>::Failed { path: path@, error: error }),
    {
        self.state = AssetState::Failed(path, error);
    }

    /// The captured error of a handle that failed to load.
    pub(crate) fn failed_error(&self) -> (r: &T::Error)
        requires
            self@ is Failed,
        ensures
            *r == self@.error(),
    {
        match &self.state {
            AssetState::Failed(_, e) => e,
            _ => unreached(),
        }
    }
}

impl<T: Asset> PartialEq for AssetHandle<T> {
    fn eq(&self, other: &Self) -> (r: bool) {
        match (&self.state, &other.state) {
            (AssetState::Loaded(i1), AssetState::Loaded(i2)) => i1 == i2,
            (AssetState::Unloaded(p1), AssetState::Unloaded(p2)) => *p1 == *p2,
            (AssetState::Failed(p1, _), AssetState::Failed(p2, _)) => *p1 == *p2,
            _ => false,
        }
    }
}

impl<T: Asset> vstd::std_specs::cmp::PartialEqSpecImpl for AssetHandle<T> {
    open spec fn obeys_eq_spec() -> bool {
        true
    }

    open spec fn eq_spec(&self, other: &Self) -> bool {
        state_eq(self@, other@)
    }
}

impl<T: Asset> Eq for AssetHandle<T> {

}

impl<T: Asset> Clone for AssetHandle<T> where T::Error: Clone {
    /// Duplicates the handle. The copy is in the same lifecycle state: a
    /// loaded or unloaded handle is duplicated exactly, and a failed handle
    /// keeps its path while its error payload is whatever the error type's
    /// own `clone` produces. Either way the copy compares equal to the
    /// original, since equality never inspects the error payload.
    fn clone(&self) -> (r: Self)
        ensures
            state_eq(r@, self@),
            !(self@ is Failed) ==> r@ == self@,
            self@ is Failed ==> (r@ matches HandleView::Failed { path, error }
                && path == self@.path() && cloned::<T::Error>(self@.error(), error)),
    {
        AssetHandle {
            state: match &self.state {
                AssetState::Loaded(i) => AssetState::Loaded(*i),
                AssetState::Unloaded(p) => AssetState::Unloaded(p.clone()),
                AssetState::Failed(p, e) => AssetState::Failed(p.clone(), e.clone()),
            },
        }
    }
}

} // verus!
