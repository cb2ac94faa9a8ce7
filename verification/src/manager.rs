use vstd::prelude::*;

use crate::asset::Asset;
use crate::handle::AssetHandle;
use crate::handle::state_eq;
use crate::handle::HandleView;

verus! {

/// A cache of loaded assets of type `T`, as specifications see it.
pub struct ManagerView<T> {
    /// The append-only storage of loaded values; the index of a value is its
    /// slot.
    pub assets: Seq<T>,
    /// The deduplication index: each successfully loaded path maps to the
    /// slot holding its value.
    pub paths: Map<Seq<char>, int>,
}

/// A deduplicating, lazily loading cache for assets of type `T`.
///
/// The manager owns the single source of truth for loaded asset values: an
/// append-only store indexed by slot, plus a path-to-slot index that
/// deduplicates loads by path.
pub struct AssetManager<T: Asset> {
    assets: Vec<T>,
    paths: Vec<(String, usize)>,
}

impl<T: Asset> View for AssetManager<T> {
    type V = ManagerView<T>;

    closed spec fn view(&self) -> ManagerView<T> {
        ManagerView { assets: self.assets@, paths: paths_map(self.paths@) }
    }
}

/// The path index as a map: later entries shadow earlier ones (the manager
/// never records the same path twice, so in practice each path occurs once).
spec fn paths_map(s: Seq<(String, usize)>) -> Map<Seq<char>, int>
    decreases s.len(),
{
    if s.len() == 0 {
        Map::empty()
    } else {
        paths_map(s.drop_last()).insert(s.last().0@, s.last().1 as int)
    }
}

proof fn lemma_paths_map_contains(s: Seq<(String, usize)>, key: Seq<char>)
    ensures
        paths_map(s).contains_key(key) <==> exists|k: int| 0 <= k < s.len() && s[k].0@ == key,
    decreases s.len(),
{
    if s.len() > 0 {
        lemma_paths_map_contains(s.drop_last(), key);
        if s.last().0@ == key {
            assert(s[s.len() - 1].0@ == key);
        } else if paths_map(s).contains_key(key) {
            let k = choose|k: int| 0 <= k < s.drop_last().len() && s.drop_last()[k].0@ == key;
            assert(s[k].0@ == key);
        } else if exists|k: int| 0 <= k < s.len() && s[k].0@ == key {
            let k = choose|k: int| 0 <= k < s.len() && s[k].0@ == key;
            assert(s.drop_last()[k].0@ == key);
        }
    }
}

proof fn lemma_paths_map_last_occurrence(s: Seq<(String, usize)>, j: int)
    requires
        0 <= j < s.len(),
        forall|k: int| j < k < s.len() ==> s[k].0@ != s[j].0@,
    ensures
        paths_map(s).contains_key(s[j].0@),
        paths_map(s)[s[j].0@] == s[j].1 as int,
    decreases s.len(),
{
    if j < s.len() - 1 {
        assert(s.drop_last()[j] == s[j]);
        lemma_paths_map_last_occurrence(s.drop_last(), j);
    }
}

proof fn lemma_paths_map_push(s: Seq<(String, usize)>, pair: (String, usize))
    ensures
        paths_map(s.push(pair)) == paths_map(s).insert(pair.0@, pair.1 as int),
{
    assert(s.push(pair).drop_last() =~= s);
    assert(s.push(pair).last() == pair);
}

impl<T: Asset> AssetManager<T> {
    /// Well-formedness: every slot recorded in the path index is a valid
    /// index into the storage.
    pub open spec fn wf(&self) -> bool {
        forall|p: Seq<char>|
            #[trigger] self@.paths.contains_key(p) ==> 0 <= self@.paths[p] < self@.assets.len()
    }

    /// Creates a new `AssetManager<T>` with no loaded assets.
    pub fn new() -> (m: Self)
        ensures
            m.wf(),
            m@.assets == Seq::<T>::empty(),
            m@.paths == Map::<Seq<char>, int>::empty(),
    {
        Self::default()
    }

    /// Looks the given path up in the deduplication index.
    fn find_slot(&self, path: &String) -> (r: Option<usize>)
        ensures
            match r {
                Some(i) => self@.paths.contains_key(path@) && self@.paths[path@] == i as int,
                None => !self@.paths.contains_key(path@),
            },
    {
        let mut j: usize = self.paths.len();
        while j > 0
            invariant
                j <= self.paths.len(),
                forall|k: int| j <= k < self.paths@.len() ==> self.paths@[k].0@ != path@,
            decreases j,
        {
            j = j - 1;
            if self.paths[j].0 == *path {
                proof {
                    lemma_paths_map_last_occurrence(self.paths@, j as int);
                }
                return Some(self.paths[j].1);
            }
        }
        proof {
            lemma_paths_map_contains(self.paths@, path@);
        }
        None
    }

    /// What `get` returns: the stored value at the handle's slot iff the
    /// handle is loaded, and nothing otherwise.
    pub open spec fn spec_get(self, handle: AssetHandle<T>) -> Option<T> {
        if handle@ is Loaded {
            Some(self@.assets[handle@.slot()])
        } else {
            None
        }
    }

    /// Returns a reference to the loaded asset a handle refers to, or `None`
    /// while the handle is unloaded or failed. Never triggers a load and has
    /// no side effect.
    ///
    /// A loaded handle is only meaningful relative to the manager that
    /// resolved it; the caller brings the handle back to that manager, where
    /// its slot is always in range (`load` ensures it, and storage never
    /// shrinks).
    pub fn get(&self, handle: &AssetHandle<T>) -> (r: Option<&T>)
        requires
            handle@ is Loaded ==> 0 <= handle@.slot() < self@.assets.len(),
        ensures
            match r {
                Some(v) => handle@ is Loaded && *v == self@.assets[handle@.slot()],
                None => !(handle@ is Loaded),
            },
            self.spec_get(*handle) == match r {
                Some(v) => Some(*v),
                None => None::<T>,
            },
    {
        match handle.loaded_slot() {
            Some(idx) => Some(&self.assets[idx]),
            None => None,
        }
    }

    /// Attempts to load the asset a handle refers to, updating the handle.
    ///
    /// A handle that is already loaded, or whose load already failed, is left
    /// untouched and the call returns `Ok` at once — a remembered failure is
    /// not retried through the same handle. An unloaded handle whose path is
    /// already in the deduplication index is pointed at the existing slot
    /// without invoking the loader. Otherwise the [`Asset::load`] capability
    /// runs: on success the value is appended to storage, the path is
    /// recorded in the index, and the handle becomes loaded; on failure the
    /// handle captures the error, the manager is left unchanged (so a fresh
    /// handle for the same path will re-attempt the load), and the error is
    /// returned.
    pub fn load<'a>(
        &mut self,
        handle: &'a mut AssetHandle<T>,
        resources: &T::Resources,
    ) -> (r: Result<(), &'a T::Error>)
        requires
            old(self).wf(),
        ensures
            final(self).wf(),
            // Storage is append-only: every slot valid before stays valid,
            // with its value unchanged.
            old(self)@.assets.len() <= final(self)@.assets.len(),
            forall|i: int|
                0 <= i < old(self)@.assets.len()
                    ==> final(self)@.assets[i] == old(self)@.assets[i],
            // The path index only grows, and never rebinds a recorded path.
            forall|p: Seq<char>|
                #[trigger] old(self)@.paths.contains_key(p)
                    ==> final(self)@.paths.contains_key(p)
                        && final(self)@.paths[p] == old(self)@.paths[p],
            // A handle that was already loaded or failed is a no-op success.
            !(old(handle)@ is Unloaded)
                ==> r is Ok && *final(handle) == *old(handle) && *final(self) == *old(self),
            // An unloaded handle whose path is already indexed is pointed at
            // the existing slot; nothing is loaded and nothing changes.
            old(handle)@ is Unloaded && old(self)@.paths.contains_key(old(handle)@.path())
                ==> r is Ok && *final(self) == *old(self) && final(handle)@
                    == (HandleView::<T::Error>::Loaded {
                    slot: old(self)@.paths[old(handle)@.path()],
                }),
            // A fresh path that loads successfully is appended at the next
            // slot and recorded in the index.
            old(handle)@ is Unloaded && !old(self)@.paths.contains_key(old(handle)@.path())
                && r is Ok
                ==> final(handle)@ == (HandleView::<T::Error>::Loaded {
                    slot: old(self)@.assets.len() as int,
                })
                    && final(self)@.assets.len() == old(self)@.assets.len() + 1
                    && final(self)@.paths == old(self)@.paths.insert(
                    old(handle)@.path(),
                    old(self)@.assets.len() as int,
                ),
            // The value stored for a fresh successful load is one the loader
            // capability could have returned for this path.
            old(handle)@ is Unloaded && !old(self)@.paths.contains_key(old(handle)@.path())
                && r is Ok
                ==> exists|p: &str, v: T|
                    p@ == old(handle)@.path() && #[trigger] call_ensures(
                        T::load,
                        (p, resources),
                        Ok::<T, T::Error>(v),
                    ) && final(self)@.assets.last() == v,
            // An error is only ever a fresh failed attempt: the handle
            // captures the path and the returned error, and the manager —
            // its path index included — is left exactly as it was.
            r matches Err(e)
                ==> old(handle)@ is Unloaded && !old(self)@.paths.contains_key(
                    old(handle)@.path(),
                ) && *final(self) == *old(self) && final(handle)@
                    == (HandleView::<T::Error>::Failed {
                    path: old(handle)@.path(),
                    error: *e,
                }) && (exists|p: &str|
                    p@ == old(handle)@.path() && #[trigger] call_ensures(
                        T::load,
                        (p, resources),
                        Err::<T, T::Error>(*e),
                    )),
            // A handle this call resolved is valid for this manager.
            old(handle)@ is Unloaded && final(handle)@ is Loaded
                ==> 0 <= final(handle)@.slot() < final(self)@.assets.len(),
    {
        let path: String = match handle.unloaded_path() {
            None => {
                return Ok(());
            },
            Some(p) => p.clone(),
        };
        match self.find_slot(&path) {
            Some(idx) => {
                handle.set_loaded(idx);
                Ok(())
            },
            None => {
                let idx = self.assets.len();
                let ps = path.as_str();
                let loaded = T::load(ps, resources);
                proof {
                    assert(call_ensures(T::load, (ps, resources), loaded));
                }
                match loaded {
                    Ok(value) => {
                        self.assets.push(value);
                        proof {
                            lemma_paths_map_push(self.paths@, (path, idx));
                        }
                        self.paths.push((path, idx));
                        handle.set_loaded(idx);
                        Ok(())
                    },
                    Err(e) => {
                        handle.set_failed(path, e);
                        Err(handle.failed_error())
                    },
                }
            },
        }
    }
}

/// Deduplication: two handles, however they were constructed, that resolved
/// against the same manager for the same indexed path occupy the very slot
/// the path index records. They therefore compare equal, and `get` answers
/// both of them with the same stored value.
///
/// That a resolved handle lands on the indexed slot — without the loader
/// running again and with the manager unchanged — is what `load` ensures
/// whenever the path is already in the index.
pub proof fn lemma_deduplication<T: Asset>(
    m: AssetManager<T>,
    h1: AssetHandle<T>,
    h2: AssetHandle<T>,
    p: Seq<char>,
)
    requires
        m.wf(),
        m@.paths.contains_key(p),
        h1@ == (HandleView::<T::Error>::Loaded { slot: m@.paths[p] }),
        h2@ == (HandleView::<T::Error>::Loaded { slot: m@.paths[p] }),
    ensures
        state_eq(h1@, h2@),
        m.spec_get(h1) == m.spec_get(h2),
        m.spec_get(h1) is Some,
{
}

/// Slot stability: a load only ever appends to storage, so a slot that is
/// valid for a manager stays valid for the manager's entire remaining
/// lifetime and keeps its value. The two premises relating `pre` and `post`
/// are exactly what `load` ensures of the manager before and after any call,
/// so a loaded handle is unaffected by whatever is loaded later.
pub proof fn lemma_slot_stability<T: Asset>(
    pre: AssetManager<T>,
    post: AssetManager<T>,
    h: AssetHandle<T>,
)
    requires
        h@ is Loaded,
        0 <= h@.slot() < pre@.assets.len(),
        pre@.assets.len() <= post@.assets.len(),
        forall|i: int| 0 <= i < pre@.assets.len() ==> post@.assets[i] == pre@.assets[i],
    ensures
        0 <= h@.slot() < post@.assets.len(),
        post@.assets[h@.slot()] == pre@.assets[h@.slot()],
        post.spec_get(h) == pre.spec_get(h),
{
}

impl<T: Asset> Default for AssetManager<T> {
    /// An empty manager: no loaded assets, no indexed paths.
    fn default() -> (m: Self)
        ensures
            m.wf(),
            m@.assets == Seq::<T>::empty(),
            m@.paths == Map::<Seq<char>, int>::empty(),
    {
        Self { assets: Vec::new(), paths: Vec::new() }
    }
}

} // verus!
