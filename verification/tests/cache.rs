use std::cell::Cell;

use asset_manager::Asset;
use asset_manager::AssetHandle;
use asset_manager::AssetManager;

/// A test asset: the byte length of a pretend file.
struct ByteLen(usize);

/// An in-memory stand-in for a filesystem: a listing of file names with their
/// sizes, plus a counter of how often the loader ran.
struct Listing {
    files: Vec<(String, usize)>,
    calls: Cell<usize>,
}

impl Listing {
    fn new(files: &[(&str, usize)]) -> Listing {
        Listing {
            files: files.iter().map(|(n, s)| (n.to_string(), *s)).collect(),
            calls: Cell::new(0),
        }
    }
}

impl Asset for ByteLen {
    type Resources = Listing;
    type Error = String;

    fn load(path: &str, resources: &Listing) -> Result<ByteLen, String> {
        resources.calls.set(resources.calls.get() + 1);
        for (name, size) in &resources.files {
            if name == path {
                return Ok(ByteLen(*size));
            }
        }
        Err("not found".to_string())
    }
}

#[test]
fn load_existing_file_yields_value() {
    let res = Listing::new(&[("a.txt", 10)]);
    let mut m = AssetManager::<ByteLen>::new();
    let mut h1 = AssetHandle::new("a.txt");
    assert!(m.load(&mut h1, &res).is_ok());
    assert!(h1.is_loaded());
    assert_eq!(m.get(&h1).unwrap().0, 10);
    assert_eq!(res.calls.get(), 1);
    // loading an already-loaded handle is a no-op success
    assert!(m.load(&mut h1, &res).is_ok());
    assert!(h1.is_loaded());
    assert_eq!(m.get(&h1).unwrap().0, 10);
    assert_eq!(res.calls.get(), 1);
}

#[test]
fn reload_same_path_reuses_slot_without_loader() {
    let res = Listing::new(&[("a.txt", 10)]);
    let mut m = AssetManager::<ByteLen>::new();
    let mut h1 = AssetHandle::new("a.txt");
    assert!(m.load(&mut h1, &res).is_ok());
    let mut h2 = AssetHandle::new("a.txt");
    assert!(m.load(&mut h2, &res).is_ok());
    // no second loader invocation
    assert_eq!(res.calls.get(), 1);
    // both handles refer to the same stored value
    assert_eq!(m.get(&h1).unwrap().0, 10);
    assert_eq!(m.get(&h2).unwrap().0, 10);
    assert!(h1 == h2);
}

#[test]
fn load_missing_file_fails() {
    let res = Listing::new(&[("a.txt", 10)]);
    let mut m = AssetManager::<ByteLen>::new();
    let mut h3 = AssetHandle::new("missing.txt");
    {
        let r = m.load(&mut h3, &res);
        assert_eq!(r.unwrap_err().as_str(), "not found");
    }
    assert!(h3.is_err());
    assert!(!h3.is_loaded());
    assert!(m.get(&h3).is_none());
    assert_eq!(res.calls.get(), 1);
}

#[test]
fn reload_failed_handle_is_noop() {
    let res = Listing::new(&[]);
    let mut m = AssetManager::<ByteLen>::new();
    let mut h3 = AssetHandle::new("missing.txt");
    assert!(m.load(&mut h3, &res).is_err());
    assert_eq!(res.calls.get(), 1);
    // a remembered failure is treated as resolved: success, no state change,
    // no loader invocation
    assert!(m.load(&mut h3, &res).is_ok());
    assert!(h3.is_err());
    assert_eq!(h3.path(), Some("missing.txt"));
    assert_eq!(res.calls.get(), 1);
}

#[test]
fn fresh_handle_retries_after_failure() {
    let missing = Listing::new(&[]);
    let mut m = AssetManager::<ByteLen>::new();
    let mut h3 = AssetHandle::new("missing.txt");
    assert!(m.load(&mut h3, &missing).is_err());
    // the failure did not pollute the path index: a fresh handle triggers a
    // fresh loader invocation, and succeeds once the file exists
    let present = Listing::new(&[("missing.txt", 4)]);
    let mut h4 = AssetHandle::new("missing.txt");
    assert!(m.load(&mut h4, &present).is_ok());
    assert_eq!(present.calls.get(), 1);
    assert_eq!(m.get(&h4).unwrap().0, 4);
    // the old handle still remembers its failure
    assert!(h3.is_err());
}

#[test]
fn fresh_handle_reports_unloaded() {
    let m = AssetManager::<ByteLen>::new();
    let h = AssetHandle::new("a.txt");
    assert!(h.is_unloaded());
    assert!(!h.is_loaded());
    assert!(!h.is_err());
    assert!(m.get(&h).is_none());
}

#[test]
fn slots_stay_valid_as_manager_grows() {
    let res = Listing::new(&[("a.txt", 10), ("b.txt", 20), ("c.txt", 30)]);
    let mut m = AssetManager::<ByteLen>::new();
    let mut ha = AssetHandle::new("a.txt");
    assert!(m.load(&mut ha, &res).is_ok());
    let mut hb = AssetHandle::new("b.txt");
    let mut hc = AssetHandle::new("c.txt");
    assert!(m.load(&mut hb, &res).is_ok());
    assert!(m.load(&mut hc, &res).is_ok());
    // the first handle's slot still holds the same value
    assert_eq!(m.get(&ha).unwrap().0, 10);
    assert_eq!(m.get(&hb).unwrap().0, 20);
    assert_eq!(m.get(&hc).unwrap().0, 30);
}

#[test]
fn handle_equality_follows_state() {
    let res = Listing::new(&[("a.txt", 10)]);
    let mut m = AssetManager::<ByteLen>::new();

    // unloaded handles: equal iff same path
    let u1 = AssetHandle::<ByteLen>::new("a.txt");
    let u2 = AssetHandle::<ByteLen>::new("a.txt");
    let u3 = AssetHandle::<ByteLen>::new("b.txt");
    assert!(u1 == u2);
    assert!(u1 != u3);

    // loaded handles: equal iff same slot
    let mut l1 = AssetHandle::new("a.txt");
    let mut l2 = AssetHandle::new("a.txt");
    assert!(m.load(&mut l1, &res).is_ok());
    assert!(m.load(&mut l2, &res).is_ok());
    assert!(l1 == l2);

    // handles in different states are never equal
    assert!(l1 != u1);

    // failed handles: equal iff same path, error payload not compared
    let mut f1 = AssetHandle::new("missing.txt");
    let mut f2 = AssetHandle::new("missing.txt");
    assert!(m.load(&mut f1, &res).is_err());
    assert!(m.load(&mut f2, &res).is_err());
    assert!(f1 == f2);
    assert!(f1 != u1);
}

#[test]
fn clone_preserves_state() {
    let res = Listing::new(&[("a.txt", 10)]);
    let mut m = AssetManager::<ByteLen>::new();

    let u = AssetHandle::<ByteLen>::new("a.txt");
    let uc = u.clone();
    assert!(uc.is_unloaded());
    assert_eq!(uc.path(), Some("a.txt"));
    assert!(uc == u);

    let mut l = AssetHandle::new("a.txt");
    assert!(m.load(&mut l, &res).is_ok());
    let lc = l.clone();
    assert!(lc.is_loaded());
    assert!(lc == l);
    assert_eq!(m.get(&lc).unwrap().0, 10);

    let mut f = AssetHandle::new("missing.txt");
    assert!(m.load(&mut f, &res).is_err());
    let fc = f.clone();
    assert!(fc.is_err());
    assert_eq!(fc.path(), Some("missing.txt"));
    assert!(fc == f);
}

#[test]
fn path_visible_until_loaded() {
    let res = Listing::new(&[("a.txt", 10)]);
    let mut m = AssetManager::<ByteLen>::new();
    let mut h = AssetHandle::new("a.txt");
    assert_eq!(h.path(), Some("a.txt"));
    assert!(m.load(&mut h, &res).is_ok());
    assert_eq!(h.path(), None);

    let mut f = AssetHandle::new("missing.txt");
    assert!(m.load(&mut f, &res).is_err());
    assert_eq!(f.path(), Some("missing.txt"));
}

#[test]
fn empty_path_is_accepted() {
    let res = Listing::new(&[("", 0)]);
    let mut m = AssetManager::<ByteLen>::new();
    let mut h = AssetHandle::new("");
    assert!(h.is_unloaded());
    assert_eq!(h.path(), Some(""));
    assert!(m.load(&mut h, &res).is_ok());
    assert_eq!(m.get(&h).unwrap().0, 0);
}

#[test]
fn default_manager_is_empty() {
    let m = AssetManager::<ByteLen>::default();
    let h = AssetHandle::new("a.txt");
    assert!(m.get(&h).is_none());
}
