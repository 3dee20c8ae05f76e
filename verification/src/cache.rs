//! The process-wide cache: an explicitly constructed holder of at most one
//! preference store, populated exactly once on first initialization (the
//! first caller's identity wins) and then handed every get and set.

use crate::store::{AppPrefs, SaveError};
use preferences::AppInfo;
use vstd::prelude::*;

verus! {

/// Holds at most one `AppPrefs` for the life of the process. Starts empty;
/// once populated, the held store (and its identity) never changes.
pub struct ProcessCache {
    store: Option<AppPrefs>,
}

impl ProcessCache {
    /// Well-formed: the held store, if any, is well-formed.
    pub closed spec fn wf(&self) -> bool {
        self.store matches Some(s) ==> s.wf()
    }

    /// Whether a store has been installed.
    pub closed spec fn is_initialized(&self) -> bool {
        self.store is Some
    }

    /// The identity of the held store.
    pub closed spec fn spec_identity(&self) -> AppInfo
        recommends
            self.is_initialized(),
    {
        self.store->Some_0.spec_identity()
    }

    /// The key-value mapping of the held store.
    pub closed spec fn prefs_map(&self) -> Map<Seq<char>, Seq<char>>
        recommends
            self.is_initialized(),
    {
        self.store->Some_0@
    }

    /// An empty cache: no store yet, every lookup absent.
    pub fn new() -> (r: Self)
        ensures
            r.wf(),
            !r.is_initialized(),
    {
        ProcessCache { store: None }
    }

    /// Installs a store for `app_info` if none exists yet, loading it from
    /// durable storage; a no-op when a store is already held (the first
    /// caller's identity wins, and is neither replaced nor re-checked).
    pub fn ensure_initialized(&mut self, app_info: AppInfo)
        requires
            old(self).wf(),
        ensures
            final(self).wf(),
            final(self).is_initialized(),
            old(self).is_initialized() ==> *final(self) == *old(self),
            !old(self).is_initialized() ==> final(self).spec_identity() == app_info,
    {
        if self.store.is_none() {
            self.store = Some(AppPrefs::new(app_info));
        }
    }

    /// The value stored for `key`, if any; absent when no store has been
    /// initialized yet, as well as when the key is unknown.
    pub fn get_string(&self, key: String) -> (r: Option<String>)
        requires
            self.wf(),
        ensures
            !self.is_initialized() ==> r is None,
            self.is_initialized() ==> match r {
                Some(v) => self.prefs_map().contains_key(key@) && v@ == self.prefs_map()[key@],
                None => !self.prefs_map().contains_key(key@),
            },
    {
        match &self.store {
            Some(s) => s.get_string(key),
            None => None,
        }
    }

    /// Delegates `key -> value` to the held store, which updates its map and
    /// persists it; absent when no store has been initialized yet, otherwise
    /// the store's own report of the write.
    pub fn set_string(&mut self, key: String, value: String) -> (r: Option<
        Result<(), SaveError>,
    >)
        requires
            old(self).wf(),
        ensures
            final(self).wf(),
            !old(self).is_initialized() ==> r is None && *final(self) == *old(self),
            old(self).is_initialized() ==> r is Some && final(self).is_initialized()
                && final(self).spec_identity() == old(self).spec_identity()
                && final(self).prefs_map() == old(self).prefs_map().insert(key@, value@),
    {
        match &mut self.store {
            Some(s) => Some(s.set_string(key, value)),
            None => None,
        }
    }
}

} // verus!
