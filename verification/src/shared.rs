//! Thread-shared access to the process cache: one mutual-exclusion domain
//! serializes every initialization, get and set, so no call can observe a
//! partially applied write, and the cache's well-formedness is an invariant
//! of the lock itself. The per-call behaviour is the contract of
//! `ProcessCache`; this layer only adds the serialization.

use crate::cache::ProcessCache;
use crate::store::SaveError;
use preferences::AppInfo;
use vstd::prelude::*;
use vstd::rwlock::RwLock;

verus! {

/// A lock around one `ProcessCache`, fit to be shared between threads.
pub struct SharedPrefs {
    lock: RwLock<ProcessCache, spec_fn(ProcessCache) -> bool>,
}

impl SharedPrefs {
    /// The lock's invariant: whatever cache it holds is well-formed.
    pub closed spec fn wf(&self) -> bool {
        self.lock.pred() == (|c: ProcessCache| c.wf())
    }

    /// An empty, uninitialized shared cache.
    pub fn new() -> (r: Self)
        ensures
            r.wf(),
    {
        let lock = RwLock::new(ProcessCache::new(), Ghost(|c: ProcessCache| c.wf()));
        SharedPrefs { lock }
    }

    /// Installs a store for `app_info` unless one is already held; the first
    /// caller's identity wins. Serialized against every other call.
    pub fn ensure_initialized(&self, app_info: AppInfo)
        requires
            self.wf(),
    {
        let (mut cache, handle) = self.lock.acquire_write();
        cache.ensure_initialized(app_info);
        handle.release_write(cache);
    }

    /// The value stored for `key`, if any; absent before initialization, as
    /// well as when the key is unknown. Reads a consistent snapshot: no
    /// partially applied write can be observed.
    pub fn get_string(&self, key: String) -> Option<String>
        requires
            self.wf(),
    {
        let handle = self.lock.acquire_read();
        let r = handle.borrow().get_string(key);
        handle.release_read();
        r
    }

    /// Inserts or overwrites `key -> value` and persists the whole map;
    /// absent before initialization, otherwise the store's own report of the
    /// write. Fully serialized against every other get and set.
    pub fn set_string(&self, key: String, value: String) -> Option<Result<(), SaveError>>
        requires
            self.wf(),
    {
        let (mut cache, handle) = self.lock.acquire_write();
        let r = cache.set_string(key, value);
        handle.release_write(cache);
        r
    }
}

} // verus!
