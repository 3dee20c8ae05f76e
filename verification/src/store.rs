//! The identity-scoped preference store: an in-memory string-to-string map
//! that loads itself from, and persists itself to, the durable backend under
//! one fixed slot.

use crate::backend;
use preferences::{AppInfo, PreferencesError};
use vstd::prelude::*;

verus! {

/// No key occurs twice in the entry list.
pub open spec fn distinct_keys(s: Seq<(String, String)>) -> bool {
    forall|i: int, j: int| 0 <= i < j < s.len() ==> s[i].0@ != s[j].0@
}

/// The mapping an entry list stands for, a later entry for a key overriding
/// an earlier one (last write wins).
pub open spec fn map_of(s: Seq<(String, String)>) -> Map<Seq<char>, Seq<char>>
    decreases s.len(),
{
    if s.len() == 0 {
        Map::<Seq<char>, Seq<char>>::empty()
    } else {
        map_of(s.drop_last()).insert(s.last().0@, s.last().1@)
    }
}

/// A key is in the mapping exactly when some entry carries it.
pub proof fn lemma_map_of_dom(s: Seq<(String, String)>, k: Seq<char>)
    ensures
        map_of(s).contains_key(k) <==> exists|i: int| 0 <= i < s.len() && s[i].0@ == k,
    decreases s.len(),
{
    if s.len() > 0 {
        let t = s.drop_last();
        lemma_map_of_dom(t, k);
        if s.last().0@ == k {
            assert(s[s.len() - 1].0@ == k);
        } else {
            if map_of(s).contains_key(k) {
                let i = choose|i: int| 0 <= i < t.len() && t[i].0@ == k;
                assert(s[i].0@ == k);
            }
            if exists|i: int| 0 <= i < s.len() && s[i].0@ == k {
                let i = choose|i: int| 0 <= i < s.len() && s[i].0@ == k;
                assert(i < s.len() - 1);
                assert(t[i].0@ == k);
            }
        }
    }
}

/// With distinct keys, the entry at `i` decides the mapping at its key.
pub proof fn lemma_map_of_at(s: Seq<(String, String)>, i: int)
    requires
        distinct_keys(s),
        0 <= i < s.len(),
    ensures
        map_of(s).contains_key(s[i].0@),
        map_of(s)[s[i].0@] == s[i].1@,
    decreases s.len(),
{
    if i < s.len() - 1 {
        let t = s.drop_last();
        assert(distinct_keys(t));
        lemma_map_of_at(t, i);
        assert(s.last().0@ != s[i].0@);
    }
}

/// Appending an entry inserts its pair into the mapping.
pub proof fn lemma_map_of_push(s: Seq<(String, String)>, p: (String, String))
    ensures
        map_of(s.push(p)) == map_of(s).insert(p.0@, p.1@),
{
    assert(s.push(p).drop_last() =~= s);
    assert(s.push(p).last() == p);
}

/// Replacing the entry that carries a key, by one with the same key view,
/// inserts the new pair into the mapping.
pub proof fn lemma_map_of_update(s: Seq<(String, String)>, i: int, p: (String, String))
    requires
        distinct_keys(s),
        0 <= i < s.len(),
        s[i].0@ == p.0@,
    ensures
        map_of(s.update(i, p)) == map_of(s).insert(p.0@, p.1@),
    decreases s.len(),
{
    let u = s.update(i, p);
    if i == s.len() - 1 {
        assert(u.drop_last() =~= s.drop_last());
        assert(u.last() == p);
        assert(map_of(s).insert(p.0@, p.1@) =~= map_of(s.drop_last()).insert(p.0@, p.1@));
    } else {
        let t = s.drop_last();
        assert(distinct_keys(t));
        assert(u.drop_last() =~= t.update(i, p));
        assert(u.last() == s.last());
        lemma_map_of_update(t, i, p);
        assert(s.last().0@ != p.0@);
        assert(map_of(t).insert(p.0@, p.1@).insert(s.last().0@, s.last().1@) =~= map_of(
            t,
        ).insert(s.last().0@, s.last().1@).insert(p.0@, p.1@));
    }
}

/// A write whose in-memory update succeeded but whose persistence to durable
/// storage failed; the backend's own report is carried along.
#[derive(Debug)]
pub struct SaveError {
    /// What the durable backend reported.
    pub cause: PreferencesError,
}

/// The preference store for one application identity: the authoritative
/// in-memory map, loaded once from the identity's fixed "default" slot and
/// written back there, whole, on every set.
pub struct AppPrefs {
    /// The application identity whose durable slot this store loads and saves.
    pub app_info: AppInfo,
    entries: Vec<(String, String)>,
}

impl View for AppPrefs {
    type V = Map<Seq<char>, Seq<char>>;

    /// The key-value mapping the store holds in memory.
    closed spec fn view(&self) -> Map<Seq<char>, Seq<char>> {
        map_of(self.entries@)
    }
}

impl AppPrefs {
    /// Well-formed: no key is carried by two entries.
    pub closed spec fn wf(&self) -> bool {
        distinct_keys(self.entries@)
    }

    /// The application identity the store was built for.
    pub closed spec fn spec_identity(&self) -> AppInfo {
        self.app_info
    }

    /// The position of the entry carrying `key`, if one does.
    fn index_of(&self, key: &String) -> (r: Option<usize>)
        ensures
            match r {
                Some(i) => i < self.entries@.len() && self.entries@[i as int].0@ == key@,
                None => forall|j: int| 0 <= j < self.entries@.len() ==> self.entries@[j].0@ != key@,
            },
    {
        let mut i: usize = 0;
        while i < self.entries.len()
            invariant
                i <= self.entries@.len(),
                forall|j: int| 0 <= j < i ==> self.entries@[j].0@ != key@,
            decreases self.entries@.len() - i,
        {
            if self.entries[i].0 == *key {
                return Some(i);
            }
            i += 1;
        }
        None
    }

    /// Builds a store over exactly the given entries, a later entry for a key
    /// overriding an earlier one. Nothing is persisted.
    pub fn from_entries(app_info: AppInfo, entries: Vec<(String, String)>) -> (r: Self)
        ensures
            r.wf(),
            r@ == map_of(entries@),
            r.spec_identity() == app_info,
    {
        let mut prefs = AppPrefs { app_info, entries: Vec::new() };
        let mut i: usize = 0;
        while i < entries.len()
            invariant
                i <= entries@.len(),
                prefs.wf(),
                prefs@ == map_of(entries@.take(i as int)),
                prefs.spec_identity() == app_info,
            decreases entries@.len() - i,
        {
            let k = entries[i].0.clone();
            let v = entries[i].1.clone();
            prefs.insert_entry(k, v);
            proof {
                let w = entries@.take((i + 1) as int);
                assert(w.drop_last() =~= entries@.take(i as int));
                assert(w.last() == entries@[i as int]);
            }
            i += 1;
        }
        proof {
            assert(entries@.take(entries@.len() as int) =~= entries@);
        }
        prefs
    }

    /// Builds the store for `app_info`, taking its initial map from whatever
    /// the identity's fixed "default" slot holds; when nothing can be loaded
    /// the store starts empty, never failing the caller.
    pub fn new(app_info: AppInfo) -> (r: Self)
        ensures
            r.wf(),
            r.spec_identity() == app_info,
    {
        match backend::load_slot(&app_info, "default") {
            Some(entries) => Self::from_entries(app_info, entries),
            None => Self::from_entries(app_info, Vec::new()),
        }
    }

    /// The value stored for `key`, if any. In-memory only: never touches
    /// durable storage.
    pub fn get_string(&self, key: String) -> (r: Option<String>)
        requires
            self.wf(),
        ensures
            match r {
                Some(v) => self@.contains_key(key@) && v@ == self@[key@],
                None => !self@.contains_key(key@),
            },
    {
        match self.index_of(&key) {
            Some(i) => {
                proof {
                    lemma_map_of_at(self.entries@, i as int);
                }
                Some(self.entries[i].1.clone())
            },
            None => {
                proof {
                    lemma_map_of_dom(self.entries@, key@);
                }
                None
            },
        }
    }

    /// Inserts or overwrites `key -> value` in memory (last write wins).
    fn insert_entry(&mut self, key: String, value: String)
        requires
            old(self).wf(),
        ensures
            final(self).wf(),
            final(self)@ == old(self)@.insert(key@, value@),
            final(self).spec_identity() == old(self).spec_identity(),
    {
        let ghost s0 = self.entries@;
        let ghost k = key@;
        let ghost v = value@;
        match self.index_of(&key) {
            Some(i) => {
                self.entries[i] = (key, value);
                proof {
                    assert(self.entries@ == s0.update(i as int, self.entries@[i as int]));
                    assert(self.entries@[i as int].0@ == k);
                    assert(self.entries@[i as int].1@ == v);
                    lemma_map_of_update(s0, i as int, self.entries@[i as int]);
                    assert forall|a: int, b: int|
                        0 <= a < b < self.entries@.len() implies self.entries@[a].0@
                        != self.entries@[b].0@ by {
                        assert(s0[a].0@ != s0[b].0@);
                        assert(self.entries@[a].0@ == s0[a].0@);
                        assert(self.entries@[b].0@ == s0[b].0@);
                    }
                }
            },
            None => {
                self.entries.push((key, value));
                proof {
                    assert(self.entries@ == s0.push(self.entries@.last()));
                    assert(self.entries@.last().0@ == k);
                    assert(self.entries@.last().1@ == v);
                    lemma_map_of_push(s0, self.entries@.last());
                }
            },
        }
    }

    /// Inserts or overwrites `key -> value` in memory (last write wins), then
    /// persists the whole map to the identity's fixed "default" slot. The
    /// in-memory update is kept whether or not the write reaches durable
    /// storage; a failed write is reported as `Err`.
    pub fn set_string(&mut self, key: String, value: String) -> (r: Result<(), SaveError>)
        requires
            old(self).wf(),
        ensures
            final(self).wf(),
            final(self)@ == old(self)@.insert(key@, value@),
            final(self).spec_identity() == old(self).spec_identity(),
    {
        self.insert_entry(key, value);
        match backend::save_slot(&self.app_info, "default", &self.entries) {
            Ok(()) => Ok(()),
            Err(e) => Err(SaveError { cause: e }),
        }
    }
}

} // verus!
