//! The trusted boundary to the durable preferences backend.
//!
//! The `preferences` crate stores one string-to-string map per application
//! identity and slot name. Everything else in this library is verified
//! against the two wrappers below; their bodies hold the backend calls and
//! the one-for-one conversion between the backend's map and this library's
//! entry list.

use preferences::{AppInfo, Preferences, PreferencesError, PreferencesMap};
use vstd::prelude::*;

verus! {

/// `preferences::AppInfo` (re-exported from `app_dirs2`): the `(name, author)`
/// pair that selects which durable preference set a load or save targets.
/// Opaque here; the library only carries it through to the backend.
#[verifier::external_type_specification]
#[verifier::external_body]
pub struct ExAppInfo(AppInfo);

/// `preferences::PreferencesError`: what the backend reports when a load or a
/// save fails. Opaque; the library only carries it out to its own error type.
#[verifier::external_type_specification]
#[verifier::external_body]
pub struct ExPreferencesError(PreferencesError);

/// Relies on `preferences::Preferences::load` for `PreferencesMap<String>`:
/// reads the map stored for `app` under `slot`, reporting any failure
/// (absent, unreadable or corrupt data) uniformly as `None`. On success the
/// pairs are the entries of a `HashMap<String, String>`, so their key views
/// are pairwise distinct.
#[verifier::external_body]
pub(crate) fn load_slot(app: &AppInfo, slot: &str) -> (r: Option<Vec<(String, String)>>)
    ensures
        r matches Some(entries) ==> forall|i: int, j: int|
            0 <= i < j < entries@.len() ==> entries@[i].0@ != entries@[j].0@,
{
    match PreferencesMap::<String>::load(app, slot) {
        Ok(m) => Some(m.into_iter().collect()),
        Err(_) => None,
    }
}

/// Relies on `preferences::Preferences::save` for `PreferencesMap<String>`:
/// writes the whole entry list, as a map, for `app` under `slot`, and reports
/// failure as `Err`. Nothing is promised of the outcome: whether the write
/// reaches durable storage depends on the machine.
#[verifier::external_body]
pub(crate) fn save_slot(
    app: &AppInfo,
    slot: &str,
    entries: &Vec<(String, String)>,
) -> Result<(), PreferencesError> {
    let mut m: PreferencesMap<String> = PreferencesMap::new();
    for (k, v) in entries.iter() {
        m.insert(k.clone(), v.clone());
    }
    m.save(app, slot)
}

} // verus!
