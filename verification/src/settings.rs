//! The settings store that crosses the boundary.
//!
//! The host creates a store, fills it with boolean values, and transfers
//! it into the runtime at construction; it must not touch its original
//! handle afterward. The store itself belongs to the engine's crate; this
//! module gives it a mathematical contents map and states, against the
//! engine crate's source, what each operation does to that map.

use vstd::prelude::*;
use livesplit_auto_splitting::{SettingValue, SettingsStore};

verus! {

/// The engine's key/value store of user-configured options.
#[verifier::external_type_specification]
#[verifier::external_body]
pub struct ExSettingsStore(SettingsStore);

/// What a settings store holds: each stored key mapped to its boolean
/// value. The store only ever holds boolean values.
pub uninterp spec fn store_contents(s: SettingsStore) -> Map<Seq<char>, bool>;

/// The contents of a store that holds nothing.
pub open spec fn empty_contents() -> Map<Seq<char>, bool> {
    Map::empty()
}

/// Relies on `SettingsStore::new`: a new store starts empty.
#[verifier::external_body]
pub fn settings_store_new() -> (store: SettingsStore)
    ensures
        store_contents(store) == empty_contents(),
{
    SettingsStore::new()
}

/// Relies on `SettingsStore::set`: inserts the value under the key, or
/// overwrites a value already stored there — last write wins.
#[verifier::external_body]
pub fn settings_store_set_bool(s: &mut SettingsStore, key: &str, value: bool)
    ensures
        store_contents(*final(s)) == store_contents(*old(s)).insert(key@, value),
{
    s.set(key.into(), SettingValue::Bool(value))
}

/// Relies on `SettingsStore::get`: returns the value stored under the
/// key, or nothing when the key was never stored. Every stored value is
/// a boolean.
#[verifier::external_body]
pub fn settings_store_get_bool(s: &SettingsStore, key: &str) -> (r: Option<bool>)
    ensures
        r == if store_contents(*s).dom().contains(key@) {
            Some(store_contents(*s)[key@])
        } else {
            None::<bool>
        },
{
    match s.get(key) {
        Some(SettingValue::Bool(b)) => Some(*b),
        _ => None,
    }
}

/// Destroys a settings store the host no longer needs — one it decided
/// not to transfer into a runtime. A transferred store is consumed by
/// the runtime construction itself and must not be released again; the
/// compiler rejects any further use of a released or transferred handle.
pub fn settings_store_release(_store: SettingsStore) {
}

} // verus!
