//! User settings and the rules that answer the host's queries on them.
//!
//! The engine owns an ordered list of user settings; the host queries
//! them by index: key, description, kind, and the effective boolean
//! value. The effective value resolves in priority order: the value in
//! the settings store if one is stored under the setting's key, else the
//! setting's declared default, else `false` for a setting that is not
//! boolean-kinded.

use vstd::prelude::*;
use vstd::string::StringSliceAdditionalSpecFns;
use livesplit_auto_splitting::SettingsStore;
use crate::output_buffer::OutputBuffer;
use crate::settings::settings_store_get_bool;
use crate::settings::store_contents;

verus! {

/// The kind of a user setting: a boolean with its declared default, or
/// a kind this layer does not interpret.
pub enum SettingKind {
    /// A boolean setting and the value it defaults to when the store
    /// holds nothing under its key.
    Bool { default_value: bool },
    /// Any other kind of setting.
    Other,
}

/// One setting the engine exposes for the user to see and change: an
/// identifying key, a description shown to the user, and the kind.
pub struct UserSetting {
    pub key: String,
    pub description: String,
    pub kind: SettingKind,
}

/// The code that names a setting's kind across the boundary: 1 for a
/// boolean setting, 0 for anything else.
pub open spec fn kind_code(k: SettingKind) -> usize {
    match k {
        SettingKind::Bool { .. } => 1usize,
        SettingKind::Other => 0usize,
    }
}

/// The effective boolean value of a setting with kind `kind` and key
/// `key`, against the stored contents `stored`: the stored value when
/// one is present, else the declared default, else `false` when the
/// setting is not boolean-kinded.
pub open spec fn effective_bool(kind: SettingKind, stored: Map<Seq<char>, bool>, key: Seq<char>) -> bool {
    match kind {
        SettingKind::Bool { default_value } => if stored.dom().contains(key) {
            stored[key]
        } else {
            default_value
        },
        SettingKind::Other => false,
    }
}

/// How many settings the engine exposes.
pub fn user_settings_len(settings: &Vec<UserSetting>) -> (r: usize)
    ensures
        r == settings@.len(),
{
    settings.len()
}

/// The kind code of the setting at `index`.
pub fn user_settings_get_type(settings: &Vec<UserSetting>, index: usize) -> (r: usize)
    requires
        index < settings@.len(),
    ensures
        r == kind_code(settings@[index as int].kind),
{
    match &settings[index].kind {
        SettingKind::Bool { .. } => 1,
        SettingKind::Other => 0,
    }
}

/// The effective boolean value of the setting at `index`, resolved
/// against the settings store in priority order: stored value if
/// present, else declared default, else `false` for a non-boolean kind.
pub fn user_settings_get_bool(settings: &Vec<UserSetting>, index: usize, store: &SettingsStore) -> (r:
    bool)
    requires
        index < settings@.len(),
    ensures
        r == effective_bool(
            settings@[index as int].kind,
            store_contents(*store),
            settings@[index as int].key@,
        ),
{
    let setting = &settings[index];
    match &setting.kind {
        SettingKind::Other => false,
        SettingKind::Bool { default_value } => match settings_store_get_bool(
            store,
            setting.key.as_str(),
        ) {
            Some(stored) => stored,
            None => *default_value,
        },
    }
}

/// Writes the key of the setting at `index` into the output buffer,
/// zero-terminated.
pub fn user_settings_get_key(settings: &Vec<UserSetting>, index: usize, out: &mut OutputBuffer)
    requires
        index < settings@.len(),
    ensures
        final(out)@ == vstd::utf8::encode_utf8(settings@[index as int].key@).push(0u8),
        final(out).terminated(),
{
    out.output_str(settings[index].key.as_str());
}

/// Writes the description of the setting at `index` into the output
/// buffer, zero-terminated.
pub fn user_settings_get_description(settings: &Vec<UserSetting>, index: usize, out: &mut OutputBuffer)
    requires
        index < settings@.len(),
    ensures
        final(out)@ == vstd::utf8::encode_utf8(settings@[index as int].description@).push(0u8),
        final(out).terminated(),
{
    out.output_str(settings[index].description.as_str());
}

/// The effective value obeys its priority order clause by clause: a
/// stored value always wins for a boolean setting, the declared default
/// answers exactly when nothing is stored, and a setting that is not
/// boolean-kinded reads `false` whatever the store holds.
pub proof fn lemma_effective_priority(kind: SettingKind, stored: Map<Seq<char>, bool>, key: Seq<char>)
    ensures
        forall|d: bool|
            stored.dom().contains(key) && kind == (SettingKind::Bool { default_value: d })
                ==> effective_bool(kind, stored, key) == stored[key],
        forall|d: bool|
            !stored.dom().contains(key) && kind == (SettingKind::Bool { default_value: d })
                ==> effective_bool(kind, stored, key) == d,
        kind == SettingKind::Other ==> effective_bool(kind, stored, key) == false,
{
}

} // verus!
