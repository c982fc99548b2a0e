use asr::output_buffer::OutputBuffer;
use asr::settings::{
    settings_store_get_bool, settings_store_new, settings_store_release, settings_store_set_bool,
};
use asr::user_settings::{
    user_settings_get_bool, user_settings_get_description, user_settings_get_key,
    user_settings_get_type, user_settings_len, SettingKind, UserSetting,
};

fn bool_setting(key: &str, default_value: bool) -> UserSetting {
    UserSetting {
        key: key.to_string(),
        description: format!("{key} setting"),
        kind: SettingKind::Bool { default_value },
    }
}

#[test]
fn stored_value_wins_over_the_default() {
    let settings = vec![bool_setting("use_feature", true)];
    let mut store = settings_store_new();
    settings_store_set_bool(&mut store, "use_feature", false);
    assert!(!user_settings_get_bool(&settings, 0, &store));
    settings_store_release(store);
}

#[test]
fn declared_default_answers_when_nothing_is_stored() {
    let settings = vec![bool_setting("a", true), bool_setting("b", false)];
    let store = settings_store_new();
    assert!(user_settings_get_bool(&settings, 0, &store));
    assert!(!user_settings_get_bool(&settings, 1, &store));
    settings_store_release(store);
}

#[test]
fn non_boolean_setting_reads_false_whatever_is_stored() {
    let settings = vec![UserSetting {
        key: "raw".to_string(),
        description: "not a boolean".to_string(),
        kind: SettingKind::Other,
    }];
    let mut store = settings_store_new();
    settings_store_set_bool(&mut store, "raw", true);
    assert!(!user_settings_get_bool(&settings, 0, &store));
    settings_store_release(store);
}

#[test]
fn last_write_wins_in_the_store() {
    let settings = vec![bool_setting("k", false)];
    let mut store = settings_store_new();
    settings_store_set_bool(&mut store, "k", true);
    settings_store_set_bool(&mut store, "k", false);
    settings_store_set_bool(&mut store, "k", true);
    assert!(user_settings_get_bool(&settings, 0, &store));
    settings_store_release(store);
}

#[test]
fn stored_keys_answer_independently() {
    let store2 = {
        let mut store = settings_store_new();
        settings_store_set_bool(&mut store, "x", true);
        settings_store_set_bool(&mut store, "y", false);
        store
    };
    assert_eq!(settings_store_get_bool(&store2, "x"), Some(true));
    assert_eq!(settings_store_get_bool(&store2, "y"), Some(false));
    assert_eq!(settings_store_get_bool(&store2, "z"), None);
    settings_store_release(store2);
}

#[test]
fn kind_codes_name_boolean_and_other() {
    let settings = vec![bool_setting("b", true), UserSetting {
        key: "o".to_string(),
        description: String::new(),
        kind: SettingKind::Other,
    }];
    assert_eq!(user_settings_len(&settings), 2);
    assert_eq!(user_settings_get_type(&settings, 0), 1);
    assert_eq!(user_settings_get_type(&settings, 1), 0);
}

#[test]
fn key_and_description_go_through_the_output_buffer() {
    let settings = vec![bool_setting("speed", true)];
    let mut out = OutputBuffer::new();
    user_settings_get_key(&settings, 0, &mut out);
    assert_eq!(out.get_buf_len(), 5);
    assert_eq!(out.as_bytes(), b"speed\0");
    user_settings_get_description(&settings, 0, &mut out);
    assert_eq!(out.as_bytes(), b"speed setting\0");
}
