use librepods_ui::{load_theme, settings_text, theme_choices, theme_from_stored_name, MyTheme};

#[test]
fn preference_round_trip() {
    let text = settings_text(MyTheme::Dark);
    assert_eq!(load_theme(Some(text)), MyTheme::Dark);
    let text = settings_text(MyTheme::TokyoNightStorm);
    assert_eq!(load_theme(Some(text)), MyTheme::TokyoNightStorm);
}

#[test]
fn settings_text_is_json_object() {
    assert_eq!(settings_text(MyTheme::Nord), "{\"theme\":\"Nord\"}");
}

#[test]
fn malformed_preferences_give_default() {
    assert_eq!(load_theme(None), MyTheme::Dark);
    assert_eq!(load_theme(Some("not json".to_string())), MyTheme::Dark);
    assert_eq!(load_theme(Some("{\"theme\": 3}".to_string())), MyTheme::Dark);
    assert_eq!(load_theme(Some("{\"theme\": \"Purple\"}".to_string())), MyTheme::Dark);
    assert_eq!(load_theme(Some("{\"theme\": \"Light\"}".to_string())), MyTheme::Light);
}

#[test]
fn stored_names() {
    assert_eq!(theme_from_stored_name(Some("Ferra".to_string())), MyTheme::Ferra);
    assert_eq!(theme_from_stored_name(Some("ferra".to_string())), MyTheme::Dark);
    assert_eq!(theme_from_stored_name(None), MyTheme::Dark);
    for t in theme_choices() {
        assert_eq!(MyTheme::from_name(&t.name()), Some(t));
    }
    assert_eq!(theme_choices().len(), 22);
}
