use penguin::settings::{
    settings_text, theme_from_member, theme_from_settings_text, PenguinTheme, SettingsError,
    SETTINGS_TEXT_MAX,
};

#[test]
fn settings_text_names_the_theme_in_lower_case() {
    assert_eq!(settings_text(PenguinTheme::Dark), "{\"theme\":\"dark\"}");
    assert_eq!(settings_text(PenguinTheme::Light), "{\"theme\":\"light\"}");
}

#[test]
fn theme_is_read_from_settings_text() {
    assert_eq!(theme_from_settings_text("{\"theme\":\"light\"}"), Ok(PenguinTheme::Light));
    assert_eq!(theme_from_settings_text("{\"theme\":\"dark\"}"), Ok(PenguinTheme::Dark));
    assert_eq!(
        theme_from_settings_text("{ \"other\": 1, \"theme\" : \"light\" }\n"),
        Ok(PenguinTheme::Light)
    );
}

#[test]
fn unknown_theme_name_gives_the_dark_theme() {
    assert_eq!(theme_from_settings_text("{\"theme\":\"solarized\"}"), Ok(PenguinTheme::Dark));
    assert_eq!(theme_from_settings_text("{\"theme\":\"LIGHT\"}"), Ok(PenguinTheme::Dark));
    assert_eq!(theme_from_settings_text("{\"theme\":\"\"}"), Ok(PenguinTheme::Dark));
}

#[test]
fn settings_without_a_theme_string_are_refused() {
    assert_eq!(theme_from_settings_text("{}"), Err(SettingsError::MissingTheme));
    assert_eq!(theme_from_settings_text("{\"theme\":3}"), Err(SettingsError::MissingTheme));
    assert_eq!(theme_from_settings_text("{\"theme\":null}"), Err(SettingsError::MissingTheme));
    assert_eq!(theme_from_settings_text("[\"light\"]"), Err(SettingsError::MissingTheme));
    assert_eq!(theme_from_settings_text("\"light\""), Err(SettingsError::MissingTheme));
}

#[test]
fn text_that_is_not_json_is_a_syntax_error() {
    assert_eq!(theme_from_settings_text(""), Err(SettingsError::Syntax));
    assert_eq!(theme_from_settings_text("theme=light"), Err(SettingsError::Syntax));
    assert_eq!(theme_from_settings_text("{\"theme\":\"light\""), Err(SettingsError::Syntax));
}

#[test]
fn theme_from_member_decides_on_the_name() {
    assert_eq!(theme_from_member(Some("light".to_string())), Ok(PenguinTheme::Light));
    assert_eq!(theme_from_member(Some("dark".to_string())), Ok(PenguinTheme::Dark));
    assert_eq!(theme_from_member(Some("x".to_string())), Ok(PenguinTheme::Dark));
    assert_eq!(theme_from_member(None), Err(SettingsError::MissingTheme));
}

#[test]
fn written_settings_read_back() {
    for theme in [PenguinTheme::Dark, PenguinTheme::Light] {
        assert_eq!(theme_from_settings_text(&settings_text(theme)), Ok(theme));
    }
}

#[test]
fn default_settings_use_the_dark_theme() {
    assert_eq!(penguin::settings::PenguinSettings::default().theme, PenguinTheme::Dark);
}

#[test]
fn longest_settings_text_is_read() {
    let mut text = String::from("{\"theme\":\"light\"}");
    while text.len() < SETTINGS_TEXT_MAX {
        text.push(' ');
    }
    assert_eq!(text.chars().count(), 0x7FFF);
    assert_eq!(theme_from_settings_text(&text), Ok(PenguinTheme::Light));
}

#[test]
fn longer_settings_text_is_refused_unread() {
    let mut text = String::from("{\"theme\":\"light\"}");
    while text.len() <= SETTINGS_TEXT_MAX {
        text.push(' ');
    }
    assert_eq!(theme_from_settings_text(&text), Err(SettingsError::Syntax));
}

#[test]
fn long_fraction_of_zeros_is_refused_unread() {
    let mut text = String::from("0.");
    for _ in 0..32769 {
        text.push('0');
    }
    assert_eq!(theme_from_settings_text(&text), Err(SettingsError::Syntax));
    let member = format!("{{\"theme\":{}}}", text);
    assert_eq!(theme_from_settings_text(&member), Err(SettingsError::Syntax));
}

#[test]
fn fraction_of_zeros_that_fits_is_parsed() {
    let mut text = String::from("{\"theme\":\"light\",\"n\":0.");
    while text.len() < SETTINGS_TEXT_MAX - 1 {
        text.push('0');
    }
    text.push('}');
    assert_eq!(text.len(), SETTINGS_TEXT_MAX);
    assert_eq!(theme_from_settings_text(&text), Ok(PenguinTheme::Light));
}

#[test]
fn length_is_counted_in_characters() {
    let mut text = String::from("{\"theme\":\"light\",\"n\":\"");
    while text.chars().count() < SETTINGS_TEXT_MAX - 2 {
        text.push('\u{00E9}');
    }
    text.push_str("\"}");
    assert_eq!(text.chars().count(), SETTINGS_TEXT_MAX);
    assert!(text.len() > SETTINGS_TEXT_MAX);
    assert_eq!(theme_from_settings_text(&text), Ok(PenguinTheme::Light));
}
