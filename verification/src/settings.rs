//! The editor's settings: its theme, and the JSON text in which the theme
//! is kept between runs.

use vstd::prelude::*;

verus! {

/// The two looks of the editor.
#[derive(Copy, Clone, Debug, PartialEq, Eq, Structural)]
pub enum PenguinTheme {
    Dark,
    Light,
}

/// What the editor keeps between runs.
#[derive(Copy, Clone, Debug, PartialEq, Eq, Structural)]
pub struct PenguinSettings {
    pub theme: PenguinTheme,
}

/// Why a settings text gave no theme.
#[derive(Copy, Clone, Debug, PartialEq, Eq, Structural)]
pub enum SettingsError {
    /// The text is not JSON, or is longer than a settings text may be.
    Syntax,
    /// The text is JSON, but holds no member `theme` that is a string.
    MissingTheme,
}

/// `json::Error`: what `json::parse` reports of a text that is not JSON.
/// Nothing is read from it; it is turned into `SettingsError::Syntax`.
#[verifier::external_type_specification]
#[verifier::external_body]
pub struct ExJsonError(json::Error);

/// The name under which a theme is shown.
pub open spec fn theme_name(theme: PenguinTheme) -> Seq<char> {
    match theme {
        PenguinTheme::Dark => "Dark"@,
        PenguinTheme::Light => "Light"@,
    }
}

/// The name under which a theme is stored.
pub open spec fn theme_stored_name(theme: PenguinTheme) -> Seq<char> {
    match theme {
        PenguinTheme::Dark => "dark"@,
        PenguinTheme::Light => "light"@,
    }
}

/// The theme that a stored name stands for: `light` is the light theme,
/// every other name the dark one.
pub open spec fn theme_of_name(name: Seq<char>) -> PenguinTheme {
    if name == "light"@ {
        PenguinTheme::Light
    } else {
        PenguinTheme::Dark
    }
}

/// Most characters that a settings text may hold. The parser counts the
/// digits of a fraction in sixteen bits; a text of this length cannot
/// hold more digits than that count has room for.
pub const SETTINGS_TEXT_MAX: usize = 0x7FFF;

/// The member under which the theme is kept.
pub open spec fn theme_key() -> Seq<char> {
    "theme"@
}

/// What `json::parse` finds under `key` in a text: nothing at all where
/// the text is not JSON; else the member's text where the document is an
/// object with a member `key` that is a string, and no text where it is
/// not.
pub uninterp spec fn json_member(text: Seq<char>, key: Seq<char>) -> Option<Option<Seq<char>>>;

/// The theme that a parsed settings text gives.
pub open spec fn theme_of_member(member: Option<Option<Seq<char>>>) -> Result<
    PenguinTheme,
    SettingsError,
> {
    match member {
        None => Err(SettingsError::Syntax),
        Some(None) => Err(SettingsError::MissingTheme),
        Some(Some(name)) => Ok(theme_of_name(name)),
    }
}

/// The settings text for a theme stored under `name`.
pub open spec fn settings_text_of(name: Seq<char>) -> Seq<char> {
    "{\"theme\":\""@ + name + "\"}"@
}

/// `json::parse`, and of the document that it returns the member `key`
/// as `JsonValue::as_str` gives it: the parse error where the text is not
/// JSON, the member's text where it is a string, nothing otherwise. The
/// parser's count of fraction digits overflows on a longer text.
#[verifier::external_body]
fn parse_member(text: &str, key: &str) -> (res: Result<Option<String>, json::Error>)
    requires
        text@.len() <= SETTINGS_TEXT_MAX,
    ensures
        match res {
            Ok(Some(member)) => json_member(text@, key@) == Some(Some(member@)),
            Ok(None) => json_member(text@, key@) == Some(None::<Seq<char>>),
            Err(_) => json_member(text@, key@) == None::<Option<Seq<char>>>,
        },
{
    let document = json::parse(text)?;
    Ok(document[key].as_str().map(String::from))
}

/// `JsonValue::dump` of an object whose one member `theme` is the string
/// `name`: the member in braces, with no blanks. Neither of the two names
/// holds a character that JSON escapes.
#[verifier::external_body]
fn dump_theme_object(name: &str) -> (text: String)
    requires
        name@ == "dark"@ || name@ == "light"@,
    ensures
        text@ == settings_text_of(name@),
{
    let mut document = json::JsonValue::new_object();
    document["theme"] = name.into();
    document.dump()
}

impl PenguinSettings {
    /// The settings of a first run: the dark theme.
    pub fn default() -> (settings: PenguinSettings)
        ensures
            settings.theme == PenguinTheme::Dark,
    {
        PenguinSettings { theme: PenguinTheme::Dark }
    }
}

/// Names a theme as it is shown to the user.
pub fn theme_to_string(theme: PenguinTheme) -> (name: String)
    ensures
        name@ == theme_name(theme),
{
    match theme {
        PenguinTheme::Dark => "Dark".to_owned(),
        PenguinTheme::Light => "Light".to_owned(),
    }
}

/// Reads a theme from the lower-case name it is stored under. A name
/// that is neither `light` nor `dark` gives the dark theme.
pub fn theme_from_name(name: &str) -> (theme: PenguinTheme)
    ensures
        theme == theme_of_name(name@),
{
    if name.to_owned() == "light".to_owned() {
        PenguinTheme::Light
    } else {
        PenguinTheme::Dark
    }
}

/// Decides the theme from the member `theme` of a settings document:
/// `member` is the member's text, or nothing where the document has no
/// such string.
pub fn theme_from_member(member: Option<String>) -> (res: Result<PenguinTheme, SettingsError>)
    ensures
        res == theme_of_member(
            Some(
                match member {
                    Some(name) => Some(name@),
                    None => None,
                },
            ),
        ),
{
    match member {
        Some(name) => Ok(theme_from_name(name.as_str())),
        None => Err(SettingsError::MissingTheme),
    }
}

/// Reads the theme from the text of a settings file. A text of more
/// than `SETTINGS_TEXT_MAX` characters is refused unread.
pub fn theme_from_settings_text(text: &str) -> (res: Result<PenguinTheme, SettingsError>)
    ensures
        text@.len() > SETTINGS_TEXT_MAX ==> res == Err::<PenguinTheme, SettingsError>(
            SettingsError::Syntax,
        ),
        text@.len() <= SETTINGS_TEXT_MAX ==> res == theme_of_member(
            json_member(text@, theme_key()),
        ),
{
    if text.unicode_len() > SETTINGS_TEXT_MAX {
        return Err(SettingsError::Syntax);
    }
    match parse_member(text, "theme") {
        Ok(member) => theme_from_member(member),
        Err(_) => Err(SettingsError::Syntax),
    }
}

/// Writes the text of a settings file that keeps `theme`.
pub fn settings_text(theme: PenguinTheme) -> (text: String)
    ensures
        text@ == settings_text_of(theme_stored_name(theme)),
{
    match theme {
        PenguinTheme::Dark => dump_theme_object("dark"),
        PenguinTheme::Light => dump_theme_object("light"),
    }
}

} // verus!
