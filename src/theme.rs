use vstd::prelude::*;

use crate::text::digit_char;

verus! {

/// The colour themes the window can be shown in.
#[derive(Clone, Copy, Debug, PartialEq, Eq, Structural)]
pub enum MyTheme {
    CatppuccinFrappe,
    CatppuccinLatte,
    CatppuccinMacchiato,
    CatppuccinMocha,
    Dark,
    Dracula,
    Ferra,
    GruvboxDark,
    GruvboxLight,
    KanagawaDragon,
    KanagawaLotus,
    KanagawaWave,
    Light,
    Moonfly,
    Nightfly,
    Nord,
    Oxocarbon,
    SolarizedDark,
    SolarizedLight,
    TokyoNight,
    TokyoNightLight,
    TokyoNightStorm,
}

/// The name a theme is stored under in the preference file.
pub open spec fn theme_name_spec(t: MyTheme) -> Seq<char> {
    match t {
        MyTheme::CatppuccinFrappe => "CatppuccinFrappe"@,
        MyTheme::CatppuccinLatte => "CatppuccinLatte"@,
        MyTheme::CatppuccinMacchiato => "CatppuccinMacchiato"@,
        MyTheme::CatppuccinMocha => "CatppuccinMocha"@,
        MyTheme::Dark => "Dark"@,
        MyTheme::Dracula => "Dracula"@,
        MyTheme::Ferra => "Ferra"@,
        MyTheme::GruvboxDark => "GruvboxDark"@,
        MyTheme::GruvboxLight => "GruvboxLight"@,
        MyTheme::KanagawaDragon => "KanagawaDragon"@,
        MyTheme::KanagawaLotus => "KanagawaLotus"@,
        MyTheme::KanagawaWave => "KanagawaWave"@,
        MyTheme::Light => "Light"@,
        MyTheme::Moonfly => "Moonfly"@,
        MyTheme::Nightfly => "Nightfly"@,
        MyTheme::Nord => "Nord"@,
        MyTheme::Oxocarbon => "Oxocarbon"@,
        MyTheme::SolarizedDark => "SolarizedDark"@,
        MyTheme::SolarizedLight => "SolarizedLight"@,
        MyTheme::TokyoNight => "TokyoNight"@,
        MyTheme::TokyoNightLight => "TokyoNightLight"@,
        MyTheme::TokyoNightStorm => "TokyoNightStorm"@,
    }
}

/// The theme stored under `name`, if any.
pub open spec fn theme_named(name: Seq<char>) -> Option<MyTheme> {
    if name == "CatppuccinFrappe"@ {
        Some(MyTheme::CatppuccinFrappe)
    } else if name == "CatppuccinLatte"@ {
        Some(MyTheme::CatppuccinLatte)
    } else if name == "CatppuccinMacchiato"@ {
        Some(MyTheme::CatppuccinMacchiato)
    } else if name == "CatppuccinMocha"@ {
        Some(MyTheme::CatppuccinMocha)
    } else if name == "Dark"@ {
        Some(MyTheme::Dark)
    } else if name == "Dracula"@ {
        Some(MyTheme::Dracula)
    } else if name == "Ferra"@ {
        Some(MyTheme::Ferra)
    } else if name == "GruvboxDark"@ {
        Some(MyTheme::GruvboxDark)
    } else if name == "GruvboxLight"@ {
        Some(MyTheme::GruvboxLight)
    } else if name == "KanagawaDragon"@ {
        Some(MyTheme::KanagawaDragon)
    } else if name == "KanagawaLotus"@ {
        Some(MyTheme::KanagawaLotus)
    } else if name == "KanagawaWave"@ {
        Some(MyTheme::KanagawaWave)
    } else if name == "Light"@ {
        Some(MyTheme::Light)
    } else if name == "Moonfly"@ {
        Some(MyTheme::Moonfly)
    } else if name == "Nightfly"@ {
        Some(MyTheme::Nightfly)
    } else if name == "Nord"@ {
        Some(MyTheme::Nord)
    } else if name == "Oxocarbon"@ {
        Some(MyTheme::Oxocarbon)
    } else if name == "SolarizedDark"@ {
        Some(MyTheme::SolarizedDark)
    } else if name == "SolarizedLight"@ {
        Some(MyTheme::SolarizedLight)
    } else if name == "TokyoNight"@ {
        Some(MyTheme::TokyoNight)
    } else if name == "TokyoNightLight"@ {
        Some(MyTheme::TokyoNightLight)
    } else if name == "TokyoNightStorm"@ {
        Some(MyTheme::TokyoNightStorm)
    } else {
        None
    }
}

/// The theme used where the preference file gives none.
pub open spec fn default_theme() -> MyTheme {
    MyTheme::Dark
}

/// The number of themes offered.
pub const THEME_COUNT: usize = 22;

/// The theme at position `i` of the settings pane's list.
pub open spec fn theme_at(i: int) -> MyTheme {
    if i == 9 {
        MyTheme::CatppuccinFrappe
    } else if i == 8 {
        MyTheme::CatppuccinLatte
    } else if i == 10 {
        MyTheme::CatppuccinMacchiato
    } else if i == 11 {
        MyTheme::CatppuccinMocha
    } else if i == 1 {
        MyTheme::Dark
    } else if i == 2 {
        MyTheme::Dracula
    } else if i == 21 {
        MyTheme::Ferra
    } else if i == 7 {
        MyTheme::GruvboxDark
    } else if i == 6 {
        MyTheme::GruvboxLight
    } else if i == 16 {
        MyTheme::KanagawaDragon
    } else if i == 17 {
        MyTheme::KanagawaLotus
    } else if i == 15 {
        MyTheme::KanagawaWave
    } else if i == 0 {
        MyTheme::Light
    } else if i == 18 {
        MyTheme::Moonfly
    } else if i == 19 {
        MyTheme::Nightfly
    } else if i == 3 {
        MyTheme::Nord
    } else if i == 20 {
        MyTheme::Oxocarbon
    } else if i == 5 {
        MyTheme::SolarizedDark
    } else if i == 4 {
        MyTheme::SolarizedLight
    } else if i == 12 {
        MyTheme::TokyoNight
    } else if i == 14 {
        MyTheme::TokyoNightLight
    } else {
        MyTheme::TokyoNightStorm
    }
}

/// The theme a preference document selects: the one named by its
/// `"theme"` member, or the default where there is none or it names none.
pub open spec fn theme_from_member(member: Option<Seq<char>>) -> MyTheme {
    match member {
        Some(name) => match theme_named(name) {
            Some(t) => t,
            None => default_theme(),
        },
        None => default_theme(),
    }
}

/// What `serde_json` finds as the string member `key` of the JSON document
/// `text`; `None` where the text is no JSON, or the member is missing or
/// no string.
pub uninterp spec fn json_string_member(text: Seq<char>, key: Seq<char>) -> Option<Seq<char>>;

/// A lower-case hexadecimal digit (`d < 16`).
pub open spec fn hex_digit(d: nat) -> char {
    if d < 10 {
        digit_char(d)
    } else if d == 10 {
        'a'
    } else if d == 11 {
        'b'
    } else if d == 12 {
        'c'
    } else if d == 13 {
        'd'
    } else if d == 14 {
        'e'
    } else {
        'f'
    }
}

/// How a JSON string writes character `c`: quote and backslash behind a
/// backslash, the five control characters with a short escape as such,
/// the other control characters as `\u00XX`, everything else as itself.
pub open spec fn json_escaped_char(c: char) -> Seq<char> {
    if c == '"' {
        seq!['\\', '"']
    } else if c == '\\' {
        seq!['\\', '\\']
    } else if c == '\u{8}' {
        seq!['\\', 'b']
    } else if c == '\t' {
        seq!['\\', 't']
    } else if c == '\n' {
        seq!['\\', 'n']
    } else if c == '\u{c}' {
        seq!['\\', 'f']
    } else if c == '\r' {
        seq!['\\', 'r']
    } else if (c as u32) < 0x20 {
        seq!['\\', 'u', '0', '0', hex_digit((c as u32 / 16) as nat), hex_digit((c as u32 % 16) as nat)]
    } else {
        seq![c]
    }
}

/// The characters of `s` as a JSON string writes them, without the quotes.
pub open spec fn json_escaped(s: Seq<char>) -> Seq<char>
    decreases s.len(),
{
    if s.len() == 0 {
        Seq::empty()
    } else {
        json_escaped(s.drop_last()) + json_escaped_char(s.last())
    }
}

/// The compact JSON text of an object with the one string member
/// `key: value`: `{"key":"value"}`, both escaped.
pub open spec fn json_object_text(key: Seq<char>, value: Seq<char>) -> Seq<char> {
    "{\""@ + json_escaped(key) + "\":\""@ + json_escaped(value) + "\"}"@
}

/// Relies on `serde_json::from_str::<Value>`, `Value::get` and
/// `Value::as_str`: parses `text` and reads its string member `key`.
#[verifier::external_body]
fn read_string_member(text: &str, key: &str) -> (r: Option<String>)
    ensures
        match r {
            Some(s) => json_string_member(text@, key@) == Some(s@),
            None => json_string_member(text@, key@) is None,
        },
{
    serde_json::from_str::<serde_json::Value>(text)
        .ok()
        .and_then(|v| v.get(key).and_then(|m| m.as_str()).map(|s| s.to_string()))
}

/// Relies on `serde_json::Map::insert` and `Value::to_string`: writes the
/// object `{key: value}` as compact JSON text, escaping strings by
/// serde_json's fixed table.
#[verifier::external_body]
fn write_string_object(key: &str, value: &str) -> (r: String)
    ensures
        r@ == json_object_text(key@, value@),
{
    let mut m = serde_json::Map::new();
    m.insert(key.to_string(), serde_json::Value::String(value.to_string()));
    serde_json::Value::Object(m).to_string()
}

impl MyTheme {
    /// The name this theme is stored under.
    pub fn name(&self) -> (r: String)
        ensures
            r@ == theme_name_spec(*self),
    {
        match self {
            MyTheme::CatppuccinFrappe => String::from_str("CatppuccinFrappe"),
            MyTheme::CatppuccinLatte => String::from_str("CatppuccinLatte"),
            MyTheme::CatppuccinMacchiato => String::from_str("CatppuccinMacchiato"),
            MyTheme::CatppuccinMocha => String::from_str("CatppuccinMocha"),
            MyTheme::Dark => String::from_str("Dark"),
            MyTheme::Dracula => String::from_str("Dracula"),
            MyTheme::Ferra => String::from_str("Ferra"),
            MyTheme::GruvboxDark => String::from_str("GruvboxDark"),
            MyTheme::GruvboxLight => String::from_str("GruvboxLight"),
            MyTheme::KanagawaDragon => String::from_str("KanagawaDragon"),
            MyTheme::KanagawaLotus => String::from_str("KanagawaLotus"),
            MyTheme::KanagawaWave => String::from_str("KanagawaWave"),
            MyTheme::Light => String::from_str("Light"),
            MyTheme::Moonfly => String::from_str("Moonfly"),
            MyTheme::Nightfly => String::from_str("Nightfly"),
            MyTheme::Nord => String::from_str("Nord"),
            MyTheme::Oxocarbon => String::from_str("Oxocarbon"),
            MyTheme::SolarizedDark => String::from_str("SolarizedDark"),
            MyTheme::SolarizedLight => String::from_str("SolarizedLight"),
            MyTheme::TokyoNight => String::from_str("TokyoNight"),
            MyTheme::TokyoNightLight => String::from_str("TokyoNightLight"),
            MyTheme::TokyoNightStorm => String::from_str("TokyoNightStorm"),
        }
    }

    /// The theme stored under `name`, if any.
    pub fn from_name(name: &String) -> (r: Option<MyTheme>)
        ensures
            r == theme_named(name@),
    {
        if *name == String::from_str("CatppuccinFrappe") {
            Some(MyTheme::CatppuccinFrappe)
        } else if *name == String::from_str("CatppuccinLatte") {
            Some(MyTheme::CatppuccinLatte)
        } else if *name == String::from_str("CatppuccinMacchiato") {
            Some(MyTheme::CatppuccinMacchiato)
        } else if *name == String::from_str("CatppuccinMocha") {
            Some(MyTheme::CatppuccinMocha)
        } else if *name == String::from_str("Dark") {
            Some(MyTheme::Dark)
        } else if *name == String::from_str("Dracula") {
            Some(MyTheme::Dracula)
        } else if *name == String::from_str("Ferra") {
            Some(MyTheme::Ferra)
        } else if *name == String::from_str("GruvboxDark") {
            Some(MyTheme::GruvboxDark)
        } else if *name == String::from_str("GruvboxLight") {
            Some(MyTheme::GruvboxLight)
        } else if *name == String::from_str("KanagawaDragon") {
            Some(MyTheme::KanagawaDragon)
        } else if *name == String::from_str("KanagawaLotus") {
            Some(MyTheme::KanagawaLotus)
        } else if *name == String::from_str("KanagawaWave") {
            Some(MyTheme::KanagawaWave)
        } else if *name == String::from_str("Light") {
            Some(MyTheme::Light)
        } else if *name == String::from_str("Moonfly") {
            Some(MyTheme::Moonfly)
        } else if *name == String::from_str("Nightfly") {
            Some(MyTheme::Nightfly)
        } else if *name == String::from_str("Nord") {
            Some(MyTheme::Nord)
        } else if *name == String::from_str("Oxocarbon") {
            Some(MyTheme::Oxocarbon)
        } else if *name == String::from_str("SolarizedDark") {
            Some(MyTheme::SolarizedDark)
        } else if *name == String::from_str("SolarizedLight") {
            Some(MyTheme::SolarizedLight)
        } else if *name == String::from_str("TokyoNight") {
            Some(MyTheme::TokyoNight)
        } else if *name == String::from_str("TokyoNightLight") {
            Some(MyTheme::TokyoNightLight)
        } else if *name == String::from_str("TokyoNightStorm") {
            Some(MyTheme::TokyoNightStorm)
        } else {
            None
        }
    }
}

impl MyTheme {
    /// The theme at position `i` of the settings pane's list.
    pub fn at(i: usize) -> (r: MyTheme)
        requires
            i < THEME_COUNT,
        ensures
            r == theme_at(i as int),
    {
        match i {
            9 => MyTheme::CatppuccinFrappe,
            8 => MyTheme::CatppuccinLatte,
            10 => MyTheme::CatppuccinMacchiato,
            11 => MyTheme::CatppuccinMocha,
            1 => MyTheme::Dark,
            2 => MyTheme::Dracula,
            21 => MyTheme::Ferra,
            7 => MyTheme::GruvboxDark,
            6 => MyTheme::GruvboxLight,
            16 => MyTheme::KanagawaDragon,
            17 => MyTheme::KanagawaLotus,
            15 => MyTheme::KanagawaWave,
            0 => MyTheme::Light,
            18 => MyTheme::Moonfly,
            19 => MyTheme::Nightfly,
            3 => MyTheme::Nord,
            20 => MyTheme::Oxocarbon,
            5 => MyTheme::SolarizedDark,
            4 => MyTheme::SolarizedLight,
            12 => MyTheme::TokyoNight,
            14 => MyTheme::TokyoNightLight,
            _ => MyTheme::TokyoNightStorm,
        }
    }
}

/// The themes offered in the settings pane, in order.
pub fn theme_choices() -> (r: Vec<MyTheme>)
    ensures
        r@.len() == THEME_COUNT,
        forall|i: int| 0 <= i < THEME_COUNT ==> #[trigger] r@[i] == theme_at(i),
{
    let mut v: Vec<MyTheme> = Vec::with_capacity(THEME_COUNT);
    let mut i: usize = 0;
    while i < THEME_COUNT
        invariant
            i <= THEME_COUNT,
            v@.len() == i,
            forall|j: int| 0 <= j < i ==> #[trigger] v@[j] == theme_at(j),
        decreases THEME_COUNT - i,
    {
        v.push(MyTheme::at(i));
        i = i + 1;
    }
    v
}

/// The theme a preference file selects. `contents` is the file's text, or
/// `None` where it could not be read; a missing, unreadable or malformed
/// file, or one that names no known theme, gives the default.
pub fn load_theme(contents: Option<String>) -> (r: MyTheme)
    ensures
        r == match contents {
            Some(text) => theme_from_member(json_string_member(text@, "theme"@)),
            None => default_theme(),
        },
{
    match contents {
        Some(text) => {
            let member = read_string_member(text.as_str(), "theme");
            theme_from_stored_name(member)
        },
        None => MyTheme::Dark,
    }
}

/// The theme that a `"theme"` member selects, or the default where there is
/// no member or it names no theme.
pub fn theme_from_stored_name(member: Option<String>) -> (r: MyTheme)
    ensures
        r == theme_from_member(
            match member {
                Some(s) => Some(s@),
                None => None,
            },
        ),
{
    match member {
        Some(name) => match MyTheme::from_name(&name) {
            Some(t) => t,
            None => MyTheme::Dark,
        },
        None => MyTheme::Dark,
    }
}

/// The preference file's text for theme `t`: a JSON object whose one member
/// `"theme"` holds the theme's name.
pub fn settings_text(t: MyTheme) -> (r: String)
    ensures
        r@ == json_object_text("theme"@, theme_name_spec(t)),
{
    let name = t.name();
    write_string_object("theme", name.as_str())
}

} // verus!
