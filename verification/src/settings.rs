//! The rules of the configurator window: what each setting row shows, whether
//! it can be edited, and how an edit changes the stored configuration.
use vstd::prelude::*;
use crate::config::{
    Config, DisplayVoiceMembers, TransportMode, DEFAULT_PORT, spec_display_members_from,
    spec_display_members_text, spec_transport_from,
};
use crate::util::chars::{chars_of, spec_trim, str_eq, string_from_str, string_of, trim_chars};
use crate::util::number::{
    lemma_decimal_trimmed, lemma_i32_decimal_roundtrip, lemma_u16_decimal_roundtrip, parse_i32,
    parse_u16, spec_decimal, spec_parse_i32, spec_parse_u16, u16_to_decimal,
};

verus! {

/// The rows of the configurator whose edits are applied by `apply_setting`.
#[derive(Clone, Copy, Debug, PartialEq, Eq, Structural)]
pub enum Setting {
    TransportMode,
    Port,
    KeybindEnabled,
    OverlayKeybind,
    Display,
    AccentColor,
    TextColor,
    SoftwareRendering,
    DisplayVoiceMembers,
    MessagesSemitransparent,
    VoiceAlignment,
    VoiceOffsetX,
    VoiceOffsetY,
    MessageAlignment,
    MessageOffsetX,
    MessageOffsetY,
}

/// What a setting row reports when the user edits it.
pub enum SettingChange {
    /// Text typed in an input, or an option picked in a dropdown.
    Value(String),
    /// A toggle switched.
    Bool(bool),
    /// A color picked, as red, green and blue.
    Color((u8, u8, u8)),
    /// A keybind recorded, as the names of its keys.
    Keys(Vec<String>),
}

/// The first position of `name` in `names`.
pub open spec fn spec_position(names: Seq<Seq<char>>, name: Seq<char>) -> Option<int>
    decreases names.len(),
{
    if names.len() == 0 {
        None
    } else if names[0] == name {
        Some(0)
    } else {
        match spec_position(names.drop_first(), name) {
            Some(i) => Some(i + 1),
            None => None,
        }
    }
}

pub proof fn lemma_spec_position(names: Seq<Seq<char>>, name: Seq<char>)
    ensures
        match spec_position(names, name) {
            Some(i) => 0 <= i < names.len() && names[i] == name && forall|j: int|
                0 <= j < i ==> names[j] != name,
            None => forall|j: int| 0 <= j < names.len() ==> names[j] != name,
        },
    decreases names.len(),
{
    if names.len() > 0 && names[0] != name {
        lemma_spec_position(names.drop_first(), name);
        assert forall|j: int| 0 < j < names.len() implies names[j] == names.drop_first()[j - 1] by {}
    }
}

/// The texts of `v`.
pub open spec fn texts(v: Seq<String>) -> Seq<Seq<char>> {
    v.map_values(|s: String| s@)
}

/// The configuration after the row `setting` reported `change`; `names` are the
/// display names the display dropdown lists. An edit of another kind than the
/// row takes, or text that does not parse as the row's number, changes nothing.
pub open spec fn spec_apply_setting(
    c: Config,
    setting: Setting,
    change: SettingChange,
    names: Seq<Seq<char>>,
) -> Config {
    match (setting, change) {
        (Setting::TransportMode, SettingChange::Value(v)) => Config {
            transport_mode: spec_transport_from(v@),
            ..c
        },
        (Setting::Port, SettingChange::Value(v)) => match spec_parse_u16(spec_trim(v@)) {
            Some(n) => Config { port: Some(n), ..c },
            None => c,
        },
        (Setting::KeybindEnabled, SettingChange::Bool(b)) => Config {
            is_keybind_enabled: Some(b),
            ..c
        },
        (Setting::OverlayKeybind, SettingChange::Keys(ks)) => Config {
            overlay_keybind: Some(ks),
            ..c
        },
        (Setting::Display, SettingChange::Value(v)) => match spec_position(names, v@) {
            Some(i) => Config { display_idx: Some(i as usize), ..c },
            None => c,
        },
        (Setting::AccentColor, SettingChange::Color(rgb)) => Config { accent: rgb, ..c },
        (Setting::TextColor, SettingChange::Color(rgb)) => Config { text_color: rgb, ..c },
        (Setting::SoftwareRendering, SettingChange::Bool(b)) => Config {
            software_rendering: Some(b),
            ..c
        },
        (Setting::DisplayVoiceMembers, SettingChange::Value(v)) => Config {
            display_voice_members: Some(spec_display_members_from(v@)),
            ..c
        },
        (Setting::MessagesSemitransparent, SettingChange::Bool(b)) => Config {
            messages_semitransparent: b,
            ..c
        },
        (Setting::VoiceAlignment, SettingChange::Value(v)) => Config {
            user_alignment: Some(v),
            ..c
        },
        (Setting::VoiceOffsetX, SettingChange::Value(v)) => match spec_parse_i32(spec_trim(v@)) {
            Some(n) => Config { user_offset_x: n, ..c },
            None => c,
        },
        (Setting::VoiceOffsetY, SettingChange::Value(v)) => match spec_parse_i32(spec_trim(v@)) {
            Some(n) => Config { user_offset_y: n, ..c },
            None => c,
        },
        (Setting::MessageAlignment, SettingChange::Value(v)) => Config {
            message_alignment: Some(v),
            ..c
        },
        (Setting::MessageOffsetX, SettingChange::Value(v)) => match spec_parse_i32(
            spec_trim(v@),
        ) {
            Some(n) => Config { message_offset_x: n, ..c },
            None => c,
        },
        (Setting::MessageOffsetY, SettingChange::Value(v)) => match spec_parse_i32(
            spec_trim(v@),
        ) {
            Some(n) => Config { message_offset_y: n, ..c },
            None => c,
        },
        _ => c,
    }
}

/// `text` without surrounding whitespace, as a `String`.
fn trimmed(text: &String) -> (r: String)
    ensures
        r@ == spec_trim(text@),
{
    string_of(&trim_chars(&chars_of(text.as_str())))
}

/// The position of `name` among `names`, if it is listed.
pub fn position_of(names: &Vec<String>, name: &String) -> (r: Option<usize>)
    ensures
        match spec_position(texts(names@), name@) {
            Some(i) => r == Some(i as usize),
            None => r is None,
        },
{
    let ghost ns = texts(names@);
    proof {
        lemma_spec_position(ns, name@);
    }
    let mut i: usize = 0;
    while i < names.len()
        invariant
            i <= names.len(),
            ns == texts(names@),
            forall|j: int| 0 <= j < i ==> ns[j] != name@,
            match spec_position(ns, name@) {
                Some(k) => 0 <= k < ns.len() && ns[k] == name@ && forall|j: int|
                    0 <= j < k ==> ns[j] != name@,
                None => forall|j: int| 0 <= j < ns.len() ==> ns[j] != name@,
            },
        decreases names.len() - i,
    {
        if str_eq(names[i].as_str(), name.as_str()) {
            assert(ns[i as int] == name@);
            return Some(i);
        }
        i = i + 1;
    }
    None
}

/// Applies the edit `change` reported by the row `setting` to `config`.
pub fn apply_setting(
    config: &mut Config,
    setting: Setting,
    change: SettingChange,
    display_names: &Vec<String>,
)
    ensures
        *final(config) == spec_apply_setting(*old(config), setting, change, texts(display_names@)),
{
    match (setting, change) {
        (Setting::TransportMode, SettingChange::Value(v)) => {
            config.transport_mode = TransportMode::from(v);
        },
        (Setting::Port, SettingChange::Value(v)) => {
            let t = trimmed(&v);
            if let Some(n) = parse_u16(t.as_str()) {
                config.port = Some(n);
            }
        },
        (Setting::KeybindEnabled, SettingChange::Bool(b)) => {
            config.is_keybind_enabled = Some(b);
        },
        (Setting::OverlayKeybind, SettingChange::Keys(ks)) => {
            config.overlay_keybind = Some(ks);
        },
        (Setting::Display, SettingChange::Value(v)) => {
            if let Some(i) = position_of(display_names, &v) {
                config.display_idx = Some(i);
            }
        },
        (Setting::AccentColor, SettingChange::Color(rgb)) => {
            config.accent = rgb;
        },
        (Setting::TextColor, SettingChange::Color(rgb)) => {
            config.text_color = rgb;
        },
        (Setting::SoftwareRendering, SettingChange::Bool(b)) => {
            config.software_rendering = Some(b);
        },
        (Setting::DisplayVoiceMembers, SettingChange::Value(v)) => {
            config.display_voice_members = Some(DisplayVoiceMembers::from(v));
        },
        (Setting::MessagesSemitransparent, SettingChange::Bool(b)) => {
            config.messages_semitransparent = b;
        },
        (Setting::VoiceAlignment, SettingChange::Value(v)) => {
            config.user_alignment = Some(v);
        },
        (Setting::VoiceOffsetX, SettingChange::Value(v)) => {
            if let Some(n) = parse_i32(trimmed(&v).as_str()) {
                config.user_offset_x = n;
            }
        },
        (Setting::VoiceOffsetY, SettingChange::Value(v)) => {
            if let Some(n) = parse_i32(trimmed(&v).as_str()) {
                config.user_offset_y = n;
            }
        },
        (Setting::MessageAlignment, SettingChange::Value(v)) => {
            config.message_alignment = Some(v);
        },
        (Setting::MessageOffsetX, SettingChange::Value(v)) => {
            if let Some(n) = parse_i32(trimmed(&v).as_str()) {
                config.message_offset_x = n;
            }
        },
        (Setting::MessageOffsetY, SettingChange::Value(v)) => {
            if let Some(n) = parse_i32(trimmed(&v).as_str()) {
                config.message_offset_y = n;
            }
        },
        _ => {},
    }
}

/// "Reset to Defaults": every setting goes back to its default.
pub fn reset_to_defaults(config: &mut Config)
    ensures
        final(config).is_default(),
{
    *config = Config::default();
}

/// Whether the global keybind is on; it is unless switched off.
pub fn keybind_enabled(config: &Config) -> (r: bool)
    ensures
        r == match config.is_keybind_enabled {
            Some(b) => b,
            None => true,
        },
{
    match config.is_keybind_enabled {
        Some(b) => b,
        None => true,
    }
}

/// The port the websocket row shows: the configured one, else the default.
pub fn port_text(config: &Config) -> (s: String)
    ensures
        s@ == spec_decimal(
            match config.port {
                Some(p) => p as int,
                None => DEFAULT_PORT as int,
            },
        ),
{
    match config.port {
        Some(p) => u16_to_decimal(p),
        None => u16_to_decimal(DEFAULT_PORT),
    }
}

/// The port row can only be edited in websocket mode.
pub fn port_setting_disabled(config: &Config) -> (r: bool)
    ensures
        r == (config.transport_mode != TransportMode::Websocket),
{
    match config.transport_mode {
        TransportMode::Websocket => false,
        TransportMode::Ipc => true,
    }
}

/// The overlay keybind row can only be edited while the keybind is on.
pub fn keybind_setting_disabled(config: &Config) -> (r: bool)
    ensures
        r == !match config.is_keybind_enabled {
            Some(b) => b,
            None => true,
        },
{
    !keybind_enabled(config)
}

/// The display the display dropdown shows as chosen, if the stored index names one.
pub fn selected_display_name(config: &Config, names: &Vec<String>) -> (r: Option<String>)
    ensures
        match config.display_idx {
            Some(i) => if i < names@.len() {
                r is Some && r->0@ == names@[i as int]@
            } else {
                r is None
            },
            None => r is None,
        },
{
    match config.display_idx {
        Some(i) => {
            if i < names.len() {
                Some(string_from_str(names[i].as_str()))
            } else {
                None
            }
        },
        None => None,
    }
}

/// The option a stored alignment stands for in its dropdown, `fallback` if none is stored.
fn alignment_choice(stored: &Option<String>, fallback: &str) -> (r: String)
    ensures
        r@ == match stored {
            Some(s) => s@,
            None => fallback@,
        },
{
    match stored {
        Some(s) => string_from_str(s.as_str()),
        None => string_from_str(fallback),
    }
}

/// The option the voice alignment dropdown shows: the stored one, else "topleft".
pub fn voice_alignment_choice(config: &Config) -> (r: String)
    ensures
        r@ == match config.user_alignment {
            Some(s) => s@,
            None => "topleft"@,
        },
{
    alignment_choice(&config.user_alignment, "topleft")
}

/// The option the notification alignment dropdown shows: the stored one, else "topright".
pub fn message_alignment_choice(config: &Config) -> (r: String)
    ensures
        r@ == match config.message_alignment {
            Some(s) => s@,
            None => "topright"@,
        },
{
    alignment_choice(&config.message_alignment, "topright")
}

/// The option the voice members dropdown shows; unset means the default option.
pub fn display_members_choice(config: &Config) -> (r: String)
    ensures
        r@ == spec_display_members_text(
            match config.display_voice_members {
                Some(d) => d,
                None => DisplayVoiceMembers::AlwaysSemiTransparent,
            },
        ),
{
    match config.display_voice_members {
        Some(d) => d.to_string(),
        None => DisplayVoiceMembers::default().to_string(),
    }
}

/// Typing back the port the port row shows stores that same port, and only
/// the port changes.
pub proof fn lemma_port_edit_roundtrip(c: Config, n: u16, text: String, names: Seq<Seq<char>>)
    requires
        text@ == spec_decimal(n as int),
    ensures
        spec_apply_setting(c, Setting::Port, SettingChange::Value(text), names) == (Config { port: Some(n), ..c }),
{
    lemma_decimal_trimmed(n as int);
    lemma_u16_decimal_roundtrip(n);
}

/// Typing back the decimal text of an offset into an offset row stores that
/// offset in the row's field, and nothing else changes.
pub proof fn lemma_offset_edit_roundtrip(c: Config, n: i32, text: String, names: Seq<Seq<char>>)
    requires
        text@ == spec_decimal(n as int),
    ensures
        spec_apply_setting(c, Setting::VoiceOffsetX, SettingChange::Value(text), names)
            == (Config { user_offset_x: n, ..c }),
        spec_apply_setting(c, Setting::VoiceOffsetY, SettingChange::Value(text), names)
            == (Config { user_offset_y: n, ..c }),
        spec_apply_setting(c, Setting::MessageOffsetX, SettingChange::Value(text), names)
            == (Config { message_offset_x: n, ..c }),
        spec_apply_setting(c, Setting::MessageOffsetY, SettingChange::Value(text), names)
            == (Config { message_offset_y: n, ..c }),
{
    lemma_decimal_trimmed(n as int);
    lemma_i32_decimal_roundtrip(n);
}

/// Picking a listed display stores its position among the listed names.
pub proof fn lemma_display_pick(c: Config, names: Seq<Seq<char>>, i: int, text: String)
    requires
        0 <= i < names.len(),
        i <= usize::MAX,
        names[i] == text@,
        forall|j: int| 0 <= j < i ==> names[j] != names[i],
    ensures
        spec_apply_setting(c, Setting::Display, SettingChange::Value(text), names).display_idx
            == Some(i as usize),
{
    lemma_spec_position(names, text@);
}

} // verus!
