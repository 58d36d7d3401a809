use vstd::prelude::*;
use crate::payloads::clone_opt_string;

use crate::util::chars::{str_eq, string_from_str, to_ascii_lowercase, chars_eq, chars_of, spec_ascii_lowercase, push_char};
use crate::util::number::{i32_to_decimal, spec_decimal};

verus! {

/// How the overlay talks to the Discord client.
#[derive(Clone, Copy, Debug, PartialEq, Eq, Structural)]
pub enum TransportMode {
    Ipc,
    Websocket,
}

/// The name under which a transport mode is shown and stored.
pub open spec fn spec_transport_text(m: TransportMode) -> Seq<char> {
    match m {
        TransportMode::Ipc => "ipc"@,
        TransportMode::Websocket => "websocket"@,
    }
}

/// The transport mode a stored name stands for; unknown names mean IPC.
pub open spec fn spec_transport_from(s: Seq<char>) -> TransportMode {
    if s == "websocket"@ {
        TransportMode::Websocket
    } else {
        TransportMode::Ipc
    }
}

impl TransportMode {
    /// The name of the mode ("ipc" or "websocket").
    pub fn to_string(&self) -> (s: String)
        ensures
            s@ == spec_transport_text(*self),
    {
        match self {
            TransportMode::Ipc => string_from_str("ipc"),
            TransportMode::Websocket => string_from_str("websocket"),
        }
    }
}

impl Default for TransportMode {
    fn default() -> (m: TransportMode)
        ensures
            m == TransportMode::Ipc,
    {
        TransportMode::Ipc
    }
}

impl From<String> for TransportMode {
    fn from(value: String) -> (m: TransportMode) {
        if str_eq(value.as_str(), "websocket") {
            TransportMode::Websocket
        } else {
            TransportMode::Ipc
        }
    }
}

impl vstd::std_specs::convert::FromSpecImpl<String> for TransportMode {
    open spec fn obeys_from_spec() -> bool {
        true
    }

    open spec fn from_spec(value: String) -> TransportMode {
        spec_transport_from(value@)
    }
}

/// Reading back the stored name of a transport mode gives the same mode.
pub proof fn lemma_transport_roundtrip(m: TransportMode)
    ensures
        spec_transport_from(spec_transport_text(m)) == m,
{
    reveal_strlit("ipc");
    reveal_strlit("websocket");
    assert("ipc"@.len() != "websocket"@.len());
}

/// When voice channel members are shown.
#[derive(Clone, Copy, Debug, PartialEq, Eq, Structural)]
pub enum DisplayVoiceMembers {
    Always,
    AlwaysSemiTransparent,
    WhenSpeaking,
}

/// The label under which a display option is shown and stored.
pub open spec fn spec_display_members_text(d: DisplayVoiceMembers) -> Seq<char> {
    match d {
        DisplayVoiceMembers::Always => "always"@,
        DisplayVoiceMembers::AlwaysSemiTransparent => "always (semi-transparent)"@,
        DisplayVoiceMembers::WhenSpeaking => "only when speaking"@,
    }
}

/// The display option a stored label stands for; unknown labels mean `Always`.
pub open spec fn spec_display_members_from(s: Seq<char>) -> DisplayVoiceMembers {
    if s == "always (semi-transparent)"@ {
        DisplayVoiceMembers::AlwaysSemiTransparent
    } else if s == "only when speaking"@ {
        DisplayVoiceMembers::WhenSpeaking
    } else {
        DisplayVoiceMembers::Always
    }
}

impl DisplayVoiceMembers {
    /// The label of the option, as the configurator lists it.
    pub fn to_string(&self) -> (s: String)
        ensures
            s@ == spec_display_members_text(*self),
    {
        match self {
            DisplayVoiceMembers::Always => string_from_str("always"),
            DisplayVoiceMembers::AlwaysSemiTransparent => string_from_str(
                "always (semi-transparent)",
            ),
            DisplayVoiceMembers::WhenSpeaking => string_from_str("only when speaking"),
        }
    }
}

impl Default for DisplayVoiceMembers {
    fn default() -> (d: DisplayVoiceMembers)
        ensures
            d == DisplayVoiceMembers::AlwaysSemiTransparent,
    {
        DisplayVoiceMembers::AlwaysSemiTransparent
    }
}

impl From<String> for DisplayVoiceMembers {
    fn from(value: String) -> (d: DisplayVoiceMembers) {
        if str_eq(value.as_str(), "always (semi-transparent)") {
            DisplayVoiceMembers::AlwaysSemiTransparent
        } else if str_eq(value.as_str(), "only when speaking") {
            DisplayVoiceMembers::WhenSpeaking
        } else {
            DisplayVoiceMembers::Always
        }
    }
}

impl vstd::std_specs::convert::FromSpecImpl<String> for DisplayVoiceMembers {
    open spec fn obeys_from_spec() -> bool {
        true
    }

    open spec fn from_spec(value: String) -> DisplayVoiceMembers {
        spec_display_members_from(value@)
    }
}

/// Reading back the stored label of a display option gives the same option.
pub proof fn lemma_display_members_roundtrip(d: DisplayVoiceMembers)
    ensures
        spec_display_members_from(spec_display_members_text(d)) == d,
{
    reveal_strlit("always");
    reveal_strlit("always (semi-transparent)");
    reveal_strlit("only when speaking");
    assert("always"@.len() != "always (semi-transparent)"@.len());
    assert("always"@.len() != "only when speaking"@.len());
    assert("only when speaking"@.len() != "always (semi-transparent)"@.len());
}

/// The keys that open the overlay unless configured otherwise.
pub fn default_overlay_keybind() -> (r: Option<Vec<String>>)
    ensures
        r is Some,
        r->0@.len() == 2,
        r->0@[0]@ == "ControlLeft"@,
        r->0@[1]@ == "BackQuote"@,
{
    let mut v: Vec<String> = Vec::new();
    v.push(string_from_str("ControlLeft"));
    v.push(string_from_str("BackQuote"));
    Some(v)
}

/// The default accent (panel) color.
pub fn default_accent() -> (c: (u8, u8, u8))
    ensures
        c == (30u8, 31u8, 35u8),
{
    (30, 31, 35)
}

/// The default text color.
pub fn default_text() -> (c: (u8, u8, u8))
    ensures
        c == (255u8, 255u8, 255u8),
{
    (255, 255, 255)
}

/// The bits of the `f32` value 10.0, the default corner radius.
pub const DEFAULT_BORDER_RADIUS_BITS: u32 = 0x4120_0000;

/// The port the websocket server listens on unless configured otherwise.
pub const DEFAULT_PORT: u16 = 6888;

/// The user's settings, as stored in `config.json`.
///
/// The corner radius is a floating-point setting; it is kept here as the bit
/// pattern of its `f32` value, which this library stores and hands back
/// unchanged.
#[derive(Debug)]
pub struct Config {
    pub overlay_keybind: Option<Vec<String>>,
    pub display_idx: Option<usize>,
    pub port: Option<u16>,
    pub message_alignment: Option<String>,
    pub user_alignment: Option<String>,
    pub message_offset_x: i32,
    pub message_offset_y: i32,
    pub user_offset_x: i32,
    pub user_offset_y: i32,
    pub display_voice_members: Option<DisplayVoiceMembers>,
    pub messages_semitransparent: bool,
    pub is_keybind_enabled: Option<bool>,
    pub transport_mode: TransportMode,
    pub software_rendering: Option<bool>,
    pub accent: (u8, u8, u8),
    pub text_color: (u8, u8, u8),
    pub border_radius_bits: u32,
}

impl Config {
    /// The settings used before the user changes anything.
    pub open spec fn is_default(self) -> bool {
        &&& self.overlay_keybind is Some
        &&& self.overlay_keybind->0@.len() == 2
        &&& self.overlay_keybind->0@[0]@ == "ControlLeft"@
        &&& self.overlay_keybind->0@[1]@ == "BackQuote"@
        &&& self.display_idx is None
        &&& self.port == Some(DEFAULT_PORT)
        &&& self.message_alignment is None
        &&& self.user_alignment is None
        &&& self.message_offset_x == 0
        &&& self.message_offset_y == 0
        &&& self.user_offset_x == 0
        &&& self.user_offset_y == 0
        &&& self.display_voice_members == Some(DisplayVoiceMembers::AlwaysSemiTransparent)
        &&& !self.messages_semitransparent
        &&& self.is_keybind_enabled is None
        &&& self.transport_mode == TransportMode::Ipc
        &&& self.software_rendering is None
        &&& self.accent == (30u8, 31u8, 35u8)
        &&& self.text_color == (255u8, 255u8, 255u8)
        &&& self.border_radius_bits == DEFAULT_BORDER_RADIUS_BITS
    }
}

/// The elements of an optional list.
pub open spec fn opt_list(v: Option<Vec<String>>) -> Option<Seq<String>> {
    match v {
        Some(list) => Some(list@),
        None => None,
    }
}

/// A copy of an optional list of texts.
fn clone_opt_strings(v: &Option<Vec<String>>) -> (r: Option<Vec<String>>)
    ensures
        opt_list(r) == opt_list(*v),
{
    match v {
        Some(list) => {
            let mut out: Vec<String> = Vec::new();
            let mut i: usize = 0;
            while i < list.len()
                invariant
                    i <= list@.len(),
                    out@ == list@.take(i as int),
                decreases list.len() - i,
            {
                out.push(list[i].clone());
                assert(list@.take(i + 1) == list@.take(i as int).push(list@[i as int]));
                i = i + 1;
            }
            assert(list@.take(list.len() as int) == list@);
            assert(out@ == list@);
            Some(out)
        },
        None => None,
    }
}

impl Clone for Config {
    /// A copy: every setting equal, the overlay keybind as an equal list.
    fn clone(&self) -> (c: Config)
        ensures
            c == (Config { overlay_keybind: c.overlay_keybind, ..*self }),
            opt_list(c.overlay_keybind) == opt_list(self.overlay_keybind),
    {
        Config {
            overlay_keybind: clone_opt_strings(&self.overlay_keybind),
            display_idx: self.display_idx,
            port: self.port,
            message_alignment: clone_opt_string(&self.message_alignment),
            user_alignment: clone_opt_string(&self.user_alignment),
            message_offset_x: self.message_offset_x,
            message_offset_y: self.message_offset_y,
            user_offset_x: self.user_offset_x,
            user_offset_y: self.user_offset_y,
            display_voice_members: self.display_voice_members,
            messages_semitransparent: self.messages_semitransparent,
            is_keybind_enabled: self.is_keybind_enabled,
            transport_mode: self.transport_mode,
            software_rendering: self.software_rendering,
            accent: self.accent,
            text_color: self.text_color,
            border_radius_bits: self.border_radius_bits,
        }
    }
}

impl Default for Config {
    fn default() -> (c: Config)
        ensures
            c.is_default(),
    {
        Config {
            overlay_keybind: default_overlay_keybind(),
            display_idx: None,
            port: Some(DEFAULT_PORT),
            message_alignment: None,
            user_alignment: None,
            message_offset_x: 0,
            message_offset_y: 0,
            user_offset_x: 0,
            user_offset_y: 0,
            display_voice_members: Some(DisplayVoiceMembers::AlwaysSemiTransparent),
            messages_semitransparent: false,
            is_keybind_enabled: None,
            transport_mode: TransportMode::Ipc,
            software_rendering: None,
            accent: default_accent(),
            text_color: default_text(),
            border_radius_bits: DEFAULT_BORDER_RADIUS_BITS,
        }
    }
}

/// Whether this is the first run: no settings could be loaded.
pub fn is_first_run(saved: &Option<Config>) -> (r: bool)
    ensures
        r == (saved is None),
{
    saved.is_none()
}

/// The transport to start: the forced one if any, else the configured one.
pub fn select_forced_transport(force: Option<TransportMode>, configured: TransportMode) -> (m:
    TransportMode)
    ensures
        m == match force {
            Some(f) => f,
            None => configured,
        },
{
    match force {
        Some(f) => f,
        None => configured,
    }
}

/// The transport to start from the command line flags and the configured mode:
/// `--websocket` wins, then `--ipc`, then the configuration.
pub open spec fn spec_select_transport(configured: TransportMode, websocket: bool, ipc: bool) -> Option<TransportMode> {
    if websocket || (configured == TransportMode::Websocket && !ipc) {
        Some(TransportMode::Websocket)
    } else if ipc || (configured == TransportMode::Ipc && !websocket) {
        Some(TransportMode::Ipc)
    } else {
        None
    }
}

pub fn select_transport(configured: TransportMode, websocket: bool, ipc: bool) -> (r: Option<TransportMode>)
    ensures
        r == spec_select_transport(configured, websocket, ipc),
        r is Some,
{
    if websocket || (configured == TransportMode::Websocket && !ipc) {
        Some(TransportMode::Websocket)
    } else if ipc || (configured == TransportMode::Ipc && !websocket) {
        Some(TransportMode::Ipc)
    } else {
        None
    }
}

/// Position of the overlay content along one screen axis.
#[derive(Clone, Copy, Debug, PartialEq, Eq, Structural)]
pub enum Alignment {
    Start,
    Center,
    End,
}

impl Alignment {
    /// The name of the alignment ("start", "center" or "end").
    pub fn to_string(&self) -> (s: String)
        ensures
            s@ == match *self {
                Alignment::Start => "start"@,
                Alignment::Center => "center"@,
                Alignment::End => "end"@,
            },
    {
        match self {
            Alignment::Start => string_from_str("start"),
            Alignment::Center => string_from_str("center"),
            Alignment::End => string_from_str("end"),
        }
    }
}

/// The screen corner (or edge center) where a section of the overlay sits.
#[derive(Clone, Copy, Debug, PartialEq, Eq, Structural)]
pub struct CornerAlignment {
    pub x: Alignment,
    pub y: Alignment,
}

/// The placement that a lower-case name stands for; unknown names mean the
/// top left corner.
pub open spec fn spec_corner_from_lower(s: Seq<char>) -> CornerAlignment {
    if s == "topright"@ {
        CornerAlignment { x: Alignment::End, y: Alignment::Start }
    } else if s == "bottomleft"@ {
        CornerAlignment { x: Alignment::Start, y: Alignment::End }
    } else if s == "bottomright"@ {
        CornerAlignment { x: Alignment::End, y: Alignment::End }
    } else if s == "topcenter"@ {
        CornerAlignment { x: Alignment::Center, y: Alignment::Start }
    } else if s == "bottomcenter"@ {
        CornerAlignment { x: Alignment::Center, y: Alignment::End }
    } else if s == "centerleft"@ {
        CornerAlignment { x: Alignment::Start, y: Alignment::Center }
    } else if s == "centerright"@ {
        CornerAlignment { x: Alignment::End, y: Alignment::Center }
    } else {
        CornerAlignment { x: Alignment::Start, y: Alignment::Start }
    }
}

/// The placement named by `s`, ignoring ASCII case.
pub open spec fn spec_corner_from(s: Seq<char>) -> CornerAlignment {
    spec_corner_from_lower(spec_ascii_lowercase(s))
}

/// Whether the lower-case text `lower` is the name `lit`.
fn is_name(lower: &Vec<char>, lit: &str) -> (r: bool)
    ensures
        r == (lower@ == lit@),
{
    chars_eq(lower, &chars_of(lit))
}

/// The (top, right, bottom, left) gaps that put a section `offset_x` and
/// `offset_y` pixels away from the edges it is aligned to.
pub open spec fn spec_gaps(a: CornerAlignment, offset_x: i32, offset_y: i32) -> (i32, i32, i32, i32) {
    let (top, bottom) = match a.y {
        Alignment::Start => (offset_y, 0i32),
        Alignment::End => (0i32, offset_y),
        Alignment::Center => (0i32, 0i32),
    };
    let (left, right) = match a.x {
        Alignment::Start => (offset_x, 0i32),
        Alignment::End => (0i32, offset_x),
        Alignment::Center => (0i32, 0i32),
    };
    (top, right, bottom, left)
}

impl CornerAlignment {
    /// Reads a placement name such as "topRight"; unknown names give the top
    /// left corner.
    pub fn from_str(s: &str) -> (a: CornerAlignment)
        ensures
            a == spec_corner_from(s@),
    {
        let lower = to_ascii_lowercase(s);
        if is_name(&lower, "topright") {
            CornerAlignment { x: Alignment::End, y: Alignment::Start }
        } else if is_name(&lower, "bottomleft") {
            CornerAlignment { x: Alignment::Start, y: Alignment::End }
        } else if is_name(&lower, "bottomright") {
            CornerAlignment { x: Alignment::End, y: Alignment::End }
        } else if is_name(&lower, "topcenter") {
            CornerAlignment { x: Alignment::Center, y: Alignment::Start }
        } else if is_name(&lower, "bottomcenter") {
            CornerAlignment { x: Alignment::Center, y: Alignment::End }
        } else if is_name(&lower, "centerleft") {
            CornerAlignment { x: Alignment::Start, y: Alignment::Center }
        } else if is_name(&lower, "centerright") {
            CornerAlignment { x: Alignment::End, y: Alignment::Center }
        } else {
            CornerAlignment { x: Alignment::Start, y: Alignment::Start }
        }
    }

    /// The gaps of `spec_gaps` as numbers.
    pub fn gaps(&self, offset_x: i32, offset_y: i32) -> (g: (i32, i32, i32, i32))
        ensures
            g == spec_gaps(*self, offset_x, offset_y),
    {
        let (top, bottom) = match self.y {
            Alignment::Start => (offset_y, 0i32),
            Alignment::End => (0i32, offset_y),
            Alignment::Center => (0i32, 0i32),
        };
        let (left, right) = match self.x {
            Alignment::Start => (offset_x, 0i32),
            Alignment::End => (0i32, offset_x),
            Alignment::Center => (0i32, 0i32),
        };
        (top, right, bottom, left)
    }

    /// The gaps as the layout's padding text "top right bottom left".
    pub fn padding(&self, offset_x: i32, offset_y: i32) -> (s: String)
        ensures
            ({
                let (t, r, b, l) = spec_gaps(*self, offset_x, offset_y);
                s@ == spec_decimal(t as int) + seq![' '] + spec_decimal(r as int) + seq![' ']
                    + spec_decimal(b as int) + seq![' '] + spec_decimal(l as int)
            }),
    {
        let (t, r, b, l) = self.gaps(offset_x, offset_y);
        let mut s = i32_to_decimal(t);
        push_char(&mut s, ' ');
        s.append(i32_to_decimal(r).as_str());
        push_char(&mut s, ' ');
        s.append(i32_to_decimal(b).as_str());
        push_char(&mut s, ' ');
        s.append(i32_to_decimal(l).as_str());
        s
    }
}

/// Names are read without regard to ASCII case.
pub proof fn lemma_corner_from_ignores_case(s: Seq<char>)
    ensures
        spec_corner_from(s) == spec_corner_from(spec_ascii_lowercase(s)),
{
    let l = spec_ascii_lowercase(s);
    assert(spec_ascii_lowercase(l) =~= l);
}

/// A placement name is a vertical part ("top", "bottom" or "center")
/// followed by a horizontal part ("left", "right" or "center"), not both
/// "center", in any ASCII case: the vertical part decides `y` (top: Start,
/// bottom: End, center: Center) and the horizontal part decides `x` (left:
/// Start, right: End, center: Center).
pub proof fn lemma_corner_names(s: Seq<char>, vertical: Seq<char>, horizontal: Seq<char>)
    requires
        spec_ascii_lowercase(s) == vertical + horizontal,
        vertical == "top"@ || vertical == "bottom"@ || vertical == "center"@,
        horizontal == "left"@ || horizontal == "right"@ || horizontal == "center"@,
        !(vertical == "center"@ && horizontal == "center"@),
    ensures
        spec_corner_from(s).y == (if vertical == "top"@ {
            Alignment::Start
        } else if vertical == "bottom"@ {
            Alignment::End
        } else {
            Alignment::Center
        }),
        spec_corner_from(s).x == (if horizontal == "left"@ {
            Alignment::Start
        } else if horizontal == "right"@ {
            Alignment::End
        } else {
            Alignment::Center
        }),
{
    reveal_strlit("top");
    reveal_strlit("bottom");
    reveal_strlit("center");
    reveal_strlit("left");
    reveal_strlit("right");
    reveal_strlit("topright");
    reveal_strlit("bottomleft");
    reveal_strlit("bottomright");
    reveal_strlit("topcenter");
    reveal_strlit("bottomcenter");
    reveal_strlit("centerleft");
    reveal_strlit("centerright");
    let l = vertical + horizontal;
    if vertical == "top"@ {
        assert(l[0] == 't');
        assert(l != "bottomleft"@ && l != "bottomright"@ && l != "bottomcenter"@);
        assert(l != "centerleft"@ && l != "centerright"@);
        if horizontal == "left"@ {
            assert(l.len() == 7);
        } else if horizontal == "right"@ {
            assert(l =~= "topright"@);
        } else {
            assert(l.len() == 9);
            assert(l =~= "topcenter"@);
        }
    } else if vertical == "bottom"@ {
        assert(l[0] == 'b');
        assert(l != "topright"@ && l != "topcenter"@);
        assert(l != "centerleft"@ && l != "centerright"@);
        if horizontal == "left"@ {
            assert(l =~= "bottomleft"@);
        } else if horizontal == "right"@ {
            assert(l =~= "bottomright"@);
            assert(l != "bottomleft"@) by {
                assert(l[6] != "bottomleft"@[6]);
            }
        } else {
            assert(l =~= "bottomcenter"@);
        }
    } else {
        assert(l[0] == 'c');
        assert(l != "topright"@ && l != "topcenter"@);
        assert(l != "bottomleft"@ && l != "bottomright"@ && l != "bottomcenter"@);
        if horizontal == "left"@ {
            assert(l =~= "centerleft"@);
        } else {
            assert(l =~= "centerright"@);
        }
    }
}

/// Only the text "websocket" selects the websocket transport; every other
/// text, unknown ones included, selects IPC. The texts of the modes are
/// "ipc" and "websocket".
pub proof fn lemma_transport_texts(s: Seq<char>)
    ensures
        (spec_transport_from(s) == TransportMode::Websocket) == (s == "websocket"@),
        spec_transport_text(TransportMode::Ipc) == "ipc"@,
        spec_transport_text(TransportMode::Websocket) == "websocket"@,
{
}

/// "always (semi-transparent)" and "only when speaking" name their options;
/// every other text, "always" included, means `Always`. The labels of the
/// options are these texts.
pub proof fn lemma_display_members_texts(s: Seq<char>)
    ensures
        (spec_display_members_from(s) == DisplayVoiceMembers::AlwaysSemiTransparent) == (s
            == "always (semi-transparent)"@),
        (spec_display_members_from(s) == DisplayVoiceMembers::WhenSpeaking) == (s
            == "only when speaking"@),
        spec_display_members_text(DisplayVoiceMembers::Always) == "always"@,
        spec_display_members_text(DisplayVoiceMembers::AlwaysSemiTransparent)
            == "always (semi-transparent)"@,
        spec_display_members_text(DisplayVoiceMembers::WhenSpeaking) == "only when speaking"@,
{
    reveal_strlit("always (semi-transparent)");
    reveal_strlit("only when speaking");
    assert("always (semi-transparent)"@.len() != "only when speaking"@.len());
}

} // verus!
