use orbolay::config::{
    default_accent, default_overlay_keybind, default_text, is_first_run, select_forced_transport,
    select_transport, Alignment, Config, CornerAlignment, DisplayVoiceMembers, TransportMode,
    DEFAULT_PORT,
};
use orbolay::settings::{
    apply_setting, display_members_choice, keybind_enabled, keybind_setting_disabled,
    message_alignment_choice, port_setting_disabled, port_text, position_of, reset_to_defaults,
    selected_display_name, voice_alignment_choice, Setting, SettingChange,
};
use orbolay::ui_config::{AxisAlignment, CornerAlignment as UiCornerAlignment};

fn names() -> Vec<String> {
    vec!["Left (1920x1080)".to_string(), "Right (2560x1440)".to_string()]
}

#[test]
fn transport_mode_texts() {
    assert_eq!(TransportMode::Ipc.to_string(), "ipc");
    assert_eq!(TransportMode::Websocket.to_string(), "websocket");
    assert_eq!(TransportMode::from("websocket".to_string()), TransportMode::Websocket);
    assert_eq!(TransportMode::from("ipc".to_string()), TransportMode::Ipc);
    assert_eq!(TransportMode::from("bogus".to_string()), TransportMode::Ipc);
    assert_eq!(TransportMode::default(), TransportMode::Ipc);
    for m in [TransportMode::Ipc, TransportMode::Websocket] {
        assert_eq!(TransportMode::from(m.to_string()), m);
    }
}

#[test]
fn display_members_texts() {
    assert_eq!(DisplayVoiceMembers::Always.to_string(), "always");
    assert_eq!(
        DisplayVoiceMembers::AlwaysSemiTransparent.to_string(),
        "always (semi-transparent)"
    );
    assert_eq!(DisplayVoiceMembers::WhenSpeaking.to_string(), "only when speaking");
    assert_eq!(DisplayVoiceMembers::from("nope".to_string()), DisplayVoiceMembers::Always);
    assert_eq!(DisplayVoiceMembers::default(), DisplayVoiceMembers::AlwaysSemiTransparent);
    for d in [
        DisplayVoiceMembers::Always,
        DisplayVoiceMembers::AlwaysSemiTransparent,
        DisplayVoiceMembers::WhenSpeaking,
    ] {
        assert_eq!(DisplayVoiceMembers::from(d.to_string()), d);
    }
}

#[test]
fn defaults() {
    assert_eq!(
        default_overlay_keybind(),
        Some(vec!["ControlLeft".to_string(), "BackQuote".to_string()])
    );
    assert_eq!(default_accent(), (30, 31, 35));
    assert_eq!(default_text(), (255, 255, 255));
    let c = Config::default();
    assert_eq!(c.port, Some(DEFAULT_PORT));
    assert_eq!(DEFAULT_PORT, 6888);
    assert_eq!(c.display_voice_members, Some(DisplayVoiceMembers::AlwaysSemiTransparent));
    assert_eq!(c.transport_mode, TransportMode::Ipc);
    assert_eq!(c.display_idx, None);
    assert_eq!(c.user_alignment, None);
    assert!(!c.messages_semitransparent);
    assert_eq!(f32::from_bits(c.border_radius_bits), 10.0);
}

#[test]
fn first_run_when_nothing_saved() {
    assert!(is_first_run(&None));
    assert!(!is_first_run(&Some(Config::default())));
}

#[test]
fn transport_selection() {
    assert_eq!(select_transport(TransportMode::Ipc, true, false), Some(TransportMode::Websocket));
    assert_eq!(select_transport(TransportMode::Websocket, false, true), Some(TransportMode::Ipc));
    assert_eq!(select_transport(TransportMode::Websocket, false, false), Some(TransportMode::Websocket));
    assert_eq!(select_transport(TransportMode::Ipc, false, false), Some(TransportMode::Ipc));
    assert_eq!(select_transport(TransportMode::Ipc, true, true), Some(TransportMode::Websocket));
    assert_eq!(
        select_forced_transport(Some(TransportMode::Websocket), TransportMode::Ipc),
        TransportMode::Websocket
    );
    assert_eq!(select_forced_transport(None, TransportMode::Ipc), TransportMode::Ipc);
}

#[test]
fn corner_alignment_names() {
    let a = CornerAlignment::from_str("topRight");
    assert_eq!(a, CornerAlignment { x: Alignment::End, y: Alignment::Start });
    assert_eq!(
        CornerAlignment::from_str("BOTTOMCENTER"),
        CornerAlignment { x: Alignment::Center, y: Alignment::End }
    );
    assert_eq!(
        CornerAlignment::from_str("centerleft"),
        CornerAlignment { x: Alignment::Start, y: Alignment::Center }
    );
    assert_eq!(
        CornerAlignment::from_str("middle"),
        CornerAlignment { x: Alignment::Start, y: Alignment::Start }
    );
    assert_eq!(Alignment::Center.to_string(), "center");
}

#[test]
fn corner_alignment_gaps() {
    let a = CornerAlignment::from_str("bottomright");
    assert_eq!(a.gaps(10, 20), (0, 10, 20, 0));
    assert_eq!(a.padding(10, -20), "0 10 -20 0");
    let t = CornerAlignment::from_str("topleft");
    assert_eq!(t.gaps(5, 7), (7, 0, 0, 5));
    assert_eq!(t.padding(5, 7), "7 0 0 5");
    let c = CornerAlignment::from_str("topcenter");
    assert_eq!(c.gaps(5, 7), (7, 0, 0, 0));
}

#[test]
fn ui_corner_alignment() {
    let a = UiCornerAlignment::from_str("CenterRight");
    assert_eq!(a, UiCornerAlignment { x: AxisAlignment::End, y: AxisAlignment::Center });
    assert_eq!(a.to_gaps(3, 4), (0, 3, 0, 0));
    assert_eq!(AxisAlignment::End.to_string(), "end");
}

#[test]
fn setting_edits() {
    let mut c = Config::default();
    apply_setting(&mut c, Setting::TransportMode, SettingChange::Value("websocket".into()), &names());
    assert_eq!(c.transport_mode, TransportMode::Websocket);
    apply_setting(&mut c, Setting::Port, SettingChange::Value(" 7000 ".into()), &names());
    assert_eq!(c.port, Some(7000));
    apply_setting(&mut c, Setting::Port, SettingChange::Value("70000".into()), &names());
    assert_eq!(c.port, Some(7000));
    apply_setting(&mut c, Setting::KeybindEnabled, SettingChange::Bool(false), &names());
    assert_eq!(c.is_keybind_enabled, Some(false));
    apply_setting(&mut c, Setting::Display, SettingChange::Value("Right (2560x1440)".into()), &names());
    assert_eq!(c.display_idx, Some(1));
    apply_setting(&mut c, Setting::Display, SettingChange::Value("Gone".into()), &names());
    assert_eq!(c.display_idx, Some(1));
    apply_setting(&mut c, Setting::AccentColor, SettingChange::Color((1, 2, 3)), &names());
    assert_eq!(c.accent, (1, 2, 3));
    apply_setting(&mut c, Setting::TextColor, SettingChange::Color((4, 5, 6)), &names());
    assert_eq!(c.text_color, (4, 5, 6));
    apply_setting(&mut c, Setting::SoftwareRendering, SettingChange::Bool(true), &names());
    assert_eq!(c.software_rendering, Some(true));
    apply_setting(
        &mut c,
        Setting::DisplayVoiceMembers,
        SettingChange::Value("only when speaking".into()),
        &names(),
    );
    assert_eq!(c.display_voice_members, Some(DisplayVoiceMembers::WhenSpeaking));
    apply_setting(&mut c, Setting::MessagesSemitransparent, SettingChange::Bool(true), &names());
    assert!(c.messages_semitransparent);
    apply_setting(&mut c, Setting::VoiceAlignment, SettingChange::Value("bottomleft".into()), &names());
    assert_eq!(c.user_alignment, Some("bottomleft".to_string()));
    apply_setting(&mut c, Setting::VoiceOffsetX, SettingChange::Value("-15".into()), &names());
    assert_eq!(c.user_offset_x, -15);
    apply_setting(&mut c, Setting::VoiceOffsetY, SettingChange::Value("abc".into()), &names());
    assert_eq!(c.user_offset_y, 0);
    apply_setting(&mut c, Setting::MessageAlignment, SettingChange::Value("topcenter".into()), &names());
    assert_eq!(c.message_alignment, Some("topcenter".to_string()));
    apply_setting(&mut c, Setting::MessageOffsetX, SettingChange::Value("\t12\n".into()), &names());
    assert_eq!(c.message_offset_x, 12);
    apply_setting(&mut c, Setting::MessageOffsetY, SettingChange::Value("+3".into()), &names());
    assert_eq!(c.message_offset_y, 3);
    apply_setting(
        &mut c,
        Setting::OverlayKeybind,
        SettingChange::Keys(vec!["AltLeft".into(), "KeyO".into()]),
        &names(),
    );
    assert_eq!(c.overlay_keybind, Some(vec!["AltLeft".to_string(), "KeyO".to_string()]));
}

#[test]
fn mismatched_edit_changes_nothing() {
    let mut c = Config::default();
    apply_setting(&mut c, Setting::Port, SettingChange::Bool(true), &names());
    apply_setting(&mut c, Setting::KeybindEnabled, SettingChange::Value("false".into()), &names());
    apply_setting(&mut c, Setting::AccentColor, SettingChange::Value("#000000".into()), &names());
    let d = Config::default();
    assert_eq!(c.port, d.port);
    assert_eq!(c.is_keybind_enabled, d.is_keybind_enabled);
    assert_eq!(c.accent, d.accent);
}

#[test]
fn shown_values_read_back() {
    let mut c = Config::default();
    c.port = Some(1234);
    c.user_offset_x = -77;
    let shown = port_text(&c);
    assert_eq!(shown, "1234");
    apply_setting(&mut c, Setting::Port, SettingChange::Value(shown), &names());
    assert_eq!(c.port, Some(1234));
    let shown = orbolay::util::number::i32_to_decimal(c.user_offset_x);
    apply_setting(&mut c, Setting::VoiceOffsetX, SettingChange::Value(shown), &names());
    assert_eq!(c.user_offset_x, -77);
}

#[test]
fn reset_restores_defaults() {
    let mut c = Config::default();
    c.port = Some(1);
    c.user_alignment = Some("bottomright".into());
    reset_to_defaults(&mut c);
    assert_eq!(c.port, Some(6888));
    assert_eq!(c.user_alignment, None);
}

#[test]
fn row_states() {
    let mut c = Config::default();
    assert!(keybind_enabled(&c));
    assert!(!keybind_setting_disabled(&c));
    c.is_keybind_enabled = Some(false);
    assert!(keybind_setting_disabled(&c));
    assert!(port_setting_disabled(&c));
    c.transport_mode = TransportMode::Websocket;
    assert!(!port_setting_disabled(&c));
    c.port = None;
    assert_eq!(port_text(&c), "6888");
    assert_eq!(voice_alignment_choice(&c), "topleft");
    assert_eq!(message_alignment_choice(&c), "topright");
    c.message_alignment = Some("bottomleft".into());
    assert_eq!(message_alignment_choice(&c), "bottomleft");
    assert_eq!(display_members_choice(&c), "always (semi-transparent)");
    c.display_voice_members = None;
    assert_eq!(display_members_choice(&c), "always (semi-transparent)");
    c.display_voice_members = Some(DisplayVoiceMembers::Always);
    assert_eq!(display_members_choice(&c), "always");
}

#[test]
fn display_dropdown() {
    let mut c = Config::default();
    assert_eq!(selected_display_name(&c, &names()), None);
    c.display_idx = Some(0);
    assert_eq!(selected_display_name(&c, &names()), Some("Left (1920x1080)".to_string()));
    c.display_idx = Some(5);
    assert_eq!(selected_display_name(&c, &names()), None);
    assert_eq!(position_of(&names(), &"Right (2560x1440)".to_string()), Some(1));
    let dup = vec!["A".to_string(), "A".to_string()];
    assert_eq!(position_of(&dup, &"A".to_string()), Some(0));
}
