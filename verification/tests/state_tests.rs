use orbolay::app_state::{find_user, AppState, MAX_MESSAGES};
use orbolay::display::{overlay_min_size, saved_display_missing, select_display};
use orbolay::ipc::connection::{on_disconnected, on_frame_read, StreamStep};
use orbolay::ipc::frame::{OP_CLOSE, OP_FRAME, OP_HANDSHAKE};
use orbolay::ipc::ui_message_handler::UiCommand;
use orbolay::keys::KeyEvent;
use orbolay::manager::OverlayManager;
use orbolay::overlay::{
    controls_user, on_key_event, sync_from_shared, version_text, voice_control_buttons,
    welcome_notice, ControlKind,
};
use orbolay::payloads::Notification;
use orbolay::updates::{release_update_notice, update_notice};
use orbolay::user::{User, UserVoiceState};

fn user(id: &str, name: &str, state: UserVoiceState) -> User {
    User {
        name: name.to_string(),
        id: id.to_string(),
        avatar: String::new(),
        voice_state: state,
        streaming: false,
    }
}

fn note(title: &str, timestamp: Option<i64>) -> Notification {
    let mut n = Notification::new(title.to_string(), String::new(), String::new(), 0);
    n.timestamp = timestamp;
    n
}

#[test]
fn new_state() {
    let s = AppState::new();
    assert!(!s.is_open);
    assert!(s.voice_users.is_empty());
    assert!(s.messages.is_empty());
    assert_eq!(s.guild_names.get("0"), Some(&"Default".to_string()));
    assert_eq!(s.config.port, Some(6888));
}

#[test]
fn notify_keeps_the_four_newest() {
    let mut s = AppState::new();
    for i in 0..6 {
        s.notify(note(&format!("n{}", i), Some(i)));
        assert!(s.messages.len() <= MAX_MESSAGES);
    }
    let titles: Vec<&str> = s.messages.iter().map(|m| m.title.as_str()).collect();
    assert_eq!(titles, vec!["n2", "n3", "n4", "n5"]);
}

#[test]
fn expired_messages_leave() {
    let mut s = AppState::new();
    s.messages = vec![note("old", Some(100)), note("sticky", None), note("fresh", Some(195))];
    assert!(s.expire_messages(200, 10));
    let titles: Vec<&str> = s.messages.iter().map(|m| m.title.as_str()).collect();
    assert_eq!(titles, vec!["sticky", "fresh"]);
    assert!(!s.expire_messages(200, 10));
    assert!(s.expire_messages(205, 10));
    assert_eq!(s.messages.len(), 1);
    assert_eq!(s.messages[0].title, "sticky");
}

#[test]
fn expiry_does_not_overflow() {
    let mut s = AppState::new();
    s.messages = vec![note("far past", Some(i64::MIN)), note("far future", Some(i64::MAX))];
    assert!(s.expire_messages(i64::MAX, 10));
    assert_eq!(s.messages.len(), 1);
    assert_eq!(s.messages[0].title, "far future");
}

#[test]
fn finding_users() {
    let users = vec![
        user("1", "a", UserVoiceState::Muted),
        user("2", "b", UserVoiceState::Speaking),
        user("2", "c", UserVoiceState::Speaking),
    ];
    assert_eq!(find_user(&users, "2"), Some(1));
    assert_eq!(find_user(&users, "3"), None);
}

#[test]
fn overlay_manager() {
    let mut s = AppState::new();
    OverlayManager::open(&mut s);
    assert!(s.is_open);
    OverlayManager::close(&mut s);
    assert!(!s.is_open);
    OverlayManager::set_state(&mut s, true);
    assert!(s.is_open);
}

#[test]
fn keybind_actions() {
    let mut s = AppState::new();
    assert!(!on_key_event(&mut s, KeyEvent::OpenConfigurator));
    assert!(!s.is_open);
    assert!(!on_key_event(&mut s, KeyEvent::ToggleOverlay));
    assert!(s.is_open);
    assert!(on_key_event(&mut s, KeyEvent::OpenConfigurator));
    assert!(!s.is_open);
    on_key_event(&mut s, KeyEvent::ToggleOverlay);
    on_key_event(&mut s, KeyEvent::ToggleOverlay);
    assert!(!s.is_open);
}

#[test]
fn syncing_keeps_window_openness() {
    let mut local = AppState::new();
    local.is_open = true;
    let mut shared = AppState::new();
    shared.current_channel = "c9".into();
    shared.is_open = false;
    sync_from_shared(&mut local, shared);
    assert!(local.is_open);
    assert_eq!(local.current_channel, "c9");
}

#[test]
fn version_and_greeting() {
    assert_eq!(version_text(Some("orbolay"), Some("1.2.3"), Some("abc")), "orbolay version 1.2.3 (rev abc)");
    assert_eq!(version_text(None, None, None), "Unknown version 0.0.0 (rev unknown)");
    let n = welcome_notice(Some("1.2.3"), None, 1_700_000_000);
    assert_eq!(n.title, "Orbolay v1.2.3 (rev unknown)");
    assert_eq!(n.body, "by SpikeHD");
    assert_eq!(n.icon, "https://avatars.githubusercontent.com/u/25207995?v=4");
    assert_eq!(n.timestamp, Some(1_700_000_000));
}

#[test]
fn voice_controls() {
    let mut s = AppState::new();
    s.user_id = "me".into();
    s.voice_users = vec![user("other", "o", UserVoiceState::NotSpeaking), user("me", "m", UserVoiceState::Deafened)];
    assert!(controls_user(&s).is_none());
    s.is_open = true;
    let me = controls_user(&s).unwrap();
    assert_eq!(me.name, "m");
    let buttons = voice_control_buttons(&me);
    assert_eq!(buttons.len(), 3);
    assert_eq!(buttons[0].kind, ControlKind::Mute);
    assert!(buttons[0].is_red);
    assert!(matches!(buttons[0].command, UiCommand::ToggleMute));
    assert!(buttons[1].is_red);
    assert!(matches!(buttons[1].command, UiCommand::ToggleDeaf));
    assert_eq!(buttons[2].kind, ControlKind::Disconnect);
    let mut streaming = user("me", "m", UserVoiceState::Muted);
    streaming.streaming = true;
    let buttons = voice_control_buttons(&streaming);
    assert_eq!(buttons.len(), 4);
    assert!(buttons[0].is_red);
    assert!(!buttons[1].is_red);
    assert!(matches!(buttons[3].command, UiCommand::StopStream));
    s.user_id = "absent".into();
    assert!(controls_user(&s).is_none());
}

#[test]
fn frame_steps() {
    let mut s = AppState::new();
    s.voice_users = vec![user("1", "a", UserVoiceState::Speaking)];
    assert_eq!(on_frame_read(&mut s, Some(OP_FRAME)), StreamStep::HandlePayload);
    assert_eq!(on_frame_read(&mut s, Some(OP_HANDSHAKE)), StreamStep::Ignore);
    assert_eq!(s.voice_users.len(), 1);
    assert_eq!(on_frame_read(&mut s, Some(OP_CLOSE)), StreamStep::Stop);
    assert!(s.voice_users.is_empty());
    s.voice_users = vec![user("1", "a", UserVoiceState::Speaking)];
    assert_eq!(on_frame_read(&mut s, None), StreamStep::Stop);
    assert!(s.voice_users.is_empty());
}

#[test]
fn disconnection_notice() {
    let mut s = AppState::new();
    on_disconnected(&mut s, 77);
    assert_eq!(s.messages[0].timestamp, Some(77));
    assert_eq!(s.messages.len(), 1);
    assert_eq!(s.messages[0].title, "Disconnected");
    assert_eq!(
        s.messages[0].body,
        "The connection to the Discord client has been closed, retrying in 10 seconds..."
    );
}

#[test]
fn update_notices() {
    assert!(update_notice(&Some("0.3.0".into()), "0.3.0", 5).is_none());
    assert!(update_notice(&None, "0.3.0", 5).is_none());
    let n = update_notice(&Some("0.4.0".into()), "0.3.0", 5).unwrap();
    assert_eq!(n.timestamp, Some(5));
    assert_eq!(n.title, "Update Available!");
    assert_eq!(
        n.body,
        "An new update of Orbolay is available and can be downloaded via the GitHub releases"
    );
}

#[test]
fn release_descriptions() {
    assert!(release_update_notice(r#"{"tag_name":"0.4.0","name":"x"}"#, "0.3.0", 5).is_some());
    assert!(release_update_notice(r#"{"tag_name":"0.3.0"}"#, "0.3.0", 5).is_none());
    assert!(release_update_notice(r#"{"name":"x"}"#, "0.3.0", 5).is_none());
    assert!(release_update_notice(r#"{"tag_name":7}"#, "0.3.0", 5).is_none());
    assert!(release_update_notice("not json", "0.3.0", 5).is_none());
    let n = release_update_notice(r#"{"tag_name":"1.0.0"}"#, "0.3.0", 9).unwrap();
    assert_eq!(n.body, "An new update of Orbolay is available and can be downloaded via the GitHub releases");
    assert_eq!(n.timestamp, Some(9));
    assert_eq!(n.channel_id, None);
}

#[test]
fn choosing_a_display() {
    let displays = vec![false, true, false];
    assert_eq!(select_display(Some(2), &displays), 2);
    assert_eq!(select_display(Some(3), &displays), 1);
    assert_eq!(select_display(None, &displays), 1);
    assert_eq!(select_display(None, &vec![false, false]), 0);
    assert!(saved_display_missing(Some(3), 3));
    assert!(!saved_display_missing(Some(2), 3));
    assert!(!saved_display_missing(None, 0));
    assert_eq!(overlay_min_size(1920, 1080), (1921, 1079));
}
