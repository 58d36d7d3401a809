use orbolay::app_state::AppState;
use orbolay::config::{DisplayVoiceMembers, TransportMode};
use orbolay::ipc::ui_message_handler::UiCommand;
use orbolay::payloads::SoundboardSoundPayload;
use orbolay::soundboard::group_by_guild;
use orbolay::soundboard_view::{
    guild_label, guild_order, order_guilds, playable, press_sound, sound_text, soundboard_sections,
};
use orbolay::user::{PremiumType, User, UserVoiceState};
use orbolay::util::chars::chars_of;
use orbolay::voice::{avatar_url_and_border, chars_less, sort_by_id, voice_rows};

fn user(id: &str, name: &str, state: UserVoiceState) -> User {
    User {
        name: name.to_string(),
        id: id.to_string(),
        avatar: String::new(),
        voice_state: state,
        streaming: false,
    }
}

fn sound(id: &str, guild: Option<&str>) -> SoundboardSoundPayload {
    SoundboardSoundPayload {
        sound_id: id.to_string(),
        name: format!("sound {}", id),
        emoji_id: None,
        emoji_name: None,
        guild_id: guild.map(|g| g.to_string()),
        available: true,
    }
}

#[test]
fn text_order_matches_string_order() {
    let words = ["", "a", "ab", "b", "10", "9", "é", "z"];
    for a in words {
        for b in words {
            assert_eq!(chars_less(&chars_of(a), &chars_of(b)), a < b, "{} < {}", a, b);
        }
    }
}

#[test]
fn members_sorted_by_id() {
    let users = vec![
        user("30", "c", UserVoiceState::NotSpeaking),
        user("100", "a", UserVoiceState::NotSpeaking),
        user("20", "b", UserVoiceState::NotSpeaking),
    ];
    let sorted = sort_by_id(&users);
    let ids: Vec<&str> = sorted.iter().map(|u| u.id.as_str()).collect();
    assert_eq!(ids, vec!["100", "20", "30"]);
}

#[test]
fn sort_is_stable_on_equal_ids() {
    let users = vec![
        user("2", "first", UserVoiceState::NotSpeaking),
        user("1", "x", UserVoiceState::NotSpeaking),
        user("2", "second", UserVoiceState::NotSpeaking),
    ];
    let sorted = sort_by_id(&users);
    let names: Vec<&str> = sorted.iter().map(|u| u.name.as_str()).collect();
    assert_eq!(names, vec!["x", "first", "second"]);
}

#[test]
fn rows_for_everyone() {
    let users = vec![
        user("2", "Bob", UserVoiceState::NotSpeaking),
        user("1", "Alice", UserVoiceState::Speaking),
    ];
    let rows = voice_rows(&users, "1", TransportMode::Ipc, DisplayVoiceMembers::AlwaysSemiTransparent, false, false);
    assert_eq!(rows.len(), 2);
    assert_eq!(rows[0].user.id, "1");
    assert!(!rows[0].can_context_menu);
    assert!(!rows[0].dimmed);
    assert_eq!(rows[1].user.name, "Bob");
    assert!(rows[1].can_context_menu);
    assert!(rows[1].dimmed);
    let rows = voice_rows(&users, "1", TransportMode::Websocket, DisplayVoiceMembers::Always, false, true);
    assert!(!rows[1].can_context_menu);
    assert!(!rows[1].dimmed);
    assert_eq!(rows[0].user.name, "A...");
    assert_eq!(rows[1].user.name, "B...");
}

#[test]
fn rows_only_while_speaking() {
    let users = vec![
        user("2", "Bob", UserVoiceState::NotSpeaking),
        user("1", "Alice", UserVoiceState::Speaking),
        user("3", "Cy", UserVoiceState::Muted),
    ];
    let rows = voice_rows(&users, "", TransportMode::Ipc, DisplayVoiceMembers::WhenSpeaking, false, false);
    assert_eq!(rows.len(), 1);
    assert_eq!(rows[0].user.id, "1");
    let rows = voice_rows(&users, "", TransportMode::Ipc, DisplayVoiceMembers::WhenSpeaking, true, false);
    assert_eq!(rows.len(), 3);
}

#[test]
fn avatars() {
    let mut u = user("42", "n", UserVoiceState::Speaking);
    assert_eq!(avatar_url_and_border(&u), (String::new(), Some((67, 147, 120))));
    u.avatar = "abc".into();
    u.voice_state = UserVoiceState::Muted;
    assert_eq!(
        avatar_url_and_border(&u),
        ("https://cdn.discordapp.com/avatars/42/abc.png?size=80".to_string(), Some((218, 62, 68)))
    );
    u.voice_state = UserVoiceState::Deafened;
    assert_eq!(avatar_url_and_border(&u).1, Some((218, 62, 68)));
    u.voice_state = UserVoiceState::NotSpeaking;
    assert_eq!(avatar_url_and_border(&u).1, None);
}

#[test]
fn guild_ranks() {
    assert_eq!(guild_order("5", "5"), 0);
    assert_eq!(guild_order("", ""), 1);
    assert_eq!(guild_order("0", "5"), 1);
    assert_eq!(guild_order("7", "5"), 2);
    let ids = vec!["0".to_string(), "7".to_string(), "".to_string(), "5".to_string(), "8".to_string()];
    let ordered = order_guilds(&ids, "5");
    assert_eq!(ordered, vec!["5", "0", "", "8", "7"]);
}

#[test]
fn sound_availability() {
    let s = sound("1", Some("9"));
    assert!(!playable(&s, PremiumType::NoPremium, "5"));
    assert!(playable(&s, PremiumType::Nitro, "5"));
    assert!(playable(&s, PremiumType::NoPremium, "9"));
    assert!(playable(&sound("1", Some("0")), PremiumType::NoPremium, "5"));
    assert!(playable(&sound("1", None), PremiumType::NoPremium, "5"));
    let mut off = sound("1", None);
    off.available = false;
    assert!(!playable(&off, PremiumType::Nitro, "5"));
    assert!(press_sound(&off).is_none());
    match press_sound(&s) {
        Some(UiCommand::PlaySoundboardSound { sound_id, source_guild_id }) => {
            assert_eq!(sound_id, "1");
            assert_eq!(source_guild_id, Some("9".to_string()));
        }
        _ => panic!("expected a play command"),
    }
}

#[test]
fn sound_texts() {
    let mut s = sound("1", None);
    assert_eq!(sound_text(&s), "?");
    s.emoji_name = Some("🔊".into());
    assert_eq!(sound_text(&s), "🔊");
}

#[test]
fn soundboard_panel() {
    let mut state = AppState::new();
    state.current_guild_id = "5".into();
    state.guild_names.insert("5".into(), "Home".into());
    state.soundboard_cache.insert("".into(), vec![sound("a", None)]);
    state.soundboard_cache.insert("7".into(), vec![sound("b", Some("7"))]);
    state.soundboard_cache.insert("5".into(), vec![sound("c", Some("5"))]);
    assert_eq!(guild_label("", &state.guild_names), "Default");
    assert_eq!(guild_label("5", &state.guild_names), "Home");
    assert_eq!(guild_label("7", &state.guild_names), "7");
    let sections = soundboard_sections(&state);
    let labels: Vec<&str> = sections.iter().map(|s| s.label.as_str()).collect();
    assert_eq!(labels, vec!["Home", "Default", "7"]);
    assert!(sections[0].sounds[0].available);
    assert!(sections[1].sounds[0].available);
    assert!(!sections[2].sounds[0].available);
    state.premium_type = PremiumType::NitroBasic;
    let sections = soundboard_sections(&state);
    assert!(sections[2].sounds[0].available);
}

#[test]
fn empty_soundboard() {
    assert!(soundboard_sections(&AppState::new()).is_empty());
}

#[test]
fn grouping_sounds() {
    let groups = group_by_guild(vec![
        sound("1", Some("9")),
        sound("2", None),
        sound("3", Some("9")),
    ]);
    assert_eq!(groups.len(), 2);
    assert_eq!(groups[0].0, "9");
    let ids: Vec<&str> = groups[0].1.iter().map(|s| s.sound_id.as_str()).collect();
    assert_eq!(ids, vec!["1", "3"]);
    assert_eq!(groups[1].0, "");
}
