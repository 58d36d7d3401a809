use orbolay::app_state::AppState;
use orbolay::ipc::commands::{handle_command, IpcCommand};
use orbolay::ipc::frame::{decode_header, decode_payload, encode_frame, OP_FRAME, OP_HANDSHAKE};
use orbolay::ipc::ipc_message_handler::{handle_ipc_message, IpcEvent};
use orbolay::ipc::payloads::{
    GetChannelPayload, GetGuildPayload, GetUserPayload, MessageNotificationInner,
    NotificationCreatePayload, ReadyPayload, RpcUser, SelectedVoiceChannelPayload,
    SpeakingPayload, VoiceChannelSelectPayload, VoiceSettingsUpdatePayload, VoiceState,
    VoiceStateState, VoiceStateUser,
};
use orbolay::ipc::request::IpcRequest;
use orbolay::ipc::socket::{socket_candidates, socket_dirs, socket_path};
use orbolay::ipc::subscription::{
    subscribe, subscribe_voice_channel, subscribe_voice_global, unsubscribe,
    unsubscribe_voice_channel,
};
use orbolay::ipc::ui_message_handler::{after_ui_request, handle_ui_message, UiCommand};
use orbolay::payloads::{Notification, SoundboardSoundPayload};
use orbolay::user::{PremiumType, UserVoiceState};

fn voice_state(id: &str, nick: Option<&str>, mute: bool, deaf: bool) -> VoiceState {
    VoiceState {
        nick: nick.map(|n| n.to_string()),
        mute: false,
        voice_state: VoiceStateState {
            mute: false,
            deaf: false,
            self_mute: mute,
            self_deaf: deaf,
            suppress: false,
        },
        user: VoiceStateUser {
            id: id.to_string(),
            username: format!("user{}", id),
            global_name: None,
            avatar: Some("av".to_string()),
        },
    }
}

fn events(requests: &[IpcRequest]) -> Vec<(String, Option<String>)> {
    requests
        .iter()
        .filter_map(|r| match r {
            IpcRequest::Subscribe { event, channel_id } => Some((event.clone(), channel_id.clone())),
            _ => None,
        })
        .collect()
}

#[test]
fn frames_encode_little_endian() {
    let bytes = encode_frame(OP_FRAME, "hé");
    assert_eq!(bytes, vec![1, 0, 0, 0, 3, 0, 0, 0, b'h', 0xC3, 0xA9]);
    assert_eq!(decode_header(&bytes[0..8]), (OP_FRAME, 3));
    assert_eq!(decode_payload(bytes[8..].to_vec()), Some("hé".to_string()));
    assert_eq!(decode_payload(vec![0xC3]), None);
    let hs = encode_frame(OP_HANDSHAKE, "");
    assert_eq!(decode_header(&hs), (OP_HANDSHAKE, 0));
}

#[test]
fn frame_round_trip() {
    let payload = r#"{"v":1,"client_id":"207646673902501888"}"#;
    let bytes = encode_frame(OP_HANDSHAKE, payload);
    let (op, len) = decode_header(&bytes[0..8]);
    assert_eq!(op, OP_HANDSHAKE);
    assert_eq!(len as usize, payload.len());
    assert_eq!(decode_payload(bytes[8..].to_vec()).unwrap(), payload);
}

#[test]
fn subscriptions() {
    match subscribe("SPEAKING_START", Some("c".into())) {
        IpcRequest::Subscribe { event, channel_id } => {
            assert_eq!(event, "SPEAKING_START");
            assert_eq!(channel_id, Some("c".to_string()));
        }
        _ => panic!(),
    }
    assert!(matches!(unsubscribe("X", None), IpcRequest::Unsubscribe { .. }));
    let subs = subscribe_voice_channel("c1");
    let names: Vec<String> = events(&subs).into_iter().map(|(e, _)| e).collect();
    assert_eq!(
        names,
        vec![
            "VOICE_STATE_CREATE",
            "VOICE_STATE_UPDATE",
            "VOICE_STATE_DELETE",
            "SCREENSHARE_STATE_UPDATE",
            "SPEAKING_START",
            "SPEAKING_STOP"
        ]
    );
    assert!(events(&subs).iter().all(|(_, c)| c.as_deref() == Some("c1")));
    assert_eq!(unsubscribe_voice_channel("c1").len(), 6);
    let global = subscribe_voice_global();
    let names: Vec<String> = events(&global).into_iter().map(|(e, _)| e).collect();
    assert_eq!(
        names,
        vec![
            "VOICE_CHANNEL_SELECT",
            "VOICE_SETTINGS_UPDATE",
            "VOICE_CONNECTION_STATUS",
            "NOTIFICATION_CREATE"
        ]
    );
}

#[test]
fn ready_asks_for_authorization() {
    let mut s = AppState::new();
    let ready = ReadyPayload {
        v: 1,
        user: Some(RpcUser { id: "me".into(), username: "u".into(), global_name: None, avatar: None }),
    };
    let (changed, reqs) = handle_ipc_message(&mut s, IpcEvent::Ready(ready), 0).unwrap();
    assert!(changed);
    assert_eq!(s.user_id, "me");
    assert_eq!(reqs.len(), 1);
    assert!(matches!(reqs[0], IpcRequest::Authorize));
}

#[test]
fn joining_and_leaving_a_channel() {
    let mut s = AppState::new();
    let (_, reqs) = handle_ipc_message(
        &mut s,
        IpcEvent::VoiceChannelSelect(VoiceChannelSelectPayload {
            channel_id: Some("c1".into()),
            guild_id: Some("g1".into()),
        }), 0).unwrap();
    assert_eq!(s.current_channel, "c1");
    assert_eq!(s.current_guild_id, "g1");
    assert_eq!(reqs.len(), 9);
    assert!(matches!(reqs[6], IpcRequest::GetSoundboardSounds));
    assert!(matches!(&reqs[7], IpcRequest::GetChannel { channel_id } if channel_id == "c1"));
    assert!(matches!(&reqs[8], IpcRequest::GetGuild { guild_id } if guild_id == "g1"));
    s.voice_users = vec![voice_state("1", None, false, false).to_user()];
    let (_, reqs) = handle_ipc_message(
        &mut s,
        IpcEvent::VoiceChannelSelect(VoiceChannelSelectPayload { channel_id: None, guild_id: None }), 0).unwrap();
    assert_eq!(reqs.len(), 6);
    assert!(reqs.iter().all(|r| matches!(r, IpcRequest::Unsubscribe { .. })));
    assert_eq!(s.current_channel, "");
    assert!(s.voice_users.is_empty());
}

#[test]
fn members_come_and_go() {
    let mut s = AppState::new();
    s.user_id = "1".into();
    handle_ipc_message(&mut s, IpcEvent::VoiceStateCreate(voice_state("1", Some("Nick"), false, false)), 0).unwrap();
    handle_ipc_message(&mut s, IpcEvent::VoiceStateCreate(voice_state("2", None, true, false)), 0).unwrap();
    assert_eq!(s.voice_users.len(), 2);
    assert_eq!(s.voice_users[0].name, "Nick");
    assert_eq!(s.voice_users[1].voice_state, UserVoiceState::Muted);
    handle_ipc_message(&mut s, IpcEvent::VoiceStateUpdate(voice_state("2", None, true, true)), 0).unwrap();
    assert_eq!(s.voice_users.len(), 2);
    assert_eq!(s.voice_users[1].voice_state, UserVoiceState::Deafened);
    handle_ipc_message(
        &mut s,
        IpcEvent::SpeakingStart(SpeakingPayload { channel_id: "c".into(), user_id: "1".into() }), 0).unwrap();
    assert_eq!(s.voice_users[0].voice_state, UserVoiceState::Speaking);
    handle_ipc_message(
        &mut s,
        IpcEvent::SpeakingStop(SpeakingPayload { channel_id: "c".into(), user_id: "1".into() }), 0).unwrap();
    assert_eq!(s.voice_users[0].voice_state, UserVoiceState::NotSpeaking);
    handle_ipc_message(
        &mut s,
        IpcEvent::VoiceSettingsUpdate(VoiceSettingsUpdatePayload { deaf: false, mute: true }), 0).unwrap();
    assert_eq!(s.voice_users[0].voice_state, UserVoiceState::Muted);
    handle_ipc_message(&mut s, IpcEvent::VoiceStateDelete(voice_state("2", None, false, false)), 0).unwrap();
    assert_eq!(s.voice_users.len(), 1);
    assert_eq!(s.voice_users[0].id, "1");
    let (changed, reqs) = handle_ipc_message(&mut s, IpcEvent::Unknown, 0).unwrap();
    assert!(!changed);
    assert!(reqs.is_empty());
}

#[test]
fn notifications_arrive() {
    let mut s = AppState::new();
    let p = NotificationCreatePayload {
        message: Some(MessageNotificationInner {
            id: Some("m".into()),
            guild_id: Some("g".into()),
            channel_id: Some("c".into()),
        }),
        icon_url: Some("https://cdn/x.webp?size=64".into()),
        title: "Title".into(),
        body: "Body".into(),
    };
    handle_ipc_message(&mut s, IpcEvent::NotificationCreate(p), 1234).unwrap();
    assert_eq!(s.messages.len(), 1);
    let n = &s.messages[0];
    assert_eq!(n.icon, "https://cdn/x.png?size=64");
    assert_eq!(n.channel_id, Some("c".to_string()));
    assert_eq!(n.message_id, Some("m".to_string()));
    assert_eq!(n.timestamp, Some(1234));
}

#[test]
fn replies_update_the_state() {
    let mut s = AppState::new();
    s.user_id = "me".into();
    let (changed, reqs) = handle_command(&mut s, IpcCommand::Authenticate, 0).unwrap();
    assert!(!changed);
    assert_eq!(reqs.len(), 7);
    assert!(matches!(&reqs[6], IpcRequest::GetUser { id } if id == "me"));
    let (changed, reqs) = handle_command(
        &mut s,
        IpcCommand::GetSelectedVoiceChannel(Some(SelectedVoiceChannelPayload {
            id: Some("c2".into()),
            guild_id: None,
            voice_states: vec![voice_state("me", None, false, true)],
        })), 0).unwrap();
    assert!(changed);
    assert_eq!(s.current_channel, "c2");
    assert_eq!(reqs.len(), 7);
    assert_eq!(s.voice_users.len(), 1);
    assert_eq!(s.voice_users[0].voice_state, UserVoiceState::Deafened);
    handle_command(&mut s, IpcCommand::GetGuild(Some(GetGuildPayload { id: "g".into(), name: "Guild".into() })), 0).unwrap();
    assert_eq!(s.guild_names.get("g"), Some(&"Guild".to_string()));
    assert_eq!(s.voice_users.len(), 1);
    assert_eq!(s.current_channel, "c2");
    assert_eq!(s.user_id, "me");
    handle_command(
        &mut s,
        IpcCommand::GetChannel(Some(GetChannelPayload { id: "c2".into(), name: "general".into(), guild_id: None })), 0).unwrap();
    assert_eq!(s.channel_names.get("c2"), Some(&"general".to_string()));
    handle_command(&mut s, IpcCommand::GetUser(Some(GetUserPayload { premium_type: PremiumType::Nitro })), 0).unwrap();
    assert_eq!(s.premium_type, PremiumType::Nitro);
    let (changed, reqs) = handle_command(&mut s, IpcCommand::GetGuild(None), 0).unwrap();
    assert!(!changed);
    assert!(reqs.is_empty());
}

#[test]
fn soundboard_reply_asks_for_unknown_servers() {
    let mut s = AppState::new();
    s.guild_names.insert("known".into(), "K".into());
    let sound = |id: &str, g: Option<&str>| SoundboardSoundPayload {
        sound_id: id.into(),
        name: id.into(),
        emoji_id: None,
        emoji_name: None,
        guild_id: g.map(|x| x.to_string()),
        available: true,
    };
    let (changed, reqs) = handle_command(
        &mut s,
        IpcCommand::GetSoundboardSounds(Some(vec![
            sound("1", Some("new")),
            sound("2", Some("known")),
            sound("3", None),
            sound("4", Some("new")),
        ])), 0).unwrap();
    assert!(changed);
    assert_eq!(reqs.len(), 1);
    assert!(matches!(&reqs[0], IpcRequest::GetGuild { guild_id } if guild_id == "new"));
    assert_eq!(s.soundboard_cache.get("new").map(|v| v.len()), Some(2));
    assert_eq!(s.soundboard_cache.get("").map(|v| v.len()), Some(1));
}

#[test]
fn ui_commands() {
    let mut s = AppState::new();
    s.user_id = "me".into();
    s.voice_users = vec![voice_state("me", None, true, false).to_user()];
    let (redraw, req) = handle_ui_message(&mut s, UiCommand::ToggleMute);
    assert!(!redraw);
    assert!(matches!(req, Some(IpcRequest::SetMuted { mute: false })));
    let (_, req) = handle_ui_message(&mut s, UiCommand::ToggleDeaf);
    assert!(matches!(req, Some(IpcRequest::SetDeafened { deaf: true })));
    let (_, req) = handle_ui_message(&mut s, UiCommand::Disconnect);
    assert!(matches!(req, Some(IpcRequest::Disconnect)));
    let (_, req) = handle_ui_message(&mut s, UiCommand::Unknown);
    assert!(req.is_none());
    let mut a = Notification::new("a".into(), String::new(), String::new(), 0);
    a.channel_id = Some("call".into());
    let b = Notification::new("b".into(), String::new(), String::new(), 0);
    s.messages = vec![a, b];
    let (redraw, req) = handle_ui_message(&mut s, UiCommand::AcceptCall { channel_id: "call".into() });
    assert!(redraw);
    assert!(matches!(req, Some(IpcRequest::SelectVoiceChannel { ref channel_id }) if channel_id == "call"));
    assert_eq!(s.messages.len(), 1);
    assert_eq!(s.messages[0].title, "b");
}

#[test]
fn socket_locations() {
    let dirs = socket_dirs(&Some("/run/user/1000".into()), &None, &Some("/var/tmp".into()), &None);
    assert_eq!(
        dirs,
        vec![
            "/run/user/1000",
            "/run/user/1000/app/com.discordapp.Discord/",
            "/var/tmp",
            "/tmp"
        ]
    );
    let dirs = socket_dirs(&None, &None, &None, &None);
    assert_eq!(dirs, vec!["/tmp/app/com.discordapp.Discord/", "/tmp"]);
    assert_eq!(socket_path("/tmp", 3), "/tmp/discord-ipc-3");
    let all = socket_candidates(&dirs);
    assert_eq!(all.len(), 20);
    assert_eq!(all[0], "/tmp/app/com.discordapp.Discord//discord-ipc-0");
    assert_eq!(all[19], "/tmp/discord-ipc-9");
}

#[test]
fn unreadable_events_are_errors() {
    let mut s = AppState::new();
    s.current_channel = "c".into();
    let r = handle_ipc_message(&mut s, IpcEvent::Unreadable("missing field `user_id`".into()), 0);
    assert_eq!(r.err(), Some("missing field `user_id`".to_string()));
    assert_eq!(s.current_channel, "c");
    let r = handle_command(&mut s, IpcCommand::Dispatch(IpcEvent::Unreadable("bad".into())), 0);
    assert_eq!(r.err(), Some("bad".to_string()));
    assert!(s.messages.is_empty());
}

#[test]
fn after_sending_ui_requests() {
    let mut s = AppState::new();
    s.current_channel = "c".into();
    s.voice_users = vec![voice_state("1", None, false, false).to_user()];
    s.is_open = true;
    assert!(!after_ui_request(&mut s, &UiCommand::Disconnect, false));
    assert_eq!(s.current_channel, "c");
    assert!(!after_ui_request(&mut s, &UiCommand::ToggleMute, true));
    assert_eq!(s.voice_users.len(), 1);
    assert!(after_ui_request(&mut s, &UiCommand::Disconnect, true));
    assert_eq!(s.current_channel, "");
    assert!(s.voice_users.is_empty());
    assert!(s.is_open);
}
