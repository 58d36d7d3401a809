use orbolay::keys::{
    default_keybinds, process, reset, sync_overlay_keybind, KeyEvent, KeyInput, KeyState, Keybind,
};
use orbolay::user::PremiumType;

const CTRL: u64 = 1;
const BACKQUOTE: u64 = 2;
const KEY_C: u64 = 3;

#[test]
fn key_state_tracks_held_keys() {
    let mut s = KeyState::new(0);
    s.press(CTRL, 10);
    s.press(CTRL, 20);
    assert_eq!(s.last_update, 10);
    s.press(BACKQUOTE, 30);
    assert_eq!(s.last_update, 30);
    assert_eq!(s.pressed, vec![CTRL, BACKQUOTE]);
    s.release(CTRL, 40);
    assert_eq!(s.last_update, 40);
    assert_eq!(s.pressed, vec![BACKQUOTE]);
    s.clear(50);
    assert_eq!(s.last_update, 50);
    assert!(s.pressed.is_empty());
}

#[test]
fn binds_fire_once_per_press() {
    let mut state = KeyState::new(0);
    let mut binds = default_keybinds(vec![CTRL, BACKQUOTE], KEY_C);
    assert!(process(KeyInput::Press(CTRL), &mut state, &mut binds, 0).is_empty());
    assert_eq!(process(KeyInput::Press(BACKQUOTE), &mut state, &mut binds, 0), vec![KeyEvent::ToggleOverlay]);
    assert!(binds[0].active());
    // Holding the keys (a repeated press) fires nothing more.
    assert!(process(KeyInput::Press(BACKQUOTE), &mut state, &mut binds, 0).is_empty());
    assert!(process(KeyInput::Release(BACKQUOTE), &mut state, &mut binds, 0).is_empty());
    assert!(!binds[0].active());
    assert_eq!(process(KeyInput::Press(BACKQUOTE), &mut state, &mut binds, 0), vec![KeyEvent::ToggleOverlay]);
    assert!(process(KeyInput::Other, &mut state, &mut binds, 0).is_empty());
}

#[test]
fn binds_need_exactly_their_keys() {
    let mut state = KeyState::new(0);
    let mut binds = default_keybinds(vec![CTRL, BACKQUOTE], KEY_C);
    process(KeyInput::Press(KEY_C), &mut state, &mut binds, 0);
    process(KeyInput::Press(CTRL), &mut state, &mut binds, 0);
    assert!(process(KeyInput::Press(BACKQUOTE), &mut state, &mut binds, 0).is_empty());
    let mut state = KeyState::new(0);
    let mut binds = default_keybinds(vec![CTRL, BACKQUOTE], KEY_C);
    assert_eq!(process(KeyInput::Press(KEY_C), &mut state, &mut binds, 0), vec![KeyEvent::OpenConfigurator]);
}

#[test]
fn keybind_matching() {
    let b = Keybind::new(vec![CTRL, BACKQUOTE], KeyEvent::ToggleOverlay);
    assert!(b.matches(&[BACKQUOTE, CTRL]));
    assert!(!b.matches(&[CTRL]));
    assert!(!b.matches(&[CTRL, BACKQUOTE, KEY_C]));
    let mut b = b;
    b.set_active(true);
    assert!(b.active());
    b.reset();
    assert!(!b.active());
}

#[test]
fn resetting_forgets_everything() {
    let mut state = KeyState::new(0);
    let mut binds = default_keybinds(vec![KEY_C], 9);
    process(KeyInput::Press(KEY_C), &mut state, &mut binds, 0);
    assert!(binds[0].active());
    reset(&mut state, &mut binds, 99);
    assert_eq!(state.last_update, 99);
    assert!(state.pressed.is_empty());
    assert!(!binds[0].active());
    assert_eq!(binds[0].keys, vec![KEY_C]);
}

#[test]
fn overlay_keybind_follows_configuration() {
    let mut binds = default_keybinds(vec![CTRL, BACKQUOTE], KEY_C);
    binds[0].set_active(true);
    sync_overlay_keybind(&mut binds, &vec![KEY_C, CTRL]);
    assert_eq!(binds[0].keys, vec![KEY_C, CTRL]);
    assert!(!binds[0].active());
    assert_eq!(binds[1].keys, vec![KEY_C]);
    binds[0].set_active(true);
    sync_overlay_keybind(&mut binds, &vec![KEY_C, CTRL]);
    assert!(binds[0].active());
}

#[test]
fn premium_codes() {
    assert_eq!(PremiumType::try_from_code(0), Ok(PremiumType::NoPremium));
    assert_eq!(PremiumType::try_from_code(2), Ok(PremiumType::Nitro));
    assert_eq!(PremiumType::try_from_code(3), Ok(PremiumType::NitroBasic));
    assert_eq!(PremiumType::try_from_code(7), Err("Unknown premium type: 7".to_string()));
    assert!(!PremiumType::NoPremium.has_nitro());
    assert!(PremiumType::NitroClassic.has_nitro());
    assert_eq!(PremiumType::default(), PremiumType::NoPremium);
}

#[test]
fn stale_keys_are_forgotten() {
    let mut s = KeyState::new(0);
    s.press(CTRL, 1000);
    assert!(!s.clear_if_stale(6000, 5000));
    assert_eq!(s.pressed, vec![CTRL]);
    assert!(!s.clear_if_stale(500, 5000));
    assert!(s.clear_if_stale(6001, 5000));
    assert!(s.pressed.is_empty());
    assert_eq!(s.last_update, 6001);
}

#[test]
fn process_records_the_time() {
    let mut state = KeyState::new(0);
    let mut binds = default_keybinds(vec![CTRL], KEY_C);
    process(KeyInput::Press(CTRL), &mut state, &mut binds, 7);
    assert_eq!(state.last_update, 7);
    process(KeyInput::Press(CTRL), &mut state, &mut binds, 8);
    assert_eq!(state.last_update, 7);
    process(KeyInput::Other, &mut state, &mut binds, 9);
    assert_eq!(state.last_update, 7);
    process(KeyInput::Release(CTRL), &mut state, &mut binds, 10);
    assert_eq!(state.last_update, 10);
}
