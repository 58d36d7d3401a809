//! Core logic of the Orbolay Discord overlay: configuration values, user and
//! voice state, notification queueing, the Discord IPC frame format and the
//! decisions taken on IPC events, UI commands and global keybinds.

pub mod updates;
pub mod user;
pub mod voice;
pub mod util;
pub mod app_state;
pub mod config;
pub mod display;
pub mod ipc;
pub mod keys;
pub mod logger;
pub mod manager;
pub mod overlay;
pub mod payloads;
pub mod soundboard;
pub mod soundboard_view;
pub mod settings;
pub mod ui_config;
