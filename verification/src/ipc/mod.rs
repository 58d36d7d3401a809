//! The Discord RPC connection: its frame format, the requests the overlay
//! sends, and what it does on the events and replies it receives.
pub mod commands;
pub mod connection;
pub mod frame;
pub mod ipc_message_handler;
pub mod payloads;
pub mod request;
pub mod socket;
pub mod subscription;
pub mod ui_message_handler;
pub mod users;
