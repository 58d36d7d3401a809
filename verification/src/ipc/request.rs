//! The requests that the overlay sends to the Discord client.
use vstd::prelude::*;

use crate::payloads::{opt_view};

verus! {

/// A request frame to send to the Discord client.
#[derive(Clone, Debug)]
pub enum IpcRequest {
    /// Start receiving `event`, for one voice channel or for all of them.
    Subscribe { event: String, channel_id: Option<String> },
    /// Stop receiving `event`.
    Unsubscribe { event: String, channel_id: Option<String> },
    /// Ask the client to authorize the overlay.
    Authorize,
    GetSelectedVoiceChannel,
    GetSoundboardSounds,
    GetUser { id: String },
    GetChannel { channel_id: String },
    GetGuild { guild_id: String },
    SetMuted { mute: bool },
    SetDeafened { deaf: bool },
    /// Join a voice channel.
    SelectVoiceChannel { channel_id: String },
    /// Leave the current voice channel.
    Disconnect,
    /// Open a text channel in the client.
    DeepLinkChannel { channel_id: String, guild_id: String },
    StopStreaming,
    PlaySoundboardSound { sound_id: String, source_guild_id: Option<String> },
    /// Set another member's volume; `volume_bits` is the bit pattern of the
    /// `f64` volume in percent, handed on unchanged.
    SetUserVolume { user_id: String, volume_bits: u64 },
}

/// A request as texts and numbers.
pub enum RequestView {
    Subscribe { event: Seq<char>, channel_id: Option<Seq<char>> },
    Unsubscribe { event: Seq<char>, channel_id: Option<Seq<char>> },
    Authorize,
    GetSelectedVoiceChannel,
    GetSoundboardSounds,
    GetUser { id: Seq<char> },
    GetChannel { channel_id: Seq<char> },
    GetGuild { guild_id: Seq<char> },
    SetMuted { mute: bool },
    SetDeafened { deaf: bool },
    SelectVoiceChannel { channel_id: Seq<char> },
    Disconnect,
    DeepLinkChannel { channel_id: Seq<char>, guild_id: Seq<char> },
    StopStreaming,
    PlaySoundboardSound { sound_id: Seq<char>, source_guild_id: Option<Seq<char>> },
    SetUserVolume { user_id: Seq<char>, volume_bits: u64 },
}

impl View for IpcRequest {
    type V = RequestView;

    open spec fn view(&self) -> RequestView {
        match self {
            IpcRequest::Subscribe { event, channel_id } => RequestView::Subscribe {
                event: event@,
                channel_id: opt_view(*channel_id),
            },
            IpcRequest::Unsubscribe { event, channel_id } => RequestView::Unsubscribe {
                event: event@,
                channel_id: opt_view(*channel_id),
            },
            IpcRequest::Authorize => RequestView::Authorize,
            IpcRequest::GetSelectedVoiceChannel => RequestView::GetSelectedVoiceChannel,
            IpcRequest::GetSoundboardSounds => RequestView::GetSoundboardSounds,
            IpcRequest::GetUser { id } => RequestView::GetUser { id: id@ },
            IpcRequest::GetChannel { channel_id } => RequestView::GetChannel {
                channel_id: channel_id@,
            },
            IpcRequest::GetGuild { guild_id } => RequestView::GetGuild { guild_id: guild_id@ },
            IpcRequest::SetMuted { mute } => RequestView::SetMuted { mute: *mute },
            IpcRequest::SetDeafened { deaf } => RequestView::SetDeafened { deaf: *deaf },
            IpcRequest::SelectVoiceChannel { channel_id } => RequestView::SelectVoiceChannel {
                channel_id: channel_id@,
            },
            IpcRequest::Disconnect => RequestView::Disconnect,
            IpcRequest::DeepLinkChannel { channel_id, guild_id } => RequestView::DeepLinkChannel {
                channel_id: channel_id@,
                guild_id: guild_id@,
            },
            IpcRequest::StopStreaming => RequestView::StopStreaming,
            IpcRequest::PlaySoundboardSound { sound_id, source_guild_id } =>
                RequestView::PlaySoundboardSound {
                sound_id: sound_id@,
                source_guild_id: opt_view(*source_guild_id),
            },
            IpcRequest::SetUserVolume { user_id, volume_bits } => RequestView::SetUserVolume {
                user_id: user_id@,
                volume_bits: *volume_bits,
            },
        }
    }
}

/// The requests of a list, as views.
pub open spec fn requests_view(v: Seq<IpcRequest>) -> Seq<RequestView> {
    v.map_values(|q: IpcRequest| q@)
}

} // verus!
