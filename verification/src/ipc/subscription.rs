//! Which events the overlay subscribes to.
use vstd::prelude::*;

use crate::ipc::request::{IpcRequest, RequestView, requests_view};
use crate::payloads::opt_view;
use crate::util::chars::string_from_str;

verus! {

/// The events of one voice channel that the overlay follows, in the order
/// in which it subscribes to them.
pub open spec fn voice_channel_events() -> Seq<Seq<char>> {
    seq![
        "VOICE_STATE_CREATE"@,
        "VOICE_STATE_UPDATE"@,
        "VOICE_STATE_DELETE"@,
        "SCREENSHARE_STATE_UPDATE"@,
        "SPEAKING_START"@,
        "SPEAKING_STOP"@,
    ]
}

/// The events that the overlay follows whatever channel the user is in.
pub open spec fn global_events() -> Seq<Seq<char>> {
    seq![
        "VOICE_CHANNEL_SELECT"@,
        "VOICE_SETTINGS_UPDATE"@,
        "VOICE_CONNECTION_STATUS"@,
        "NOTIFICATION_CREATE"@,
    ]
}

/// Subscriptions to each of `events`, for `channel` (or globally).
pub open spec fn spec_subscriptions(events: Seq<Seq<char>>, channel: Option<Seq<char>>) -> Seq<RequestView> {
    events.map_values(|e: Seq<char>| RequestView::Subscribe { event: e, channel_id: channel })
}

/// Unsubscriptions from each of `events`, for `channel` (or globally).
pub open spec fn spec_unsubscriptions(events: Seq<Seq<char>>, channel: Option<Seq<char>>) -> Seq<RequestView> {
    events.map_values(|e: Seq<char>| RequestView::Unsubscribe { event: e, channel_id: channel })
}

/// The request that subscribes to `event`.
pub fn subscribe(event: &str, channel_id: Option<String>) -> (q: IpcRequest)
    ensures
        q@ == (RequestView::Subscribe { event: event@, channel_id: opt_view(channel_id) }),
{
    IpcRequest::Subscribe { event: string_from_str(event), channel_id }
}

/// The request that unsubscribes from `event`.
pub fn unsubscribe(event: &str, channel_id: Option<String>) -> (q: IpcRequest)
    ensures
        q@ == (RequestView::Unsubscribe { event: event@, channel_id: opt_view(channel_id) }),
{
    IpcRequest::Unsubscribe { event: string_from_str(event), channel_id }
}

fn subscribe_channel(out: &mut Vec<IpcRequest>, event: &str, channel_id: &String, on: bool)
    ensures
        requests_view(final(out)@) == requests_view(old(out)@).push(
            if on {
                RequestView::Subscribe { event: event@, channel_id: Some(channel_id@) }
            } else {
                RequestView::Unsubscribe { event: event@, channel_id: Some(channel_id@) }
            },
        ),
{
    let q = if on {
        subscribe(event, Some(channel_id.clone()))
    } else {
        unsubscribe(event, Some(channel_id.clone()))
    };
    out.push(q);
    assert(requests_view(out@) =~= requests_view(old(out)@).push(q@));
}

fn channel_requests(channel_id: &str, on: bool) -> (r: Vec<IpcRequest>)
    ensures
        requests_view(r@) == if on {
            spec_subscriptions(voice_channel_events(), Some(channel_id@))
        } else {
            spec_unsubscriptions(voice_channel_events(), Some(channel_id@))
        },
{
    let channel = string_from_str(channel_id);
    let mut r: Vec<IpcRequest> = Vec::new();
    subscribe_channel(&mut r, "VOICE_STATE_CREATE", &channel, on);
    subscribe_channel(&mut r, "VOICE_STATE_UPDATE", &channel, on);
    subscribe_channel(&mut r, "VOICE_STATE_DELETE", &channel, on);
    subscribe_channel(&mut r, "SCREENSHARE_STATE_UPDATE", &channel, on);
    subscribe_channel(&mut r, "SPEAKING_START", &channel, on);
    subscribe_channel(&mut r, "SPEAKING_STOP", &channel, on);
    if on {
        assert(requests_view(r@) =~= spec_subscriptions(voice_channel_events(), Some(channel_id@)));
    } else {
        assert(requests_view(r@) =~= spec_unsubscriptions(voice_channel_events(), Some(channel_id@)));
    }
    r
}

/// The subscriptions that follow voice channel `channel_id`.
pub fn subscribe_voice_channel(channel_id: &str) -> (r: Vec<IpcRequest>)
    ensures
        requests_view(r@) == spec_subscriptions(voice_channel_events(), Some(channel_id@)),
{
    channel_requests(channel_id, true)
}

/// The unsubscriptions that stop following voice channel `channel_id`.
pub fn unsubscribe_voice_channel(channel_id: &str) -> (r: Vec<IpcRequest>)
    ensures
        requests_view(r@) == spec_unsubscriptions(voice_channel_events(), Some(channel_id@)),
{
    channel_requests(channel_id, false)
}

/// The subscriptions to the events that concern every channel.
pub fn subscribe_voice_global() -> (r: Vec<IpcRequest>)
    ensures
        requests_view(r@) == spec_subscriptions(global_events(), None),
{
    let mut r: Vec<IpcRequest> = Vec::new();
    r.push(subscribe("VOICE_CHANNEL_SELECT", None));
    r.push(subscribe("VOICE_SETTINGS_UPDATE", None));
    r.push(subscribe("VOICE_CONNECTION_STATUS", None));
    r.push(subscribe("NOTIFICATION_CREATE", None));
    assert(requests_view(r@) =~= spec_subscriptions(global_events(), None));
    r
}

} // verus!
