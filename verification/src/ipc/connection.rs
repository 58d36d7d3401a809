//! What the connection loop does with each frame it reads, and when the
//! client goes away.
use vstd::prelude::*;
use crate::app_state::{AppState, keeps_settings, spec_kept_messages};
use crate::ipc::frame::{OP_CLOSE, OP_FRAME};
use crate::payloads::Notification;
use crate::util::chars::string_from_str;

verus! {

/// What the loop does after reading a frame.
#[derive(Clone, Copy, Debug, PartialEq, Eq, Structural)]
pub enum StreamStep {
    /// Parse the payload and handle the command in it.
    HandlePayload,
    /// Read on; the frame means nothing here.
    Ignore,
    /// The stream is over: stop reading and reconnect.
    Stop,
}

/// Decides on a frame read from the client: `opcode` is `None` when the read
/// failed. A closed or failed stream takes the voice members with it.
pub fn on_frame_read(state: &mut AppState, opcode: Option<u32>) -> (step: StreamStep)
    ensures
        step == match opcode {
            Some(op) => if op == OP_FRAME {
                StreamStep::HandlePayload
            } else if op == OP_CLOSE {
                StreamStep::Stop
            } else {
                StreamStep::Ignore
            },
            None => StreamStep::Stop,
        },
        step == StreamStep::Stop ==> final(state).voice_users@.len() == 0,
        step != StreamStep::Stop ==> final(state).voice_users == old(state).voice_users,
        final(state).messages == old(state).messages,
        final(state).user_id == old(state).user_id,
        final(state).current_channel == old(state).current_channel,
        final(state).current_guild_id == old(state).current_guild_id,
        keeps_settings(*old(state), *final(state)),
{
    let step = match opcode {
        Some(op) => if op == OP_FRAME {
            StreamStep::HandlePayload
        } else if op == OP_CLOSE {
            StreamStep::Stop
        } else {
            StreamStep::Ignore
        },
        None => StreamStep::Stop,
    };
    if step == StreamStep::Stop {
        state.voice_users = Vec::new();
    }
    step
}

/// Tells the user that the client went away and a new connection follows;
/// the notice is stamped `now` (seconds since the Unix epoch).
pub fn on_disconnected(state: &mut AppState, now: i64)
    ensures
        final(state).messages@.drop_last() == spec_kept_messages(old(state).messages@),
        final(state).messages@.last().title@ == "Disconnected"@,
        final(state).messages@.last().body@
            == "The connection to the Discord client has been closed, retrying in 10 seconds..."@,
        final(state).messages@.last().icon@ == Seq::<char>::empty(),
        final(state).messages@.last().timestamp == Some(now),
        final(state).voice_users@ == old(state).voice_users@,
        final(state).user_id == old(state).user_id,
        final(state).current_channel == old(state).current_channel,
        final(state).current_guild_id == old(state).current_guild_id,
        keeps_settings(*old(state), *final(state)),
{
    let n = Notification::new(
        string_from_str("Disconnected"),
        string_from_str(
            "The connection to the Discord client has been closed, retrying in 10 seconds...",
        ),
        String::new(),
        now,
    );
    state.notify(n);
}

} // verus!
