//! Actions that the decision logic asks its caller to perform against the
//! messaging platform and the audio sink. The library computes them; the
//! surrounding program executes them.

use vstd::prelude::*;

verus! {

/// One outward-facing step requested by the core logic.
pub enum Action {
    /// Join the given voice channel.
    JoinVoice { channel_id: u64 },
    /// Leave the current voice channel.
    LeaveVoice,
    /// Re-establish the gateway connection.
    Reconnect,
    /// Send a text message to a channel.
    SendMessage { channel_id: u64, text: String },
    /// Play the named sound in the current voice channel.
    PlaySound { name: String },
    /// Look up the user's display name and announce an arrival.
    AnnounceJoin { user_id: u64 },
    /// Look up the user's display name and announce a departure.
    AnnounceLeave { user_id: u64 },
}

/// The mathematical shape of an [`Action`], with text as character sequences.
pub ghost enum ActionV {
    JoinVoice { channel_id: u64 },
    LeaveVoice,
    Reconnect,
    SendMessage { channel_id: u64, text: Seq<char> },
    PlaySound { name: Seq<char> },
    AnnounceJoin { user_id: u64 },
    AnnounceLeave { user_id: u64 },
}

impl View for Action {
    type V = ActionV;

    open spec fn view(&self) -> ActionV {
        match self {
            Action::JoinVoice { channel_id } => ActionV::JoinVoice { channel_id: *channel_id },
            Action::LeaveVoice => ActionV::LeaveVoice,
            Action::Reconnect => ActionV::Reconnect,
            Action::SendMessage { channel_id, text } => ActionV::SendMessage {
                channel_id: *channel_id,
                text: text@,
            },
            Action::PlaySound { name } => ActionV::PlaySound { name: name@ },
            Action::AnnounceJoin { user_id } => ActionV::AnnounceJoin { user_id: *user_id },
            Action::AnnounceLeave { user_id } => ActionV::AnnounceLeave { user_id: *user_id },
        }
    }
}

impl DeepView for Action {
    type V = ActionV;

    open spec fn deep_view(&self) -> ActionV {
        self.view()
    }
}

} // verus!
