//! Updates that the client core pushes to the frontend.

use vstd::prelude::*;

use crate::ids::UserId;

verus! {

/// One emoji of a SAS short-auth string, such as the dog and the word "Dog".
#[derive(Debug, Clone, PartialEq, Eq)]
pub struct SasEmoji {
    pub symbol: String,
    pub description: String,
}

/// Push updates, driven by the background sync loop.
#[derive(Debug, Clone, PartialEq, Eq)]
pub enum MeshUpdate {
    /// Sync delivered changes (new events, state, receipts...) to these rooms.
    RoomsChanged(Vec<String>),
    /// Another device or user asked to verify with us.
    VerificationRequested { user_id: UserId, flow_id: String },
    /// The SAS emojis are ready to be compared on both devices.
    VerificationEmojis { flow_id: String, emojis: Vec<SasEmoji> },
    VerificationDone { flow_id: String },
    VerificationCancelled { flow_id: String, reason: String },
    /// An incoming 1:1 voice call is ringing.
    IncomingCall { call_id: String, room_id: String, caller: UserId },
    /// A call we placed or accepted is negotiating media.
    CallConnecting { call_id: String },
    /// Media is flowing: the call is live.
    CallConnected { call_id: String },
    /// The call ended (hangup, rejection, or lost connection).
    CallEnded { call_id: String, reason: String },
}

/// `update` says that call `call_id` ended for this reason.
pub open spec fn is_call_ended(update: MeshUpdate, call_id: String, reason: Seq<char>) -> bool {
    update matches MeshUpdate::CallEnded { call_id: c, reason: r } && c == call_id && r@ == reason
}

} // verus!
