//! 1:1 voice calls over Matrix VoIP signaling: the state of the one call that
//! can be active, and what every command and signaling event does to it.
//!
//! The engine holds no connection itself. Placing or accepting a call is a
//! [`Negotiation`]: the engine names the next piece of outside work as a
//! [`CallAction`] and is told how it went as a [`CallEvent`].

use vstd::prelude::*;
use vstd::string::*;

use crate::events::MeshUpdate;
use crate::ids::UserId;
use crate::text;

verus! {

/// How long an outgoing invite is considered ringing, in milliseconds.
pub const CALL_LIFETIME_MS: u32 = 60_000;

// ---------------------------------------------------------------------------
// Data

/// An ICE candidate as `m.call.candidates` carries it.
#[derive(Debug, Clone, PartialEq, Eq)]
pub struct IceCandidate {
    pub candidate: String,
    pub sdp_mid: Option<String>,
    pub sdp_m_line_index: Option<u64>,
}

/// An ICE candidate as the peer connection takes it.
#[derive(Debug, Clone, PartialEq, Eq)]
pub struct IceCandidateInit {
    pub candidate: String,
    pub sdp_mid: Option<String>,
    pub sdp_mline_index: Option<u16>,
}

/// A STUN or TURN server.
#[derive(Debug, Clone, PartialEq, Eq)]
pub struct IceServer {
    pub urls: Vec<String>,
    pub username: String,
    pub credential: String,
}

/// The homeserver's TURN offer.
#[derive(Debug, Clone, PartialEq, Eq)]
pub struct TurnServers {
    pub uris: Vec<String>,
    pub username: String,
    pub password: String,
}

/// The current call.
#[derive(Debug, Clone, PartialEq, Eq)]
pub struct ActiveCall {
    pub call_id: String,
    pub room_id: String,
    /// Our party id for this call.
    pub party_id: String,
    /// Whether there is a peer connection; not while an incoming call is only
    /// ringing.
    pub peer: bool,
    /// SDP offer of an incoming call, kept until the call is accepted.
    pub incoming_offer: Option<String>,
    /// Remote ICE candidates that arrived before the remote description was set.
    pub pending_remote_candidates: Vec<IceCandidateInit>,
    pub remote_description_set: bool,
    pub muted: bool,
    pub deafened: bool,
}

impl ActiveCall {
    /// A call either only rings, with its offer and without a connection, or
    /// has a connection and no offer left to apply. Once the remote description
    /// is set no candidate waits.
    pub open spec fn wf(&self) -> bool {
        &&& self.peer <==> self.incoming_offer is None
        &&& self.remote_description_set ==> self.peer
        &&& self.remote_description_set ==> self.pending_remote_candidates@.len() == 0
    }
}

/// Owns the current call, if any.
#[derive(Debug, PartialEq, Eq)]
pub struct CallEngine {
    /// The logged-in user.
    pub me: Option<UserId>,
    pub active: Option<ActiveCall>,
    /// The chosen microphone; `None` for the system default.
    pub input_device: Option<String>,
    /// The chosen speaker; `None` for the system default.
    pub output_device: Option<String>,
}

/// An `m.call.invite` for another party.
#[derive(Debug, Clone, PartialEq, Eq)]
pub struct InviteContent {
    pub call_id: String,
    pub party_id: String,
    pub lifetime_ms: u32,
    pub sdp: String,
    pub invitee: UserId,
}

/// An `m.call.answer`.
#[derive(Debug, Clone, PartialEq, Eq)]
pub struct AnswerContent {
    pub call_id: String,
    pub party_id: String,
    pub sdp: String,
}

/// An `m.call.hangup`.
#[derive(Debug, Clone, PartialEq, Eq)]
pub struct HangupContent {
    pub call_id: String,
    pub party_id: String,
}

/// An `m.call.candidates` with one candidate.
#[derive(Debug, Clone, PartialEq, Eq)]
pub struct CandidatesContent {
    pub call_id: String,
    pub party_id: String,
    pub candidate: IceCandidate,
}

/// An `m.call.invite` from another party.
#[derive(Debug, Clone, PartialEq, Eq)]
pub struct IncomingInvite {
    pub sender: UserId,
    pub invitee: Option<UserId>,
    pub call_id: String,
    pub sdp: String,
}

// ---------------------------------------------------------------------------
// Candidates and servers

/// The media line index of a received candidate: one that does not fit counts
/// as the first line.
pub open spec fn line_index(index: Option<u64>) -> Option<u16> {
    match index {
        None => None,
        Some(v) => Some(
            if v <= u16::MAX {
                v as u16
            } else {
                0u16
            },
        ),
    }
}

/// A received candidate in the form the peer connection takes.
pub open spec fn candidate_init(c: IceCandidate) -> IceCandidateInit {
    IceCandidateInit {
        candidate: c.candidate,
        sdp_mid: c.sdp_mid,
        sdp_mline_index: line_index(c.sdp_m_line_index),
    }
}

/// The usable ones of received candidates, in order: an empty candidate only
/// marks the end of the list.
pub open spec fn usable(candidates: Seq<IceCandidate>) -> Seq<IceCandidateInit>
    decreases candidates.len(),
{
    if candidates.len() == 0 {
        Seq::empty()
    } else {
        let rest = usable(candidates.drop_last());
        if candidates.last().candidate@.len() == 0 {
            rest
        } else {
            rest.push(candidate_init(candidates.last()))
        }
    }
}

fn to_init(c: &IceCandidate) -> (r: IceCandidateInit)
    ensures
        r == candidate_init(*c),
{
    let sdp_mline_index: Option<u16> = match c.sdp_m_line_index {
        None => None,
        Some(v) => if v <= u16::MAX as u64 {
            Some(v as u16)
        } else {
            Some(0)
        },
    };
    IceCandidateInit { candidate: c.candidate.clone(), sdp_mid: c.sdp_mid.clone(), sdp_mline_index }
}

fn usable_candidates(candidates: &Vec<IceCandidate>) -> (r: Vec<IceCandidateInit>)
    ensures
        r@ == usable(candidates@),
{
    let mut out: Vec<IceCandidateInit> = Vec::new();
    let mut i: usize = 0;
    while i < candidates.len()
        invariant
            i <= candidates.len(),
            out@ =~= usable(candidates@.take(i as int)),
        decreases candidates.len() - i,
    {
        proof {
            assert(candidates@.take(i + 1).drop_last() =~= candidates@.take(i as int));
        }
        if !candidates[i].candidate.as_str().is_empty() {
            out.push(to_init(&candidates[i]));
        }
        i += 1;
    }
    proof {
        assert(candidates@.take(i as int) =~= candidates@);
    }
    out
}

/// A local candidate as it is sent to the other party, if there is one.
pub open spec fn outgoing(
    call_id: String,
    party_id: String,
    init: Option<IceCandidateInit>,
) -> Option<CandidatesContent> {
    match init {
        None => None,
        Some(init) => Some(
            CandidatesContent {
                call_id,
                party_id,
                candidate: IceCandidate {
                    candidate: init.candidate,
                    sdp_mid: init.sdp_mid,
                    sdp_m_line_index: match init.sdp_mline_index {
                        Some(v) => Some(v as u64),
                        None => None,
                    },
                },
            },
        ),
    }
}

/// A local candidate as it is sent to the other party; `None` where gathering
/// ended or the candidate could not be written down.
pub fn outgoing_candidate(call_id: &String, party_id: &String, init: Option<IceCandidateInit>) -> (r:
    Option<CandidatesContent>)
    ensures
        r == outgoing(*call_id, *party_id, init),
{
    match init {
        None => None,
        Some(init) => {
            let sdp_m_line_index: Option<u64> = match init.sdp_mline_index {
                Some(v) => Some(v as u64),
                None => None,
            };
            Some(
                CandidatesContent {
                    call_id: call_id.clone(),
                    party_id: party_id.clone(),
                    candidate: IceCandidate {
                        candidate: init.candidate,
                        sdp_mid: init.sdp_mid,
                        sdp_m_line_index,
                    },
                },
            )
        },
    }
}

/// `servers` is the public STUN server, followed by the homeserver's TURN offer
/// where there is one with at least one address.
pub open spec fn is_ice_servers(servers: Seq<IceServer>, turn: Option<TurnServers>) -> bool {
    &&& servers.len() == (match turn {
        Some(t) if t.uris@.len() > 0 => 2nat,
        _ => 1nat,
    })
    &&& text::texts(servers[0].urls@) == seq!["stun:stun.l.google.com:19302"@]
    &&& servers[0].username@ == Seq::<char>::empty()
    &&& servers[0].credential@ == Seq::<char>::empty()
    &&& turn matches Some(t) ==> servers.len() == 2 ==> servers[1] == (IceServer {
        urls: t.uris,
        username: t.username,
        credential: t.password,
    })
}

/// The ICE servers of a call: a public STUN fallback and the homeserver's TURN
/// servers, if it offers any.
pub fn ice_servers(turn: Option<TurnServers>) -> (r: Vec<IceServer>)
    ensures
        is_ice_servers(r@, turn),
{
    let mut urls: Vec<String> = Vec::new();
    urls.push("stun:stun.l.google.com:19302".to_owned());
    proof {
        assert(text::texts(urls@) =~= seq!["stun:stun.l.google.com:19302"@]);
    }
    let mut servers: Vec<IceServer> = Vec::new();
    servers.push(IceServer { urls, username: String::new(), credential: String::new() });
    if let Some(t) = turn {
        if t.uris.len() > 0 {
            servers.push(IceServer { urls: t.uris, username: t.username, credential: t.password });
        }
    }
    servers
}

/// How the local audio track of a call is announced.
#[derive(Debug, PartialEq, Eq)]
pub struct TrackConfig {
    pub clock_rate: u32,
    pub channels: u16,
    pub fmtp_line: String,
    pub track_id: String,
    pub stream_id: String,
}

/// The local Opus track: announced as stereo at the call's sample rate, with frames
/// of ten milliseconds at least and in-band error correction.
pub fn opus_track() -> (r: TrackConfig)
    ensures
        r.clock_rate == crate::audio::SAMPLE_RATE,
        r.channels == 2,
        r.fmtp_line@ == "minptime=10;useinbandfec=1"@,
        r.track_id@ == "audio"@,
        r.stream_id@ == "mesh-audio"@,
{
    TrackConfig {
        clock_rate: crate::audio::SAMPLE_RATE,
        channels: 2,
        fmtp_line: "minptime=10;useinbandfec=1".to_owned(),
        track_id: "audio".to_owned(),
        stream_id: "mesh-audio".to_owned(),
    }
}

// ---------------------------------------------------------------------------
// Identifiers

/// Trusted: `matrix_sdk::ruma::TransactionId::new`, as text: a random id for a
/// call or a party. Nothing is claimed of the text.
#[verifier::external_body]
fn new_id() -> String {
    matrix_sdk::ruma::TransactionId::new().to_string()
}

// ---------------------------------------------------------------------------
// Negotiation

/// The outside work that a negotiation waits for.
#[derive(Debug, Clone, Copy, PartialEq, Eq, Structural)]
pub enum Stage {
    FindRoom,
    ListMembers,
    FetchTurn,
    BuildPeer,
    StartPlayback,
    StartCapture,
    ApplyOffer,
    CreateSdp,
    SetLocal,
    Send,
}

/// A call that is being placed (`outgoing`) or accepted.
#[derive(Debug, PartialEq, Eq)]
pub struct Negotiation {
    pub outgoing: bool,
    pub room_id: String,
    pub call_id: String,
    pub party_id: String,
    /// Whom an outgoing call is for, once known.
    pub invitee: Option<UserId>,
    /// The offer of an incoming call.
    pub offer: Option<String>,
    /// Our own session description, once created.
    pub sdp: Option<String>,
    pub stage: Stage,
}

/// Outside work for a negotiation.
#[derive(Debug, PartialEq, Eq)]
pub enum CallAction {
    /// Look up the room.
    FindRoom(String),
    /// List the joined members of the room.
    ListMembers(String),
    /// Ask the homeserver for its TURN servers.
    FetchTurn,
    /// Build a peer connection with a local audio track.
    BuildPeer(Vec<IceServer>),
    /// Start playback on the output device.
    StartPlayback(Option<String>),
    /// Start capture on the input device.
    StartCapture(Option<String>),
    /// Set this offer as the remote description.
    ApplyOffer(String),
    CreateOffer,
    CreateAnswer,
    /// Set this description, which was just created, as the local one.
    SetLocal(String),
    /// Send the invite to the room.
    SendInvite { room_id: String, invite: InviteContent },
    /// Add the candidates that waited, whether or not the connection takes
    /// each; then send the answer if the room is still known.
    SendAnswer { candidates: Vec<IceCandidateInit>, room_id: String, answer: AnswerContent },
}

/// How a piece of outside work went.
#[derive(Debug, PartialEq, Eq)]
pub enum CallEvent {
    /// Whether the room is known.
    Room(bool),
    Members(Result<Vec<UserId>, String>),
    /// The TURN servers, if the homeserver told them.
    Turn(Option<TurnServers>),
    Done(Result<(), String>),
    Sdp(Result<String, String>),
}

/// Where a negotiation stands after an event.
#[derive(Debug, PartialEq, Eq)]
pub enum Progress {
    /// Do this next.
    Next(Negotiation, CallAction),
    /// It failed, for this reason.
    Failed(String),
    /// The call is set up as far as this side can; tell the frontend.
    Ready(MeshUpdate),
}

/// The event reports on the work that the stage waits for.
pub open spec fn event_fits(stage: Stage, event: CallEvent) -> bool {
    match stage {
        Stage::FindRoom => event is Room,
        Stage::ListMembers => event is Members,
        Stage::FetchTurn => event is Turn,
        Stage::CreateSdp => event is Sdp,
        _ => event is Done,
    }
}

/// `r` is a failure with this text.
pub open spec fn fails_with(r: Progress, reason: Seq<char>) -> bool {
    r matches Progress::Failed(e) && e@ == reason
}

/// The first of `members` that is not `me`.
pub open spec fn first_other(members: Seq<UserId>, me: Option<UserId>) -> Option<UserId>
    decreases members.len(),
{
    if members.len() == 0 {
        None
    } else if is_user(me, members[0]) {
        first_other(members.drop_first(), me)
    } else {
        Some(members[0])
    }
}

/// `me` is known and is `user`.
pub open spec fn is_user(me: Option<UserId>, user: UserId) -> bool {
    me matches Some(m) && m@ == user@
}

impl CallEngine {
    pub open spec fn wf(&self) -> bool {
        self.active matches Some(c) ==> c.wf()
    }

    /// `n` is under way: for an outgoing call nothing is active yet; an incoming
    /// one is the active call, still ringing until its answer is being sent.
    pub open spec fn negotiating(&self, n: Negotiation) -> bool {
        if n.outgoing {
            &&& self.active is None
            &&& n.stage != Stage::ApplyOffer
            &&& n.stage != Stage::FindRoom && n.stage != Stage::ListMembers ==> n.invitee is Some
            &&& n.stage == Stage::SetLocal || n.stage == Stage::Send ==> n.sdp is Some
        } else {
            &&& self.active matches Some(c)
            &&& c.call_id == n.call_id
            &&& n.stage != Stage::FindRoom && n.stage != Stage::ListMembers
            &&& n.offer is Some
            &&& n.stage == Stage::SetLocal || n.stage == Stage::Send ==> n.sdp is Some
            &&& n.stage != Stage::Send ==> c.incoming_offer == n.offer
            &&& n.stage == Stage::Send ==> c.peer && c.remote_description_set
        }
    }

    pub fn new(me: Option<UserId>) -> (r: Self)
        ensures
            r.wf(),
            r.me == me && r.active is None && r.input_device is None && r.output_device is None,
    {
        CallEngine { me, active: None, input_device: None, output_device: None }
    }

    /// The engine with this microphone and this speaker for coming calls.
    pub open spec fn with_devices(self, input: Option<String>, output: Option<String>) -> CallEngine {
        CallEngine { input_device: input, output_device: output, ..self }
    }

    /// Chooses the microphone and the speaker for coming calls.
    pub fn set_audio_devices(&mut self, input: Option<String>, output: Option<String>)
        ensures
            *final(self) == old(self).with_devices(input, output),
    {
        self.input_device = input;
        self.output_device = output;
    }

    fn is_me(&self, user: &UserId) -> (r: bool)
        ensures
            r == is_user(self.me, *user),
    {
        match &self.me {
            Some(m) => m.same(user),
            None => false,
        }
    }

    /// The other member of a 1:1 room.
    pub fn other_member(&self, members: &Vec<UserId>) -> (r: Result<UserId, String>)
        ensures
            match first_other(members@, self.me) {
                Some(u) => r == Ok::<UserId, String>(u),
                None => r matches Err(e) && e@ == "no other member in this room to call"@,
            },
            r matches Ok(u) ==> members@.contains(u) && (self.me matches Some(m) ==> u@ != m@),
            r is Err <==> forall|i: int|
                0 <= i < members@.len() ==> (self.me matches Some(m) && m@ == (
                #[trigger] members@[i])@),
    {
        proof {
            a_call_goes_to_another_member(members@, self.me);
        }
        let mut i: usize = 0;
        proof {
            assert(members@.skip(0) =~= members@);
        }
        while i < members.len()
            invariant
                i <= members.len(),
                first_other(members@, self.me) == first_other(members@.skip(i as int), self.me),
            decreases members.len() - i,
        {
            proof {
                assert(members@.skip(i as int).drop_first() =~= members@.skip(i + 1));
            }
            if !self.is_me(&members[i]) {
                return Ok(members[i].clone());
            }
            i += 1;
        }
        Err("no other member in this room to call".to_owned())
    }

    /// What placing a call in a room under these ids leads to: refused while
    /// another call is active, else a negotiation that first looks up the room.
    pub open spec fn place_post(
        self,
        room_id: String,
        call_id: String,
        party_id: String,
        r: Result<(Negotiation, CallAction), String>,
    ) -> bool {
        if self.active is Some {
            r matches Err(e) && e@ == "a call is already in progress"@
        } else {
            &&& r matches Ok((n, action))
            &&& self.negotiating(n)
            &&& n == (Negotiation {
                outgoing: true,
                room_id,
                call_id,
                party_id,
                invitee: None,
                offer: None,
                sdp: None,
                stage: Stage::FindRoom,
            })
            &&& action == CallAction::FindRoom(room_id)
        }
    }

    /// Places an outgoing call to the (assumed 1:1) room, under random ids.
    pub fn place_call(&self, room_id: String) -> (r: Result<(Negotiation, CallAction), String>)
        requires
            self.wf(),
        ensures
            exists|call_id: String, party_id: String|
                #[trigger] self.place_post(room_id, call_id, party_id, r),
    {
        let call_id = new_id();
        let party_id = new_id();
        self.begin_call(room_id, call_id, party_id)
    }

    /// Places an outgoing call under the given ids.
    pub fn begin_call(&self, room_id: String, call_id: String, party_id: String) -> (r: Result<
        (Negotiation, CallAction),
        String,
    >)
        requires
            self.wf(),
        ensures
            self.place_post(room_id, call_id, party_id, r),
    {
        if self.active.is_some() {
            return Err("a call is already in progress".to_owned());
        }
        let action = CallAction::FindRoom(room_id.clone());
        Ok(
            (
                Negotiation {
                    outgoing: true,
                    room_id,
                    call_id,
                    party_id,
                    invitee: None,
                    offer: None,
                    sdp: None,
                    stage: Stage::FindRoom,
                },
                action,
            ),
        )
    }

    /// What accepting the ringing call leads to.
    pub open spec fn accept_post(self, r: Result<(Negotiation, CallAction), String>) -> bool {
        match self.active {
            None => r matches Err(e) && e@ == "no incoming call"@,
            Some(c) => match c.incoming_offer {
                None => r matches Err(e) && e@ == "call has no offer"@,
                Some(offer) => {
                    &&& r matches Ok((n, action))
                    &&& self.negotiating(n)
                    &&& n == (Negotiation {
                        outgoing: false,
                        room_id: c.room_id,
                        call_id: c.call_id,
                        party_id: c.party_id,
                        invitee: None,
                        offer: Some(offer),
                        sdp: None,
                        stage: Stage::FetchTurn,
                    })
                    &&& action == CallAction::FetchTurn
                },
            },
        }
    }

    /// Accepts the currently-ringing incoming call.
    pub fn accept_call(&self) -> (r: Result<(Negotiation, CallAction), String>)
        requires
            self.wf(),
        ensures
            self.accept_post(r),
    {
        match &self.active {
            None => Err("no incoming call".to_owned()),
            Some(c) => match &c.incoming_offer {
                None => Err("call has no offer".to_owned()),
                Some(offer) => Ok(
                    (
                        Negotiation {
                            outgoing: false,
                            room_id: c.room_id.clone(),
                            call_id: c.call_id.clone(),
                            party_id: c.party_id.clone(),
                            invitee: None,
                            offer: Some(offer.clone()),
                            sdp: None,
                            stage: Stage::FetchTurn,
                        },
                        CallAction::FetchTurn,
                    ),
                ),
            },
        }
    }

    /// What [`CallEngine::step`] does.
    pub open spec fn step_post(
        pre: CallEngine,
        n: Negotiation,
        event: CallEvent,
        post: CallEngine,
        r: Progress,
    ) -> bool {
        match event {
            CallEvent::Room(found) => {
                &&& post == pre
                &&& if found {
                    r == Progress::Next(
                        Negotiation { stage: Stage::ListMembers, ..n },
                        CallAction::ListMembers(n.room_id),
                    )
                } else {
                    fails_with(r, "room not found"@)
                }
            },
            CallEvent::Members(Err(why)) => post == pre && r == Progress::Failed(why),
            CallEvent::Members(Ok(members)) => {
                &&& post == pre
                &&& match first_other(members@, pre.me) {
                    Some(invitee) => r == Progress::Next(
                        Negotiation { invitee: Some(invitee), stage: Stage::FetchTurn, ..n },
                        CallAction::FetchTurn,
                    ),
                    None => fails_with(r, "no other member in this room to call"@),
                }
            },
            CallEvent::Turn(turn) => {
                &&& post == pre
                &&& r matches Progress::Next(n2, CallAction::BuildPeer(servers))
                &&& n2 == (Negotiation { stage: Stage::BuildPeer, ..n })
                &&& is_ice_servers(servers@, turn)
            },
            CallEvent::Sdp(Err(why)) => post == pre && r == Progress::Failed(why),
            CallEvent::Sdp(Ok(sdp)) => post == pre && r == Progress::Next(
                Negotiation { sdp: Some(sdp), stage: Stage::SetLocal, ..n },
                CallAction::SetLocal(sdp),
            ),
            CallEvent::Done(Err(why)) => post == pre && r == Progress::Failed(why),
            CallEvent::Done(Ok(_)) => match n.stage {
                Stage::BuildPeer => post == pre && r == Progress::Next(
                    Negotiation { stage: Stage::StartPlayback, ..n },
                    CallAction::StartPlayback(pre.output_device),
                ),
                Stage::StartPlayback => post == pre && r == Progress::Next(
                    Negotiation { stage: Stage::StartCapture, ..n },
                    CallAction::StartCapture(pre.input_device),
                ),
                Stage::StartCapture => post == pre && r == (if n.outgoing {
                    Progress::Next(
                        Negotiation { stage: Stage::CreateSdp, ..n },
                        CallAction::CreateOffer,
                    )
                } else {
                    Progress::Next(
                        Negotiation { stage: Stage::ApplyOffer, ..n },
                        CallAction::ApplyOffer(n.offer->0),
                    )
                }),
                Stage::ApplyOffer => post == pre && r == Progress::Next(
                    Negotiation { stage: Stage::CreateSdp, ..n },
                    CallAction::CreateAnswer,
                ),
                Stage::SetLocal => if n.outgoing {
                    post == pre && r == Progress::Next(
                        Negotiation { stage: Stage::Send, ..n },
                        CallAction::SendInvite {
                            room_id: n.room_id,
                            invite: InviteContent {
                                call_id: n.call_id,
                                party_id: n.party_id,
                                lifetime_ms: CALL_LIFETIME_MS,
                                sdp: n.sdp->0,
                                invitee: n.invitee->0,
                            },
                        },
                    )
                } else {
                    // The connection becomes the call's own; what waited for it
                    // is handed out.
                    &&& post.active matches Some(c)
                    &&& c.pending_remote_candidates@.len() == 0
                    &&& post == (CallEngine {
                        active: Some(
                            ActiveCall {
                                peer: true,
                                incoming_offer: None,
                                remote_description_set: true,
                                pending_remote_candidates: c.pending_remote_candidates,
                                ..pre.active->0
                            },
                        ),
                        ..pre
                    })
                    &&& r == Progress::Next(
                        Negotiation { stage: Stage::Send, ..n },
                        CallAction::SendAnswer {
                            candidates: (pre.active->0).pending_remote_candidates,
                            room_id: n.room_id,
                            answer: AnswerContent {
                                call_id: n.call_id,
                                party_id: n.party_id,
                                sdp: n.sdp->0,
                            },
                        },
                    )
                },
                Stage::Send => {
                    &&& r == Progress::Ready(MeshUpdate::CallConnecting { call_id: n.call_id })
                    &&& if n.outgoing {
                        &&& post.active matches Some(c)
                        &&& c.pending_remote_candidates@.len() == 0
                        &&& post == (CallEngine {
                            active: Some(
                                ActiveCall {
                                    call_id: n.call_id,
                                    room_id: n.room_id,
                                    party_id: n.party_id,
                                    peer: true,
                                    incoming_offer: None,
                                    pending_remote_candidates: c.pending_remote_candidates,
                                    remote_description_set: false,
                                    muted: false,
                                    deafened: false,
                                },
                            ),
                            ..pre
                        })
                    } else {
                        post == pre
                    }
                },
                _ => false,
            },
        }
    }

    /// Advances a negotiation by the outcome of the work it waits for.
    ///
    /// An outgoing call becomes active only once its invite is sent; until then
    /// a failure leaves the engine as it was. An incoming call gets its
    /// connection when the local description is set; a failure before that
    /// leaves it ringing.
    pub fn step(&mut self, n: Negotiation, event: CallEvent) -> (r: Progress)
        requires
            old(self).wf(),
            old(self).negotiating(n),
            event_fits(n.stage, event),
        ensures
            final(self).wf(),
            Self::step_post(*old(self), n, event, *final(self), r),
            r matches Progress::Next(n2, _) ==> final(self).negotiating(n2),
    {
        let mut n = n;
        match event {
            CallEvent::Room(found) => {
                if !found {
                    return Progress::Failed("room not found".to_owned());
                }
                let action = CallAction::ListMembers(n.room_id.clone());
                n.stage = Stage::ListMembers;
                Progress::Next(n, action)
            },
            CallEvent::Members(Err(why)) => Progress::Failed(why),
            CallEvent::Members(Ok(members)) => match self.other_member(&members) {
                Err(why) => Progress::Failed(why),
                Ok(invitee) => {
                    n.invitee = Some(invitee);
                    n.stage = Stage::FetchTurn;
                    Progress::Next(n, CallAction::FetchTurn)
                },
            },
            CallEvent::Turn(turn) => {
                let servers = ice_servers(turn);
                n.stage = Stage::BuildPeer;
                Progress::Next(n, CallAction::BuildPeer(servers))
            },
            CallEvent::Sdp(Err(why)) => Progress::Failed(why),
            CallEvent::Sdp(Ok(sdp)) => {
                n.sdp = Some(sdp.clone());
                n.stage = Stage::SetLocal;
                Progress::Next(n, CallAction::SetLocal(sdp))
            },
            CallEvent::Done(Err(why)) => Progress::Failed(why),
            CallEvent::Done(Ok(_)) => self.step_done(n),
        }
    }

    fn step_done(&mut self, n: Negotiation) -> (r: Progress)
        requires
            old(self).wf(),
            old(self).negotiating(n),
            event_fits(n.stage, CallEvent::Done(Ok(()))),
        ensures
            final(self).wf(),
            Self::step_post(*old(self), n, CallEvent::Done(Ok(())), *final(self), r),
            r matches Progress::Next(n2, _) ==> final(self).negotiating(n2),
    {
        let mut n = n;
        match n.stage {
            Stage::BuildPeer => {
                n.stage = Stage::StartPlayback;
                Progress::Next(n, CallAction::StartPlayback(self.output_device.clone()))
            },
            Stage::StartPlayback => {
                n.stage = Stage::StartCapture;
                Progress::Next(n, CallAction::StartCapture(self.input_device.clone()))
            },
            Stage::StartCapture => if n.outgoing {
                n.stage = Stage::CreateSdp;
                Progress::Next(n, CallAction::CreateOffer)
            } else {
                let offer = n.offer.clone().unwrap();
                n.stage = Stage::ApplyOffer;
                Progress::Next(n, CallAction::ApplyOffer(offer))
            },
            Stage::ApplyOffer => {
                n.stage = Stage::CreateSdp;
                Progress::Next(n, CallAction::CreateAnswer)
            },
            Stage::SetLocal => {
                let sdp = n.sdp.clone().unwrap();
                let room_id = n.room_id.clone();
                let call_id = n.call_id.clone();
                let party_id = n.party_id.clone();
                if n.outgoing {
                    let invitee = n.invitee.clone().unwrap();
                    n.stage = Stage::Send;
                    let invite = InviteContent {
                        call_id,
                        party_id,
                        lifetime_ms: CALL_LIFETIME_MS,
                        sdp,
                        invitee,
                    };
                    Progress::Next(n, CallAction::SendInvite { room_id, invite })
                } else {
                    let mut call = self.active.take().unwrap();
                    let mut candidates: Vec<IceCandidateInit> = Vec::new();
                    std::mem::swap(&mut candidates, &mut call.pending_remote_candidates);
                    call.remote_description_set = true;
                    call.peer = true;
                    call.incoming_offer = None;
                    self.active = Some(call);
                    n.stage = Stage::Send;
                    let answer = AnswerContent { call_id, party_id, sdp };
                    Progress::Next(n, CallAction::SendAnswer { candidates, room_id, answer })
                }
            },
            Stage::Send => {
                let update = MeshUpdate::CallConnecting { call_id: n.call_id.clone() };
                if n.outgoing {
                    self.active = Some(
                        ActiveCall {
                            call_id: n.call_id,
                            room_id: n.room_id,
                            party_id: n.party_id,
                            peer: true,
                            incoming_offer: None,
                            pending_remote_candidates: Vec::new(),
                            remote_description_set: false,
                            muted: false,
                            deafened: false,
                        },
                    );
                }
                Progress::Ready(update)
            },
            _ => vstd::pervasive::unreached(),
        }
    }
}

// ---------------------------------------------------------------------------
// Signaling

/// What an invite leads to.
#[derive(Debug, PartialEq, Eq)]
pub enum InviteReaction {
    /// It is our own, echoed back, or meant for someone else.
    Ignored,
    /// We are busy: send this hangup to the room, if it is known.
    Rejected { room_id: String, content: HangupContent },
    /// It rings: tell the frontend.
    Ringing(MeshUpdate),
}

/// What our hanging up asks for, in this order.
#[derive(Debug, PartialEq, Eq)]
pub struct LocalHangup {
    /// Close the peer connection.
    pub close_peer: bool,
    /// Send the hangup to this room, if it is known.
    pub room_id: String,
    pub content: HangupContent,
    /// Tell the frontend.
    pub update: MeshUpdate,
}

/// What the other party's hanging up asks for, in this order.
#[derive(Debug, PartialEq, Eq)]
pub struct RemoteHangup {
    /// Close the peer connection.
    pub close_peer: bool,
    /// Tell the frontend.
    pub update: MeshUpdate,
}

/// The state of a peer connection.
#[derive(Debug, Clone, Copy, PartialEq, Eq, Structural)]
pub enum PeerState {
    Connected,
    Failed,
    Disconnected,
    Closed,
    /// New, connecting or unspecified.
    Other,
}

impl CallEngine {
    /// The call with this id is the active one.
    pub open spec fn is_active(&self, call_id: Seq<char>) -> bool {
        self.active matches Some(c) && c.call_id@ == call_id
    }

    fn has_active(&self, call_id: &str) -> (r: bool)
        ensures
            r == self.is_active(call_id@),
    {
        match &self.active {
            Some(c) => text::same_text(c.call_id.as_str(), call_id),
            None => false,
        }
    }

    /// What hanging up asks for, while `call` is the current call.
    pub open spec fn hangup_post(call: Option<ActiveCall>, r: Option<LocalHangup>) -> bool {
        match call {
            None => r is None,
            Some(c) => {
                &&& r matches Some(h)
                &&& h.close_peer == c.peer
                &&& h.room_id == c.room_id
                &&& h.content == (HangupContent { call_id: c.call_id, party_id: c.party_id })
                &&& crate::events::is_call_ended(h.update, c.call_id, "hung up"@)
            },
        }
    }

    /// Hangs up or rejects the current call; nothing happens without one.
    pub fn hangup(&mut self) -> (r: Option<LocalHangup>)
        requires
            old(self).wf(),
        ensures
            final(self).wf(),
            *final(self) == (CallEngine { active: None, ..*old(self) }),
            Self::hangup_post(old(self).active, r),
    {
        match self.active.take() {
            None => None,
            Some(c) => {
                let call_id = c.call_id.clone();
                Some(
                    LocalHangup {
                        close_peer: c.peer,
                        room_id: c.room_id,
                        content: HangupContent { call_id: c.call_id, party_id: c.party_id },
                        update: MeshUpdate::CallEnded { call_id, reason: "hung up".to_owned() },
                    },
                )
            },
        }
    }

    /// The engine with the microphone of the current call muted or not.
    pub open spec fn muted(self, muted: bool) -> CallEngine {
        match self.active {
            Some(c) => CallEngine { active: Some(ActiveCall { muted, ..c }), ..self },
            None => self,
        }
    }

    /// The engine with the current call deafened or not, and its microphone muted
    /// or not with it.
    pub open spec fn deafened(self, deafened: bool) -> CallEngine {
        match self.active {
            Some(c) => CallEngine {
                active: Some(ActiveCall { deafened, muted: deafened, ..c }),
                ..self
            },
            None => self,
        }
    }

    /// The engine with the user's mic and deafen state carried into the current call.
    pub open spec fn carried(self, muted: bool, deafened: bool) -> CallEngine {
        self.deafened(deafened).muted(muted || deafened)
    }

    /// Mutes or unmutes the microphone of the current call.
    pub fn set_muted(&mut self, muted: bool)
        requires
            old(self).wf(),
        ensures
            final(self).wf(),
            *final(self) == old(self).muted(muted),
    {
        if let Some(mut c) = self.active.take() {
            c.muted = muted;
            self.active = Some(c);
        }
    }

    /// Deafens or undeafens: silences the remote audio, and the microphone with
    /// it.
    pub fn set_deafened(&mut self, deafened: bool)
        requires
            old(self).wf(),
        ensures
            final(self).wf(),
            *final(self) == old(self).deafened(deafened),
    {
        if let Some(mut c) = self.active.take() {
            c.deafened = deafened;
            c.muted = deafened;
            self.active = Some(c);
        }
    }

    /// Carries the user's mic and deafen state into the current call: a muted user's
    /// microphone is muted in it, and so is a deafened user's.
    pub fn carry_audio_state(&mut self, muted: bool, deafened: bool)
        requires
            old(self).wf(),
        ensures
            final(self).wf(),
            *final(self) == old(self).carried(muted, deafened),
    {
        self.set_deafened(deafened);
        self.set_muted(muted || deafened);
    }

    /// The invite is for us: not our own, and addressed to us if to anyone.
    pub open spec fn concerns_us(&self, invite: IncomingInvite) -> bool {
        &&& !is_user(self.me, invite.sender)
        &&& invite.invitee matches Some(invitee) ==> is_user(self.me, invitee)
    }

    /// What an invite does to the engine, and what it leads to; `id` is a fresh
    /// party id.
    pub open spec fn invite_post(
        pre: CallEngine,
        room_id: String,
        invite: IncomingInvite,
        id: String,
        post: CallEngine,
        r: InviteReaction,
    ) -> bool {
        if !pre.concerns_us(invite) {
            post == pre && r == InviteReaction::Ignored
        } else if pre.active is Some {
            &&& post == pre
            &&& r == InviteReaction::Rejected {
                room_id,
                content: HangupContent { call_id: invite.call_id, party_id: id },
            }
        } else {
            &&& r == InviteReaction::Ringing(
                MeshUpdate::IncomingCall {
                    call_id: invite.call_id,
                    room_id,
                    caller: invite.sender,
                },
            )
            &&& post.active matches Some(c)
            &&& c.pending_remote_candidates@.len() == 0
            &&& post == (CallEngine {
                active: Some(
                    ActiveCall {
                        call_id: invite.call_id,
                        room_id,
                        party_id: id,
                        peer: false,
                        incoming_offer: Some(invite.sdp),
                        pending_remote_candidates: c.pending_remote_candidates,
                        remote_description_set: false,
                        muted: false,
                        deafened: false,
                    },
                ),
                ..pre
            })
        }
    }

    /// Handles an invite: rings if we are free, rejects it if we are busy. Our
    /// party id is drawn at random.
    pub fn on_invite(&mut self, room_id: String, invite: IncomingInvite) -> (r: InviteReaction)
        requires
            old(self).wf(),
        ensures
            final(self).wf(),
            exists|id: String|
                #[trigger] Self::invite_post(*old(self), room_id, invite, id, *final(self), r),
    {
        let id = new_id();
        self.receive_invite(room_id, invite, id)
    }

    /// Handles an invite with the given party id.
    pub fn receive_invite(&mut self, room_id: String, invite: IncomingInvite, id: String) -> (r:
        InviteReaction)
        requires
            old(self).wf(),
        ensures
            final(self).wf(),
            Self::invite_post(*old(self), room_id, invite, id, *final(self), r),
    {
        if self.is_me(&invite.sender) {
            return InviteReaction::Ignored;
        }
        if let Some(invitee) = &invite.invitee {
            if !self.is_me(invitee) {
                return InviteReaction::Ignored;
            }
        }
        if self.active.is_some() {
            return InviteReaction::Rejected {
                room_id,
                content: HangupContent { call_id: invite.call_id, party_id: id },
            };
        }
        self.active = Some(
            ActiveCall {
                call_id: invite.call_id.clone(),
                room_id: room_id.clone(),
                party_id: id,
                peer: false,
                incoming_offer: Some(invite.sdp),
                pending_remote_candidates: Vec::new(),
                remote_description_set: false,
                muted: false,
                deafened: false,
            },
        );
        InviteReaction::Ringing(
            MeshUpdate::IncomingCall { call_id: invite.call_id, room_id, caller: invite.sender },
        )
    }

    /// The active call waits for the answer to this call.
    pub open spec fn awaits_answer(&self) -> bool {
        self.active matches Some(c) && c.peer && !c.remote_description_set
    }

    /// What is taken from an answer: its session description where it comes from
    /// another user, is for the active call and is waited for.
    pub open spec fn taken_answer(
        &self,
        sender: UserId,
        call_id: Seq<char>,
        sdp: String,
    ) -> Option<String> {
        if !is_user(self.me, sender) && self.is_active(call_id) && self.awaits_answer() {
            Some(sdp)
        } else {
            None
        }
    }

    /// Handles an answer: the session description to set as the remote one, or
    /// `None` where the answer is our own, is for another call, or is not
    /// waited for. [`CallEngine::answer_applied`] follows once it is set.
    pub fn on_answer(&self, sender: &UserId, call_id: &str, sdp: String) -> (r: Option<String>)
        requires
            self.wf(),
        ensures
            r == self.taken_answer(*sender, call_id@, sdp),
    {
        if self.is_me(sender) || !self.has_active(call_id) {
            return None;
        }
        match &self.active {
            Some(c) => if c.peer && !c.remote_description_set {
                Some(sdp)
            } else {
                None
            },
            None => None,
        }
    }

    /// What [`CallEngine::answer_applied`] does.
    pub open spec fn applied_post(
        pre: CallEngine,
        post: CallEngine,
        r: Seq<IceCandidateInit>,
    ) -> bool {
        &&& r == (pre.active->0).pending_remote_candidates@
        &&& post.active matches Some(c)
        &&& c.pending_remote_candidates@.len() == 0
        &&& post == (CallEngine {
            active: Some(
                ActiveCall {
                    remote_description_set: true,
                    pending_remote_candidates: c.pending_remote_candidates,
                    ..pre.active->0
                },
            ),
            ..pre
        })
    }

    /// The answer was set as the remote description: hands out the candidates
    /// that waited for it.
    pub fn answer_applied(&mut self) -> (r: Vec<IceCandidateInit>)
        requires
            old(self).wf(),
            old(self).awaits_answer(),
        ensures
            final(self).wf(),
            Self::applied_post(*old(self), *final(self), r@),
    {
        let mut c = self.active.take().unwrap();
        let mut waiting: Vec<IceCandidateInit> = Vec::new();
        std::mem::swap(&mut waiting, &mut c.pending_remote_candidates);
        c.remote_description_set = true;
        self.active = Some(c);
        waiting
    }

    /// What [`CallEngine::on_candidates`] does.
    pub open spec fn candidates_post(
        pre: CallEngine,
        sender: UserId,
        call_id: Seq<char>,
        candidates: Seq<IceCandidate>,
        post: CallEngine,
        r: Seq<IceCandidateInit>,
    ) -> bool {
        if is_user(pre.me, sender) || !pre.is_active(call_id) {
            post == pre && r.len() == 0
        } else if (pre.active->0).remote_description_set {
            post == pre && r == usable(candidates)
        } else {
            &&& r.len() == 0
            &&& post.active matches Some(c)
            &&& c.pending_remote_candidates@ == (pre.active->0).pending_remote_candidates@
                + usable(candidates)
            &&& post == (CallEngine {
                active: Some(
                    ActiveCall {
                        pending_remote_candidates: c.pending_remote_candidates,
                        ..pre.active->0
                    },
                ),
                ..pre
            })
        }
    }

    /// Handles the other party's candidates: hands out those to add to the
    /// connection now; before the remote description is set they are kept
    /// instead. Candidates of our own or of another call are ignored.
    pub fn on_candidates(
        &mut self,
        sender: &UserId,
        call_id: &str,
        candidates: &Vec<IceCandidate>,
    ) -> (r: Vec<IceCandidateInit>)
        requires
            old(self).wf(),
        ensures
            final(self).wf(),
            Self::candidates_post(
                *old(self),
                *sender,
                call_id@,
                candidates@,
                *final(self),
                r@,
            ),
    {
        if self.is_me(sender) || !self.has_active(call_id) {
            return Vec::new();
        }
        let mut found = usable_candidates(candidates);
        match self.active.take() {
            None => Vec::new(),
            Some(mut c) => {
                if c.remote_description_set {
                    self.active = Some(c);
                    found
                } else {
                    c.pending_remote_candidates.append(&mut found);
                    self.active = Some(c);
                    Vec::new()
                }
            },
        }
    }

    /// What [`CallEngine::on_hangup`] does.
    pub open spec fn remote_hangup_post(
        pre: CallEngine,
        sender: UserId,
        call_id: Seq<char>,
        post: CallEngine,
        r: Option<RemoteHangup>,
    ) -> bool {
        if is_user(pre.me, sender) || !pre.is_active(call_id) {
            post == pre && r is None
        } else {
            &&& post == (CallEngine { active: None, ..pre })
            &&& r matches Some(h)
            &&& h.close_peer == (pre.active->0).peer
            &&& crate::events::is_call_ended(
                h.update,
                (pre.active->0).call_id,
                "the other party hung up"@,
            )
        }
    }

    /// Handles the other party's hangup of the active call.
    pub fn on_hangup(&mut self, sender: &UserId, call_id: &str) -> (r: Option<RemoteHangup>)
        requires
            old(self).wf(),
        ensures
            final(self).wf(),
            Self::remote_hangup_post(*old(self), *sender, call_id@, *final(self), r),
    {
        if self.is_me(sender) || !self.has_active(call_id) {
            return None;
        }
        match self.active.take() {
            None => None,
            Some(c) => Some(
                RemoteHangup {
                    close_peer: c.peer,
                    update: MeshUpdate::CallEnded {
                        call_id: c.call_id,
                        reason: "the other party hung up".to_owned(),
                    },
                },
            ),
        }
    }

    /// The engine without the call with this id.
    pub open spec fn without(self, call_id: Seq<char>) -> CallEngine {
        if self.is_active(call_id) {
            CallEngine { active: None, ..self }
        } else {
            self
        }
    }

    /// Forgets the active call if it is still the one with this id.
    pub fn clear_if(&mut self, call_id: &str)
        requires
            old(self).wf(),
        ensures
            final(self).wf(),
            *final(self) == old(self).without(call_id@),
    {
        if self.has_active(call_id) {
            self.active = None;
        }
    }

    /// What [`CallEngine::on_peer_state`] does.
    pub open spec fn peer_state_post(
        pre: CallEngine,
        call_id: String,
        state: PeerState,
        post: CallEngine,
        r: Option<MeshUpdate>,
    ) -> bool {
        match state {
            PeerState::Connected => post == pre && r == Some(MeshUpdate::CallConnected { call_id }),
            PeerState::Failed | PeerState::Disconnected | PeerState::Closed => {
                &&& post == pre.without(call_id@)
                &&& r matches Some(update)
                &&& crate::events::is_call_ended(update, call_id, "connection lost"@)
            },
            PeerState::Other => post == pre && r is None,
        }
    }

    /// Handles a state change of the peer connection of call `call_id`: a
    /// connection that is up makes the call live; one that is lost ends it.
    pub fn on_peer_state(&mut self, call_id: String, state: PeerState) -> (r: Option<MeshUpdate>)
        requires
            old(self).wf(),
        ensures
            final(self).wf(),
            Self::peer_state_post(*old(self), call_id, state, *final(self), r),
    {
        match state {
            PeerState::Connected => Some(MeshUpdate::CallConnected { call_id }),
            PeerState::Failed | PeerState::Disconnected | PeerState::Closed => {
                self.clear_if(call_id.as_str());
                Some(MeshUpdate::CallEnded { call_id, reason: "connection lost".to_owned() })
            },
            PeerState::Other => None,
        }
    }
}

// ---------------------------------------------------------------------------
// Laws

/// One call at a time: while a call is active, placing another is refused, and an
/// invite neither rings nor changes anything; one that is for us is turned down.
pub proof fn one_call_at_a_time(
    engine: CallEngine,
    room_id: String,
    call_id: String,
    id: String,
    placed: Result<(Negotiation, CallAction), String>,
    invite: IncomingInvite,
    post: CallEngine,
    reaction: InviteReaction,
)
    requires
        engine.active is Some,
        engine.place_post(room_id, call_id, id, placed),
        CallEngine::invite_post(engine, room_id, invite, id, post, reaction),
    ensures
        placed is Err,
        post == engine,
        reaction is Rejected <==> engine.concerns_us(invite),
        reaction is Ignored <==> !engine.concerns_us(invite),
{
}

/// A negotiation that fails leaves the engine as it was before the failing step:
/// an outgoing call is not there, an incoming one still rings or stays.
pub proof fn a_failed_step_changes_nothing(
    pre: CallEngine,
    n: Negotiation,
    event: CallEvent,
    post: CallEngine,
    r: Progress,
)
    requires
        pre.negotiating(n),
        event_fits(n.stage, event),
        CallEngine::step_post(pre, n, event, post, r),
        r is Failed,
    ensures
        post == pre,
{
}

/// How far a negotiation has come.
pub open spec fn rank(n: Negotiation) -> int {
    match n.stage {
        Stage::FindRoom => 0,
        Stage::ListMembers => 1,
        Stage::FetchTurn => 2,
        Stage::BuildPeer => 3,
        Stage::StartPlayback => 4,
        Stage::StartCapture => 5,
        Stage::ApplyOffer => 6,
        Stage::CreateSdp => 7,
        Stage::SetLocal => 8,
        Stage::Send => 9,
    }
}

/// Every step of a negotiation ends it or brings it further, so it ends after ten
/// steps at most. It stays the same call throughout.
pub proof fn a_negotiation_moves_on(
    pre: CallEngine,
    n: Negotiation,
    event: CallEvent,
    post: CallEngine,
    n2: Negotiation,
    action: CallAction,
)
    requires
        pre.negotiating(n),
        event_fits(n.stage, event),
        CallEngine::step_post(pre, n, event, post, Progress::Next(n2, action)),
    ensures
        rank(n) < rank(n2) <= 9,
        n2.outgoing == n.outgoing && n2.call_id == n.call_id && n2.room_id == n.room_id
            && n2.party_id == n.party_id && n2.offer == n.offer,
{
}

/// When a negotiation is through, its call is the active one, it has a connection,
/// and the frontend is told that this call connects.
pub proof fn a_finished_negotiation_is_the_active_call(
    pre: CallEngine,
    n: Negotiation,
    event: CallEvent,
    post: CallEngine,
    update: MeshUpdate,
)
    requires
        pre.wf(),
        pre.negotiating(n),
        event_fits(n.stage, event),
        CallEngine::step_post(pre, n, event, post, Progress::Ready(update)),
    ensures
        post.is_active(n.call_id@),
        (post.active->0).peer,
        update == (MeshUpdate::CallConnecting { call_id: n.call_id }),
{
}

/// The usable candidates of two lists in a row are those of the one and then those
/// of the other.
pub proof fn usable_candidates_add_up(a: Seq<IceCandidate>, b: Seq<IceCandidate>)
    ensures
        usable(a + b) == usable(a) + usable(b),
    decreases b.len(),
{
    if b.len() == 0 {
        assert(a + b =~= a);
        assert(usable(a) + usable(b) =~= usable(a));
    } else {
        usable_candidates_add_up(a, b.drop_last());
        assert((a + b).drop_last() =~= a + b.drop_last());
        assert((a + b).last() == b.last());
        assert(usable(a + b) =~= usable(a) + usable(b));
    }
}

/// Candidates that arrive before the answer are neither lost nor reordered: once
/// the answer is set, all that waited come out in the order they came in.
pub proof fn early_candidates_come_out_in_order(
    e0: CallEngine,
    e1: CallEngine,
    e2: CallEngine,
    e3: CallEngine,
    sender: UserId,
    call_id: Seq<char>,
    a: Seq<IceCandidate>,
    b: Seq<IceCandidate>,
    now_a: Seq<IceCandidateInit>,
    now_b: Seq<IceCandidateInit>,
    out: Seq<IceCandidateInit>,
)
    requires
        e0.wf(),
        e0.awaits_answer(),
        e0.is_active(call_id),
        !is_user(e0.me, sender),
        CallEngine::candidates_post(e0, sender, call_id, a, e1, now_a),
        CallEngine::candidates_post(e1, sender, call_id, b, e2, now_b),
        CallEngine::applied_post(e2, e3, out),
    ensures
        now_a.len() == 0 && now_b.len() == 0,
        out == (e0.active->0).pending_remote_candidates@ + usable(a + b),
        (e3.active->0).pending_remote_candidates@.len() == 0,
{
    usable_candidates_add_up(a, b);
    let first = (e0.active->0).pending_remote_candidates@;
    assert(first + usable(a) + usable(b) =~= first + (usable(a) + usable(b)));
}

/// After hanging up a call can be placed again.
pub proof fn hanging_up_frees_the_line(
    engine: CallEngine,
    room_id: String,
    call_id: String,
    id: String,
    r: Result<(Negotiation, CallAction), String>,
)
    requires
        (CallEngine { active: None, ..engine }).place_post(room_id, call_id, id, r),
    ensures
        r is Ok,
{
}

/// A new call takes over the user's mic and deafen state: it is deafened exactly if
/// the user is, and its microphone is off exactly if the user is muted or deafened.
pub proof fn a_new_call_takes_over_the_audio_state(
    engine: CallEngine,
    muted: bool,
    deafened: bool,
)
    requires
        engine.active is Some,
    ensures
        engine.carried(muted, deafened).active matches Some(call) && call.deafened == deafened
            && call.muted == (muted || deafened),
{
}

/// A deafened call is muted too; undeafening unmutes it.
pub proof fn deafening_mutes(engine: CallEngine, deafened: bool)
    requires
        engine.active is Some,
    ensures
        (engine.deafened(deafened).active->0).deafened == deafened,
        (engine.deafened(deafened).active->0).muted == deafened,
{
}

/// Whom a call is placed to is a member of the room and not the logged-in user. There
/// is someone to call exactly if some member is another user.
pub proof fn a_call_goes_to_another_member(members: Seq<UserId>, me: Option<UserId>)
    ensures
        first_other(members, me) matches Some(u) ==> members.contains(u) && (me matches Some(m)
            ==> u@ != m@),
        first_other(members, me) is None <==> forall|i: int|
            0 <= i < members.len() ==> (me matches Some(m) && m@ == (#[trigger] members[i])@),
    decreases members.len(),
{
    if members.len() > 0 {
        let rest = members.drop_first();
        a_call_goes_to_another_member(rest, me);
        if me matches Some(m) && m@ == members[0]@ {
            assert forall|i: int| 0 <= i < rest.len() implies #[trigger] rest[i] == members[i
                + 1] by {}
            if let Some(u) = first_other(rest, me) {
                let k = choose|k: int| 0 <= k < rest.len() && rest[k] == u;
                assert(members[k + 1] == u);
            } else {
                assert forall|i: int| 0 <= i < members.len() implies (me matches Some(m) && m@ == (
                #[trigger] members[i])@) by {
                    if i > 0 {
                        assert(rest[i - 1] == members[i]);
                    }
                }
            }
            if forall|i: int|
                0 <= i < members.len() ==> (me matches Some(m) && m@ == (#[trigger] members[i])@) {
                assert forall|i: int| 0 <= i < rest.len() implies (me matches Some(m) && m@ == (
                #[trigger] rest[i])@) by {
                    assert(rest[i] == members[i + 1]);
                }
            }
        } else {
            assert(members[0] == members[0]);
            assert(members.contains(members[0]));
        }
    }
}

/// The member that stands first in the list, other than the user, is the one called.
pub proof fn the_first_other_member_is_called(members: Seq<UserId>, me: Option<UserId>, i: int)
    requires
        0 <= i < members.len(),
        me matches Some(m) ==> members[i]@ != m@,
        forall|k: int| 0 <= k < i ==> (me matches Some(m) && m@ == (#[trigger] members[k])@),
    ensures
        first_other(members, me) == Some(members[i]),
    decreases i,
{
    if i > 0 {
        assert(me matches Some(m) && m@ == members[0]@);
        let rest = members.drop_first();
        assert forall|k: int| 0 <= k < i - 1 implies (me matches Some(m) && m@ == (
        #[trigger] rest[k])@) by {
            assert(rest[k] == members[k + 1]);
        }
        the_first_other_member_is_called(rest, me, i - 1);
    }
}

/// Once the members of the room are known, the negotiation is with one of them who is
/// not the user, or fails because there is none.
pub proof fn a_negotiation_is_with_another_member(
    pre: CallEngine,
    n: Negotiation,
    members: Vec<UserId>,
    post: CallEngine,
    r: Progress,
)
    requires
        CallEngine::step_post(pre, n, CallEvent::Members(Ok(members)), post, r),
    ensures
        r matches Progress::Next(n2, action) ==> n2.invitee matches Some(u) && members@.contains(u)
            && (pre.me matches Some(m) ==> u@ != m@) && action == CallAction::FetchTurn,
        r is Failed <==> forall|i: int|
            0 <= i < members@.len() ==> (pre.me matches Some(m) && m@ == (#[trigger] members@[i])@),
{
    a_call_goes_to_another_member(members@, pre.me);
}

/// What a negotiation has found out it keeps: whom it invites and its own session
/// description stay as they were first set.
pub proof fn what_was_negotiated_stays(
    pre: CallEngine,
    n: Negotiation,
    event: CallEvent,
    post: CallEngine,
    n2: Negotiation,
    action: CallAction,
)
    requires
        pre.negotiating(n),
        event_fits(n.stage, event),
        CallEngine::step_post(pre, n, event, post, Progress::Next(n2, action)),
    ensures
        !(event is Members) ==> n2.invitee == n.invitee,
        !(event is Sdp) ==> n2.sdp == n.sdp,
        event matches CallEvent::Sdp(Ok(sdp)) ==> n2.sdp == Some(sdp) && action
            == CallAction::SetLocal(sdp),
        post.me == pre.me && post.input_device == pre.input_device && post.output_device
            == pre.output_device,
{
}

/// The invite goes to the room of the call, names the call, its party and the one to
/// be called, carries the description that was created, and rings for a minute.
pub proof fn the_invite_says_what_was_negotiated(
    pre: CallEngine,
    n: Negotiation,
    event: CallEvent,
    post: CallEngine,
    n2: Negotiation,
    room_id: String,
    invite: InviteContent,
)
    requires
        pre.negotiating(n),
        event_fits(n.stage, event),
        CallEngine::step_post(
            pre,
            n,
            event,
            post,
            Progress::Next(n2, CallAction::SendInvite { room_id, invite }),
        ),
    ensures
        n.outgoing,
        room_id == n.room_id,
        invite.call_id == n.call_id && invite.party_id == n.party_id,
        n.invitee == Some(invite.invitee),
        n.sdp == Some(invite.sdp),
        invite.lifetime_ms == 60 * 1000,
{
}

/// The answer goes to the room of the call that rang, names the call, carries the
/// description that was created and brings along every candidate that waited. From then
/// on the call has its connection and nothing waits.
pub proof fn the_answer_says_what_was_negotiated(
    pre: CallEngine,
    n: Negotiation,
    event: CallEvent,
    post: CallEngine,
    n2: Negotiation,
    candidates: Vec<IceCandidateInit>,
    room_id: String,
    answer: AnswerContent,
)
    requires
        pre.negotiating(n),
        event_fits(n.stage, event),
        CallEngine::step_post(
            pre,
            n,
            event,
            post,
            Progress::Next(n2, CallAction::SendAnswer { candidates, room_id, answer }),
        ),
    ensures
        !n.outgoing,
        room_id == n.room_id,
        answer.call_id == n.call_id && answer.party_id == n.party_id,
        n.sdp == Some(answer.sdp),
        pre.active matches Some(c) && candidates == c.pending_remote_candidates,
        post.active matches Some(c) && c.peer && c.remote_description_set && c.incoming_offer
            is None && c.pending_remote_candidates@.len() == 0 && c.call_id == n.call_id,
{
}

/// A call uses the devices that were chosen: it plays on the speaker and records from
/// the microphone.
pub proof fn a_call_uses_the_chosen_devices(
    engine: CallEngine,
    input: Option<String>,
    output: Option<String>,
    n: Negotiation,
    event: CallEvent,
    post: CallEngine,
    n2: Negotiation,
    action: CallAction,
)
    requires
        engine.with_devices(input, output).negotiating(n),
        event_fits(n.stage, event),
        CallEngine::step_post(
            engine.with_devices(input, output),
            n,
            event,
            post,
            Progress::Next(n2, action),
        ),
    ensures
        action matches CallAction::StartPlayback(device) ==> device == output,
        action matches CallAction::StartCapture(device) ==> device == input,
        engine.with_devices(input, output).me == engine.me,
        engine.with_devices(input, output).active == engine.active,
{
}

/// Whatever fails ends the negotiation with the reason it failed for, and nothing else
/// ends it but a missing room or the lack of anyone to call.
pub proof fn a_failure_ends_the_negotiation(
    pre: CallEngine,
    n: Negotiation,
    event: CallEvent,
    post: CallEngine,
    r: Progress,
)
    requires
        pre.negotiating(n),
        event_fits(n.stage, event),
        CallEngine::step_post(pre, n, event, post, r),
    ensures
        event matches CallEvent::Members(Err(why)) ==> r == Progress::Failed(why),
        event matches CallEvent::Sdp(Err(why)) ==> r == Progress::Failed(why),
        event matches CallEvent::Done(Err(why)) ==> r == Progress::Failed(why),
        event == CallEvent::Room(false) ==> (r matches Progress::Failed(why) && why@
            == "room not found"@),
        event matches CallEvent::Members(Ok(_)) ==> (r matches Progress::Failed(why) ==> why@
            == "no other member in this room to call"@),
        r is Failed ==> event == CallEvent::Room(false) || event is Members || event
            matches CallEvent::Sdp(Err(_)) || event matches CallEvent::Done(Err(_)),
        r is Ready ==> n.stage == Stage::Send && event matches CallEvent::Done(Ok(_)),
{
}

/// What is asked for fits where the negotiation then stands: the room and its members
/// are looked up under the room of the call, an incoming offer is the one applied, and
/// only an outgoing call makes an offer of its own.
pub proof fn the_next_work_fits_the_stage(
    pre: CallEngine,
    n: Negotiation,
    event: CallEvent,
    post: CallEngine,
    n2: Negotiation,
    action: CallAction,
)
    requires
        pre.negotiating(n),
        event_fits(n.stage, event),
        CallEngine::step_post(pre, n, event, post, Progress::Next(n2, action)),
    ensures
        n2.stage == Stage::ListMembers ==> action == CallAction::ListMembers(n.room_id),
        n2.stage == Stage::FetchTurn ==> action == CallAction::FetchTurn,
        n2.stage == Stage::BuildPeer ==> action is BuildPeer,
        n2.stage == Stage::StartPlayback ==> action is StartPlayback,
        n2.stage == Stage::StartCapture ==> action is StartCapture,
        n2.stage == Stage::ApplyOffer ==> !n.outgoing && (n.offer matches Some(offer) && action
            == CallAction::ApplyOffer(offer)),
        n2.stage == Stage::CreateSdp && n.outgoing ==> action == CallAction::CreateOffer,
        n2.stage == Stage::CreateSdp && !n.outgoing ==> action == CallAction::CreateAnswer
            && n.stage == Stage::ApplyOffer,
        n2.stage == Stage::Send && n.outgoing ==> action is SendInvite,
        n2.stage == Stage::Send && !n.outgoing ==> action is SendAnswer,
{
}

/// A call that was placed and sent is the active one, in its room and under its ids,
/// neither muted nor deafened, and waits for the answer.
pub proof fn a_placed_call_waits_for_its_answer(
    pre: CallEngine,
    n: Negotiation,
    post: CallEngine,
    r: Progress,
)
    requires
        pre.negotiating(n),
        n.outgoing,
        n.stage == Stage::Send,
        CallEngine::step_post(pre, n, CallEvent::Done(Ok(())), post, r),
    ensures
        post.active matches Some(c) && c.call_id == n.call_id && c.room_id == n.room_id
            && c.party_id == n.party_id && !c.muted && !c.deafened && c.peer
            && !c.remote_description_set && c.pending_remote_candidates@.len() == 0,
        forall|sender: UserId, sdp: String|
            (pre.me matches Some(m) ==> sender@ != m@) ==> #[trigger] post.taken_answer(
                sender,
                n.call_id@,
                sdp,
            ) == Some(sdp),
{
}

/// Placing a call looks up the room it is placed in, under the ids it was given, and
/// knows nobody to invite yet.
pub proof fn placing_starts_with_the_room(
    engine: CallEngine,
    room_id: String,
    call_id: String,
    party_id: String,
    r: Result<(Negotiation, CallAction), String>,
)
    requires
        engine.place_post(room_id, call_id, party_id, r),
    ensures
        r is Ok <==> engine.active is None,
        r matches Err(why) ==> why@ == "a call is already in progress"@,
        r matches Ok((n, action)) ==> action == CallAction::FindRoom(room_id) && n.outgoing
            && n.room_id == room_id && n.call_id == call_id && n.party_id == party_id && n.invitee
            is None && n.stage == Stage::FindRoom,
{
}

/// An invite from someone else, to us or to nobody in particular, rings while we are
/// free: the frontend is told who calls and where. Accepting then negotiates that very
/// call, with the offer that came with it.
pub proof fn an_invite_rings_and_can_be_accepted(
    pre: CallEngine,
    room_id: String,
    invite: IncomingInvite,
    id: String,
    post: CallEngine,
    reaction: InviteReaction,
    accepted: Result<(Negotiation, CallAction), String>,
)
    requires
        pre.active is None,
        pre.me matches Some(m) ==> invite.sender@ != m@,
        invite.invitee matches Some(invitee) ==> pre.me matches Some(m) && invitee@ == m@,
        CallEngine::invite_post(pre, room_id, invite, id, post, reaction),
        post.accept_post(accepted),
    ensures
        reaction == InviteReaction::Ringing(
            MeshUpdate::IncomingCall { call_id: invite.call_id, room_id, caller: invite.sender },
        ),
        post.active matches Some(c) && c.call_id == invite.call_id && c.room_id == room_id
            && c.party_id == id && !c.peer && !c.remote_description_set && !c.muted && !c.deafened
            && c.pending_remote_candidates@.len() == 0,
        post.me == pre.me && post.input_device == pre.input_device && post.output_device
            == pre.output_device,
        accepted matches Ok((n, action)) && !n.outgoing && n.call_id == invite.call_id && n.room_id
            == room_id && n.party_id == id && n.offer == Some(invite.sdp) && n.stage
            == Stage::FetchTurn && action == CallAction::FetchTurn,
{
}

/// Our own invite, echoed back, and one that is meant for someone else change nothing
/// and do not ring. A busy line turns a call that is for us down, under its own id.
pub proof fn other_invites_do_not_ring(
    pre: CallEngine,
    room_id: String,
    invite: IncomingInvite,
    id: String,
    post: CallEngine,
    reaction: InviteReaction,
)
    requires
        CallEngine::invite_post(pre, room_id, invite, id, post, reaction),
    ensures
        pre.me matches Some(m) && invite.sender@ == m@ ==> post == pre && reaction
            == InviteReaction::Ignored,
        invite.invitee matches Some(invitee) && (pre.me matches Some(m) ==> invitee@ != m@) ==> post
            == pre && reaction == InviteReaction::Ignored,
        pre.active is Some ==> post == pre && !(reaction is Ringing),
        reaction matches InviteReaction::Rejected { room_id: to, content } ==> pre.active is Some
            && to == room_id && content.call_id == invite.call_id && content.party_id == id,
{
}

/// Only a ringing call can be accepted, and accepting it is about that call.
pub proof fn accepting_takes_the_ringing_call(
    engine: CallEngine,
    r: Result<(Negotiation, CallAction), String>,
)
    requires
        engine.accept_post(r),
    ensures
        r is Ok <==> (engine.active matches Some(c) && c.incoming_offer is Some),
        r matches Err(why) ==> why@ == if engine.active is None {
            "no incoming call"@
        } else {
            "call has no offer"@
        },
        r matches Ok((n, _)) ==> engine.active matches Some(c) && n.call_id == c.call_id
            && n.room_id == c.room_id && n.party_id == c.party_id && n.offer == c.incoming_offer
            && !n.outgoing && n.sdp is None,
{
}

/// What we sent ourselves and what is about another call changes nothing: no answer is
/// taken, no candidate added or kept, and no call ended.
pub proof fn signaling_of_others_calls_is_ignored(
    pre: CallEngine,
    sender: UserId,
    call_id: Seq<char>,
    sdp: String,
    candidates: Seq<IceCandidate>,
    post: CallEngine,
    now: Seq<IceCandidateInit>,
    over: CallEngine,
    ended: Option<RemoteHangup>,
)
    requires
        (pre.me matches Some(m) && m@ == sender@) || (pre.active matches Some(c) ==> c.call_id@
            != call_id),
        CallEngine::candidates_post(pre, sender, call_id, candidates, post, now),
        CallEngine::remote_hangup_post(pre, sender, call_id, over, ended),
    ensures
        pre.taken_answer(sender, call_id, sdp) is None,
        post == pre && now.len() == 0,
        over == pre && ended is None,
{
}

/// The other party's hangup ends the call it is about: the line is free, the connection
/// is closed if there was one, and the frontend is told which call ended and why.
pub proof fn the_other_party_can_hang_up(
    pre: CallEngine,
    call: ActiveCall,
    sender: UserId,
    post: CallEngine,
    r: Option<RemoteHangup>,
)
    requires
        pre.active == Some(call),
        pre.me matches Some(m) ==> m@ != sender@,
        CallEngine::remote_hangup_post(pre, sender, call.call_id@, post, r),
    ensures
        post == (CallEngine { active: None, ..pre }),
        r matches Some(h) && h.close_peer == call.peer && (h.update
            matches MeshUpdate::CallEnded { call_id, reason } && call_id == call.call_id && reason@
            == "the other party hung up"@),
{
}

/// Hanging up is about the call there is: the hangup goes to its room under its ids, its
/// connection is closed if it has one, and the frontend is told that it ended.
pub proof fn hanging_up_ends_the_current_call(call: Option<ActiveCall>, r: Option<LocalHangup>)
    requires
        CallEngine::hangup_post(call, r),
    ensures
        r is Some <==> call is Some,
        r matches Some(h) ==> call matches Some(c) && h.room_id == c.room_id && h.content.call_id
            == c.call_id && h.content.party_id == c.party_id && h.close_peer == c.peer && (h.update
            matches MeshUpdate::CallEnded { call_id, reason } && call_id == c.call_id && reason@
            == "hung up"@),
{
}

/// A connection that comes up makes its call live. One that is lost ends its call, and
/// only that one: another call stays the active one. The frontend is told which call.
pub proof fn a_lost_connection_ends_its_call_only(
    pre: CallEngine,
    call_id: String,
    state: PeerState,
    post: CallEngine,
    r: Option<MeshUpdate>,
)
    requires
        CallEngine::peer_state_post(pre, call_id, state, post, r),
    ensures
        state == PeerState::Connected ==> post == pre && r == Some(
            MeshUpdate::CallConnected { call_id },
        ),
        state == PeerState::Other ==> post == pre && r is None,
        state == PeerState::Failed || state == PeerState::Disconnected || state
            == PeerState::Closed ==> (r matches Some(update) && (update
            matches MeshUpdate::CallEnded { call_id: ended, reason } && ended == call_id && reason@
            == "connection lost"@)) && (pre.active matches Some(c) && c.call_id@ == call_id@
            ==> post.active is None),
        pre.active matches Some(c) && c.call_id@ != call_id@ ==> post == pre,
        post.me == pre.me && post.input_device == pre.input_device && post.output_device
            == pre.output_device,
{
}

/// A call is forgotten by its id: the active call goes exactly if it has that id.
pub proof fn a_call_is_forgotten_by_its_id(engine: CallEngine, call_id: Seq<char>)
    ensures
        engine.active matches Some(c) && c.call_id@ == call_id ==> engine.without(call_id)
            == (CallEngine { active: None, ..engine }),
        engine.active matches Some(c) && c.call_id@ != call_id ==> engine.without(call_id)
            == engine,
        engine.active is None ==> engine.without(call_id) == engine,
{
}

/// An answer is taken once, from another user, for a call that has a connection: its
/// description is the one handed on, and when it is set no further one is taken.
pub proof fn an_answer_is_taken_once(
    engine: CallEngine,
    call: ActiveCall,
    sender: UserId,
    sdp: String,
    after: CallEngine,
    waiting: Seq<IceCandidateInit>,
)
    requires
        engine.active == Some(call),
        call.peer && !call.remote_description_set,
        engine.me matches Some(m) ==> m@ != sender@,
        CallEngine::applied_post(engine, after, waiting),
    ensures
        engine.taken_answer(sender, call.call_id@, sdp) == Some(sdp),
        after.taken_answer(sender, call.call_id@, sdp) is None,
        after.active matches Some(c) && c.call_id == call.call_id && c.room_id == call.room_id
            && c.party_id == call.party_id && c.peer && c.muted == call.muted && c.deafened
            == call.deafened && c.incoming_offer == call.incoming_offer,
        waiting == call.pending_remote_candidates@,
{
}

/// While a call only rings no answer is taken: there is no connection to set it on.
pub proof fn a_ringing_call_takes_no_answer(
    engine: CallEngine,
    sender: UserId,
    call_id: Seq<char>,
    sdp: String,
)
    requires
        engine.active matches Some(c) && !c.peer,
    ensures
        engine.taken_answer(sender, call_id, sdp) is None,
{
}

/// Candidates that arrive once the remote description is set are added at once, all the
/// usable ones in order, and none is kept.
pub proof fn late_candidates_are_added_at_once(
    pre: CallEngine,
    call: ActiveCall,
    sender: UserId,
    candidates: Seq<IceCandidate>,
    post: CallEngine,
    now: Seq<IceCandidateInit>,
)
    requires
        pre.active == Some(call),
        call.remote_description_set,
        pre.me matches Some(m) ==> m@ != sender@,
        CallEngine::candidates_post(pre, sender, call.call_id@, candidates, post, now),
    ensures
        post == pre,
        now == usable(candidates),
{
}

/// A candidate is usable exactly if it is not empty. It keeps its text and media id, and
/// its line where that fits into sixteen bits; one that does not fit is the first line.
pub proof fn a_candidate_is_used_as_it_came(c: IceCandidate)
    ensures
        c.candidate@.len() == 0 ==> usable(seq![c]).len() == 0,
        c.candidate@.len() > 0 ==> usable(seq![c]).len() == 1 && usable(seq![c])[0].candidate
            == c.candidate && usable(seq![c])[0].sdp_mid == c.sdp_mid,
        c.candidate@.len() > 0 ==> match (c.sdp_m_line_index, usable(seq![c])[0].sdp_mline_index) {
            (None, None) => true,
            (Some(sent), Some(used)) => if sent <= 65535 {
                used == sent
            } else {
                used == 0
            },
            _ => false,
        },
        usable(Seq::<IceCandidate>::empty()).len() == 0,
{
    let one = seq![c];
    assert(one.drop_last() =~= Seq::empty());
    assert(one.last() == c);
    assert(usable(one.drop_last()) =~= Seq::empty());
}

/// A local candidate that is sent reaches the other party's connection as it was, under
/// the ids of the call. Where there is none, none is sent.
pub proof fn a_candidate_survives_the_way(
    call_id: String,
    party_id: String,
    init: IceCandidateInit,
)
    ensures
        outgoing(call_id, party_id, None) is None,
        outgoing(call_id, party_id, Some(init)) matches Some(sent) && sent.call_id == call_id
            && sent.party_id == party_id && (init.candidate@.len() > 0 ==> usable(
            seq![sent.candidate],
        ) == seq![init]),
{
    let sent = outgoing(call_id, party_id, Some(init))->0;
    a_candidate_is_used_as_it_came(sent.candidate);
    if init.candidate@.len() > 0 {
        assert(usable(seq![sent.candidate]) =~= seq![init]);
    }
}

/// A public STUN server always comes first, without credentials. The homeserver's TURN
/// servers follow exactly if it offers an address, with the credentials it gave.
pub proof fn turn_servers_come_with_their_credentials(
    servers: Seq<IceServer>,
    turn: Option<TurnServers>,
)
    requires
        is_ice_servers(servers, turn),
    ensures
        servers.len() >= 1 && servers[0].urls@.len() == 1 && servers[0].urls@[0]@
            == "stun:stun.l.google.com:19302"@ && servers[0].username@.len() == 0
            && servers[0].credential@.len() == 0,
        servers.len() <= 2,
        servers.len() == 2 <==> (turn matches Some(t) && t.uris@.len() > 0),
        servers.len() == 2 ==> (turn matches Some(t) && servers[1].urls == t.uris
            && servers[1].username == t.username && servers[1].credential == t.password),
{
    let urls = servers[0].urls@;
    assert(text::texts(urls).len() == urls.len());
    assert(text::texts(urls)[0] == urls[0]@);
}

/// Muting and deafening touch the microphone and the sound of the call there is and
/// nothing else: the call, the user and the devices stay.
pub proof fn muting_touches_nothing_else(engine: CallEngine, on: bool)
    ensures
        engine.active is None ==> engine.muted(on) == engine && engine.deafened(on) == engine,
        engine.active matches Some(c) ==> engine.muted(on).active matches Some(d) && d
            == (ActiveCall { muted: on, ..c }),
        engine.active matches Some(c) ==> engine.deafened(on).active matches Some(d) && d
            == (ActiveCall { muted: on, deafened: on, ..c }),
        engine.muted(on).me == engine.me && engine.deafened(on).me == engine.me,
        engine.muted(on).input_device == engine.input_device && engine.muted(on).output_device
            == engine.output_device,
        engine.deafened(on).input_device == engine.input_device && engine.deafened(
            on,
        ).output_device == engine.output_device,
{
}

/// The connection of a call is built with the homeserver's own TURN servers, behind the
/// public STUN server, exactly if it told of any.
pub proof fn a_call_uses_the_turn_servers(
    pre: CallEngine,
    n: Negotiation,
    turn: Option<TurnServers>,
    post: CallEngine,
    r: Progress,
)
    requires
        CallEngine::step_post(pre, n, CallEvent::Turn(turn), post, r),
    ensures
        post == pre,
        r matches Progress::Next(n2, CallAction::BuildPeer(servers)) && n2.stage
            == Stage::BuildPeer && n2.invitee == n.invitee && servers@.len() >= 1
            && servers@[0].urls@.len() == 1 && servers@[0].urls@[0]@
            == "stun:stun.l.google.com:19302"@ && (servers@.len() == 2 <==> (turn matches Some(t)
            && t.uris@.len() > 0)) && (servers@.len() == 2 ==> (turn matches Some(t)
            && servers@[1].urls == t.uris && servers@[1].username == t.username
            && servers@[1].credential == t.password)),
{
    if let Progress::Next(_, CallAction::BuildPeer(servers)) = r {
        turn_servers_come_with_their_credentials(servers@, turn);
    }
}

} // verus!
