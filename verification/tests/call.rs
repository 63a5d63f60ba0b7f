use mesh::call::ice_servers;
use mesh::call::opus_track;
use mesh::call::outgoing_candidate;
use mesh::call::CallAction;
use mesh::call::CallEngine;
use mesh::call::CallEvent;
use mesh::call::HangupContent;
use mesh::call::IceCandidate;
use mesh::call::IceCandidateInit;
use mesh::call::IncomingInvite;
use mesh::call::InviteReaction;
use mesh::call::Negotiation;
use mesh::call::PeerState;
use mesh::call::Progress;
use mesh::call::TurnServers;
use mesh::call::CALL_LIFETIME_MS;
use mesh::events::MeshUpdate;
use mesh::ids::UserId;

fn user(name: &str) -> UserId {
    UserId::parse(&format!("@{name}:example.org")).unwrap()
}

fn engine() -> CallEngine {
    CallEngine::new(Some(user("me")))
}

fn next(progress: Progress) -> (Negotiation, CallAction) {
    match progress {
        Progress::Next(n, action) => (n, action),
        other => panic!("{other:?}"),
    }
}

fn invite(call_id: &str) -> IncomingInvite {
    IncomingInvite {
        sender: user("bob"),
        invitee: Some(user("me")),
        call_id: call_id.to_owned(),
        sdp: "offer".to_owned(),
    }
}

fn candidate(text: &str, index: Option<u64>) -> IceCandidate {
    IceCandidate {
        candidate: text.to_owned(),
        sdp_mid: Some("0".to_owned()),
        sdp_m_line_index: index,
    }
}

fn init(text: &str, index: Option<u16>) -> IceCandidateInit {
    IceCandidateInit {
        candidate: text.to_owned(),
        sdp_mid: Some("0".to_owned()),
        sdp_mline_index: index,
    }
}

fn ended(call_id: &str, reason: &str) -> MeshUpdate {
    MeshUpdate::CallEnded { call_id: call_id.to_owned(), reason: reason.to_owned() }
}

/// Places a call and takes it through to its invite being sent.
fn placed(engine: &mut CallEngine) {
    let (n, _) = engine
        .begin_call("!room:x".to_owned(), "call".to_owned(), "party".to_owned())
        .unwrap();
    let (n, _) = next(engine.step(n, CallEvent::Room(true)));
    let members = vec![user("me"), user("bob")];
    let (n, _) = next(engine.step(n, CallEvent::Members(Ok(members))));
    let (n, _) = next(engine.step(n, CallEvent::Turn(None)));
    let (n, _) = next(engine.step(n, CallEvent::Done(Ok(()))));
    let (n, _) = next(engine.step(n, CallEvent::Done(Ok(()))));
    let (n, _) = next(engine.step(n, CallEvent::Done(Ok(()))));
    let (n, _) = next(engine.step(n, CallEvent::Sdp(Ok("sdp".to_owned()))));
    let (n, _) = next(engine.step(n, CallEvent::Done(Ok(()))));
    let ready = engine.step(n, CallEvent::Done(Ok(())));
    assert_eq!(ready, Progress::Ready(MeshUpdate::CallConnecting { call_id: "call".to_owned() }));
}

#[test]
fn a_call_is_placed_step_by_step() {
    let mut engine = engine();
    engine.set_audio_devices(Some("Mic".to_owned()), None);
    let (n, action) = engine
        .begin_call("!room:x".to_owned(), "call".to_owned(), "party".to_owned())
        .unwrap();
    assert_eq!(action, CallAction::FindRoom("!room:x".to_owned()));
    let (n, action) = next(engine.step(n, CallEvent::Room(true)));
    assert_eq!(action, CallAction::ListMembers("!room:x".to_owned()));
    let members = vec![user("me"), user("bob"), user("carol")];
    let (n, action) = next(engine.step(n, CallEvent::Members(Ok(members))));
    assert_eq!(action, CallAction::FetchTurn);
    let (n, action) = next(engine.step(n, CallEvent::Turn(None)));
    assert_eq!(action, CallAction::BuildPeer(ice_servers(None)));
    let (n, action) = next(engine.step(n, CallEvent::Done(Ok(()))));
    assert_eq!(action, CallAction::StartPlayback(None));
    let (n, action) = next(engine.step(n, CallEvent::Done(Ok(()))));
    assert_eq!(action, CallAction::StartCapture(Some("Mic".to_owned())));
    let (n, action) = next(engine.step(n, CallEvent::Done(Ok(()))));
    assert_eq!(action, CallAction::CreateOffer);
    let (n, action) = next(engine.step(n, CallEvent::Sdp(Ok("sdp".to_owned()))));
    assert_eq!(action, CallAction::SetLocal("sdp".to_owned()));
    let (n, action) = next(engine.step(n, CallEvent::Done(Ok(()))));
    match action {
        CallAction::SendInvite { room_id, invite } => {
            assert_eq!(room_id, "!room:x");
            assert_eq!(invite.call_id, "call");
            assert_eq!(invite.party_id, "party");
            assert_eq!(invite.lifetime_ms, CALL_LIFETIME_MS);
            assert_eq!(invite.sdp, "sdp");
            assert_eq!(invite.invitee, user("bob"));
        }
        other => panic!("{other:?}"),
    }
    assert!(engine.active.is_none());
    let ready = engine.step(n, CallEvent::Done(Ok(())));
    assert_eq!(ready, Progress::Ready(MeshUpdate::CallConnecting { call_id: "call".to_owned() }));
    let call = engine.active.unwrap();
    assert_eq!(call.call_id, "call");
    assert!(call.peer && !call.remote_description_set && !call.muted && !call.deafened);
}

#[test]
fn a_failed_call_leaves_no_trace() {
    let mut engine = engine();
    let begin = |engine: &CallEngine| {
        engine.begin_call("!r:x".to_owned(), "c".to_owned(), "p".to_owned()).unwrap().0
    };
    let n = begin(&engine);
    assert_eq!(
        engine.step(n, CallEvent::Room(false)),
        Progress::Failed("room not found".to_owned())
    );
    let (n, _) = next({
        let n = begin(&engine);
        engine.step(n, CallEvent::Room(true))
    });
    assert_eq!(
        engine.step(n, CallEvent::Members(Ok(vec![user("me")]))),
        Progress::Failed("no other member in this room to call".to_owned())
    );
    let (n, _) = next({
        let n = begin(&engine);
        engine.step(n, CallEvent::Room(true))
    });
    assert_eq!(
        engine.step(n, CallEvent::Members(Err("offline".to_owned()))),
        Progress::Failed("offline".to_owned())
    );
    assert_eq!(engine, self::engine());
}

#[test]
fn one_call_is_active_at_a_time() {
    let mut engine = engine();
    placed(&mut engine);
    assert_eq!(
        engine.place_call("!other:x".to_owned()),
        Err("a call is already in progress".to_owned())
    );
    let reaction = engine.receive_invite("!r:x".to_owned(), invite("second"), "id".to_owned());
    assert_eq!(
        reaction,
        InviteReaction::Rejected {
            room_id: "!r:x".to_owned(),
            content: HangupContent { call_id: "second".to_owned(), party_id: "id".to_owned() },
        }
    );
    assert_eq!(engine.active.as_ref().unwrap().call_id, "call");
    engine.hangup();
    assert!(engine.place_call("!other:x".to_owned()).is_ok());
}

#[test]
fn calls_get_ids_of_their_own() {
    let engine = engine();
    let (a, _) = engine.place_call("!r:x".to_owned()).unwrap();
    let (b, _) = engine.place_call("!r:x".to_owned()).unwrap();
    assert!(!a.call_id.is_empty() && !a.party_id.is_empty());
    assert_ne!(a.call_id, b.call_id);
    assert_ne!(a.call_id, a.party_id);
}

#[test]
fn an_incoming_call_is_answered() {
    let mut engine = engine();
    let reaction = engine.on_invite("!r:x".to_owned(), invite("in"));
    assert_eq!(
        reaction,
        InviteReaction::Ringing(MeshUpdate::IncomingCall {
            call_id: "in".to_owned(),
            room_id: "!r:x".to_owned(),
            caller: user("bob"),
        })
    );
    let early = vec![candidate("a", Some(0)), candidate("", None)];
    assert_eq!(engine.on_candidates(&user("bob"), "in", &early), vec![]);
    let (n, action) = engine.accept_call().unwrap();
    assert_eq!(action, CallAction::FetchTurn);
    let (n, _) = next(engine.step(n, CallEvent::Turn(None)));
    let (n, _) = next(engine.step(n, CallEvent::Done(Ok(()))));
    let (n, _) = next(engine.step(n, CallEvent::Done(Ok(()))));
    let (n, action) = next(engine.step(n, CallEvent::Done(Ok(()))));
    assert_eq!(action, CallAction::ApplyOffer("offer".to_owned()));
    let (n, action) = next(engine.step(n, CallEvent::Done(Ok(()))));
    assert_eq!(action, CallAction::CreateAnswer);
    let (n, _) = next(engine.step(n, CallEvent::Sdp(Ok("answer".to_owned()))));
    let (n, action) = next(engine.step(n, CallEvent::Done(Ok(()))));
    match action {
        CallAction::SendAnswer { candidates, room_id, answer } => {
            assert_eq!(candidates, vec![init("a", Some(0))]);
            assert_eq!(room_id, "!r:x");
            assert_eq!(answer.call_id, "in");
            assert_eq!(answer.sdp, "answer");
        }
        other => panic!("{other:?}"),
    }
    let ready = engine.step(n, CallEvent::Done(Ok(())));
    assert_eq!(ready, Progress::Ready(MeshUpdate::CallConnecting { call_id: "in".to_owned() }));
    assert!(engine.active.as_ref().unwrap().peer);
    assert_eq!(engine.accept_call(), Err("call has no offer".to_owned()));
}

#[test]
fn nothing_rings_nothing_is_accepted() {
    assert_eq!(engine().accept_call(), Err("no incoming call".to_owned()));
}

#[test]
fn a_failed_answer_keeps_ringing() {
    let mut engine = engine();
    engine.on_invite("!r:x".to_owned(), invite("in"));
    let (n, _) = engine.accept_call().unwrap();
    let (n, _) = next(engine.step(n, CallEvent::Turn(None)));
    let failed = engine.step(n, CallEvent::Done(Err("no speaker".to_owned())));
    assert_eq!(failed, Progress::Failed("no speaker".to_owned()));
    assert!(engine.accept_call().is_ok());
}

#[test]
fn invites_for_others_are_ignored() {
    let mut engine = engine();
    let mut own = invite("own");
    own.sender = user("me");
    assert_eq!(engine.on_invite("!r:x".to_owned(), own), InviteReaction::Ignored);
    let mut other = invite("other");
    other.invitee = Some(user("carol"));
    assert_eq!(engine.on_invite("!r:x".to_owned(), other), InviteReaction::Ignored);
    let mut open = invite("open");
    open.invitee = None;
    assert!(matches!(engine.on_invite("!r:x".to_owned(), open), InviteReaction::Ringing(_)));
}

#[test]
fn an_answer_releases_the_waiting_candidates() {
    let mut engine = engine();
    placed(&mut engine);
    let bob = user("bob");
    let now = engine.on_candidates(&bob, "call", &vec![candidate("a", Some(70000))]);
    assert_eq!(now, vec![]);
    let now = engine.on_candidates(&bob, "call", &vec![candidate("b", None)]);
    assert_eq!(now, vec![]);
    assert_eq!(engine.on_answer(&user("me"), "call", "x".to_owned()), None);
    assert_eq!(engine.on_answer(&bob, "other", "x".to_owned()), None);
    assert_eq!(engine.on_answer(&bob, "call", "x".to_owned()), Some("x".to_owned()));
    assert_eq!(engine.answer_applied(), vec![init("a", Some(0)), init("b", None)]);
    assert_eq!(engine.on_answer(&bob, "call", "again".to_owned()), None);
    let now = engine.on_candidates(&bob, "call", &vec![candidate("c", Some(1))]);
    assert_eq!(now, vec![init("c", Some(1))]);
    assert_eq!(engine.on_candidates(&user("me"), "call", &vec![candidate("d", None)]), vec![]);
}

#[test]
fn hanging_up_ends_the_call() {
    let mut engine = engine();
    assert_eq!(engine.hangup(), None);
    placed(&mut engine);
    let end = engine.hangup().unwrap();
    assert!(end.close_peer);
    assert_eq!(end.room_id, "!room:x");
    assert_eq!(
        end.content,
        HangupContent { call_id: "call".to_owned(), party_id: "party".to_owned() }
    );
    assert_eq!(end.update, ended("call", "hung up"));
    assert!(engine.active.is_none());
}

#[test]
fn the_other_side_can_hang_up() {
    let mut engine = engine();
    placed(&mut engine);
    assert_eq!(engine.on_hangup(&user("me"), "call"), None);
    assert_eq!(engine.on_hangup(&user("bob"), "other"), None);
    let end = engine.on_hangup(&user("bob"), "call").unwrap();
    assert!(end.close_peer);
    assert_eq!(end.update, ended("call", "the other party hung up"));
    assert!(engine.active.is_none());
}

#[test]
fn the_connection_decides_about_the_call() {
    let mut engine = engine();
    placed(&mut engine);
    assert_eq!(
        engine.on_peer_state("call".to_owned(), PeerState::Connected),
        Some(MeshUpdate::CallConnected { call_id: "call".to_owned() })
    );
    assert_eq!(engine.on_peer_state("call".to_owned(), PeerState::Other), None);
    assert_eq!(
        engine.on_peer_state("older".to_owned(), PeerState::Closed),
        Some(ended("older", "connection lost"))
    );
    assert!(engine.active.is_some());
    assert_eq!(
        engine.on_peer_state("call".to_owned(), PeerState::Disconnected),
        Some(ended("call", "connection lost"))
    );
    assert!(engine.active.is_none());
}

#[test]
fn a_call_is_muted_and_deafened() {
    let mut engine = engine();
    engine.set_muted(true);
    assert!(engine.active.is_none());
    placed(&mut engine);
    engine.set_muted(true);
    assert!(engine.active.as_ref().unwrap().muted);
    engine.set_deafened(true);
    engine.set_deafened(false);
    let call = engine.active.as_ref().unwrap();
    assert!(!call.muted && !call.deafened);
    engine.carry_audio_state(true, true);
    let call = engine.active.as_ref().unwrap();
    assert!(call.muted && call.deafened);
    engine.carry_audio_state(true, false);
    let call = engine.active.as_ref().unwrap();
    assert!(call.muted && !call.deafened);
    engine.carry_audio_state(false, true);
    let call = engine.active.as_ref().unwrap();
    assert!(call.muted && call.deafened);
    engine.carry_audio_state(false, false);
    let call = engine.active.as_ref().unwrap();
    assert!(!call.muted && !call.deafened);
}

#[test]
fn turn_servers_join_the_fallback() {
    let servers = ice_servers(Some(TurnServers {
        uris: vec!["turn:a".to_owned()],
        username: "u".to_owned(),
        password: "p".to_owned(),
    }));
    assert_eq!(servers.len(), 2);
    assert_eq!(servers[0].urls, vec!["stun:stun.l.google.com:19302"]);
    assert_eq!(servers[1].urls, vec!["turn:a"]);
    assert_eq!(servers[1].credential, "p");
    let none = TurnServers { uris: vec![], username: String::new(), password: String::new() };
    assert_eq!(ice_servers(Some(none)).len(), 1);
}

#[test]
fn local_candidates_are_sent() {
    let call = "call".to_owned();
    let party = "party".to_owned();
    let sent = outgoing_candidate(&call, &party, Some(init("a", Some(3)))).unwrap();
    assert_eq!(sent.call_id, "call");
    assert_eq!(sent.party_id, "party");
    assert_eq!(sent.candidate, candidate("a", Some(3)));
    assert_eq!(outgoing_candidate(&call, &party, None), None);
}

#[test]
fn the_track_is_opus() {
    let track = opus_track();
    assert_eq!(track.clock_rate, 48_000);
    assert_eq!(track.channels, 2);
    assert_eq!(track.fmtp_line, "minptime=10;useinbandfec=1");
    assert_eq!((track.track_id.as_str(), track.stream_id.as_str()), ("audio", "mesh-audio"));
}
