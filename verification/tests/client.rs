use mesh::client::event_of;
use mesh::client::find_room;
use mesh::client::is_verification_request;
use mesh::client::plain_body;
use mesh::client::read_event;
use mesh::client::timeline_senders;
use mesh::client::BackupSetup;
use mesh::client::BackupStatus;
use mesh::client::CancelTarget;
use mesh::client::ForwardStep;
use mesh::client::MemberFacts;
use mesh::client::MeshClient;
use mesh::client::MessageType;
use mesh::client::RecoveryState;
use mesh::client::RoomEvent;
use mesh::client::RoomFacts;
use mesh::client::RoomUpdates;
use mesh::events::MeshUpdate;
use mesh::ids::UserId;
use mesh::paths::BaseDir;
use mesh::paths::Location;

fn user(name: &str) -> UserId {
    UserId::parse(&format!("@{name}:example.org")).unwrap()
}

fn client() -> MeshClient {
    let dir = Location { base: BaseDir::Current, names: vec!["mesh".to_owned()] };
    MeshClient::new(Some(user("me")), dir)
}

fn room(id: &str, name: Option<&str>, last: Option<u64>) -> RoomFacts {
    RoomFacts {
        id: id.to_owned(),
        is_joined: true,
        cached_name: name.map(str::to_owned),
        topic: None,
        unread_notifications: 0,
        is_direct: None,
        last_activity_ms: last,
    }
}

#[test]
fn rooms_are_sorted_by_recency() {
    let rooms = MeshClient::rooms(vec![
        room("!a:x", Some("Never"), None),
        room("!b:x", Some("Old"), Some(10)),
        room("!c:x", Some("New"), Some(30)),
        room("!d:x", Some("Beta"), Some(20)),
        room("!e:x", Some("Alpha"), Some(20)),
        room("!f:x", None, None),
    ]);
    let names: Vec<&str> = rooms.iter().map(|r| r.name.as_str()).collect();
    assert_eq!(names, vec!["New", "Alpha", "Beta", "Old", "!f:x", "Never"]);
}

#[test]
fn only_joined_rooms_are_listed() {
    let mut invited = room("!a:x", Some("Invited"), Some(99));
    invited.is_joined = false;
    let rooms = MeshClient::rooms(vec![invited, room("!b:x", Some("Home"), None)]);
    assert_eq!(rooms.len(), 1);
    assert_eq!(rooms[0].name, "Home");
}

#[test]
fn a_room_is_direct_only_if_known_to_be() {
    let mut direct = room("!a:x", None, Some(2));
    direct.is_direct = Some(true);
    let mut group = room("!b:x", None, Some(1));
    group.is_direct = Some(false);
    let rooms = MeshClient::rooms(vec![direct, group, room("!c:x", None, None)]);
    let direct: Vec<bool> = rooms.iter().map(|r| r.is_direct).collect();
    assert_eq!(direct, vec![true, false, false]);
    assert_eq!(find_room(&rooms, "!b:x").unwrap().id, "!b:x");
    assert!(find_room(&rooms, "!z:x").is_none());
}

fn member(name: &str, display: Option<&str>) -> MemberFacts {
    MemberFacts { user_id: user(name), display_name: display.map(str::to_owned) }
}

#[test]
fn members_are_sorted_and_the_user_comes_last() {
    let members = MeshClient::room_members(&Some(user("me")), Some(vec![
        member("me", Some("Aaron")),
        member("zed", None),
        member("bob", Some("bob")),
        member("ann", Some("Ärger")),
        member("carl", Some("CARL")),
    ]));
    let names: Vec<&str> = members.iter().map(|m| m.display_name.as_str()).collect();
    assert_eq!(names, vec!["bob", "CARL", "zed", "Ärger", "Aaron"]);
    assert!(members[4].is_me && !members[0].is_me);
}

#[test]
fn an_unknown_room_has_no_members() {
    assert!(MeshClient::room_members(&Some(user("me")), None).is_empty());
}

#[test]
fn the_profile_falls_back_to_the_local_part() {
    assert_eq!(MeshClient::my_profile(user("me"), None).display_name, "me");
    assert_eq!(MeshClient::my_profile(user("me"), Some(String::new())).display_name, "me");
    let profile = MeshClient::my_profile(user("me"), Some("Me".to_owned()));
    assert_eq!(profile.display_name, "Me");
    assert_eq!(profile.user_id, user("me"));
}

fn message(name: &str, msgtype: MessageType, at: u64) -> RoomEvent {
    RoomEvent::Message { sender: user(name), msgtype, timestamp_ms: at }
}

fn history() -> Vec<RoomEvent> {
    vec![
        message("bob", MessageType::Text("three".to_owned()), 30),
        RoomEvent::Other,
        message("ann", MessageType::Emote("waves".to_owned()), 20),
        message("ann", MessageType::Other, 19),
        message("bob", MessageType::Notice("one".to_owned()), 10),
    ]
}

#[test]
fn the_timeline_runs_from_old_to_new() {
    let names = vec![(user("bob"), Some("Bob".to_owned())), (user("ann"), None)];
    let timeline = MeshClient::timeline(Some(&history()), &names);
    let shown: Vec<(&str, &str, u64)> = timeline
        .iter()
        .map(|m| (m.sender_name.as_str(), m.body.as_str(), m.timestamp_ms))
        .collect();
    assert_eq!(shown, vec![("Bob", "one", 10), ("ann", "waves", 20), ("Bob", "three", 30)]);
}

#[test]
fn an_unknown_room_has_no_timeline() {
    assert!(MeshClient::timeline(None, &vec![]).is_empty());
}

fn event_json(kind: &str, content: &str) -> String {
    format!(
        r#"{{"type":"{kind}","event_id":"$e:x","sender":"@bob:example.org","origin_server_ts":42,"content":{content}}}"#
    )
}

fn message_json(msgtype: &str) -> String {
    event_json("m.room.message", &format!(r#"{{"msgtype":"{msgtype}","body":"hi"}}"#))
}

#[test]
fn messages_are_read_from_their_json() {
    assert_eq!(
        read_event(&message_json("m.text")),
        message("bob", MessageType::Text("hi".to_owned()), 42)
    );
    assert_eq!(
        read_event(&message_json("m.notice")),
        message("bob", MessageType::Notice("hi".to_owned()), 42)
    );
    assert_eq!(
        read_event(&message_json("m.emote")),
        message("bob", MessageType::Emote("hi".to_owned()), 42)
    );
    let location = event_json(
        "m.room.message",
        r#"{"msgtype":"m.location","body":"here","geo_uri":"geo:1,2"}"#,
    );
    assert_eq!(read_event(&location), message("bob", MessageType::Other, 42));
    let request = event_json(
        "m.room.message",
        r#"{"msgtype":"m.key.verification.request","body":"verify","from_device":"D","methods":["m.sas.v1"],"to":"@me:example.org"}"#,
    );
    assert_eq!(read_event(&request), message("bob", MessageType::VerificationRequest, 42));
}

#[test]
fn what_is_no_message_reads_as_something_else() {
    assert_eq!(read_event("no json"), RoomEvent::Other);
    assert_eq!(read_event("{}"), RoomEvent::Other);
    assert_eq!(
        read_event(&event_json("m.reaction", r#"{"m.relates_to":{"rel_type":"m.annotation","event_id":"$a:x","key":"x"}}"#)),
        RoomEvent::Other
    );
    let redacted = r#"{"type":"m.room.message","event_id":"$e:x","sender":"@bob:example.org","origin_server_ts":42,"content":{},"unsigned":{"redacted_because":{"type":"m.room.redaction","event_id":"$r:x","sender":"@bob:example.org","origin_server_ts":43,"redacts":"$e:x","content":{"redacts":"$e:x"}}}}"#;
    assert_eq!(read_event(redacted), RoomEvent::Other);
    let nobody = message_json("m.text").replace("@bob:example.org", "bob");
    assert_eq!(read_event(&nobody), RoomEvent::Other);
}

#[test]
fn an_event_needs_a_sender() {
    let found = |sender: &str| Some((sender.to_owned(), MessageType::Other, 7));
    assert_eq!(event_of(found("@ann:example.org")), message("ann", MessageType::Other, 7));
    assert_eq!(event_of(found("ann")), RoomEvent::Other);
    assert_eq!(event_of(None), RoomEvent::Other);
}

#[test]
fn verification_requests_are_told_apart() {
    assert!(is_verification_request(&MessageType::VerificationRequest));
    assert!(!is_verification_request(&MessageType::Text("verify".to_owned())));
    assert!(!is_verification_request(&MessageType::Other));
}

#[test]
fn each_sender_is_looked_up_once() {
    assert_eq!(timeline_senders(&history()), vec![user("bob"), user("ann")]);
    assert_eq!(timeline_senders(&vec![RoomEvent::Other]), vec![]);
}

#[test]
fn only_texts_have_a_plain_body() {
    assert_eq!(plain_body(&MessageType::Text("a".to_owned())).unwrap(), "a");
    assert_eq!(plain_body(&MessageType::Notice("b".to_owned())).unwrap(), "b");
    assert_eq!(plain_body(&MessageType::Emote("c".to_owned())).unwrap(), "c");
    assert!(plain_body(&MessageType::VerificationRequest).is_none());
    assert!(plain_body(&MessageType::Other).is_none());
}

#[test]
fn the_backup_status_is_reported() {
    assert_eq!(MeshClient::backup_status(RecoveryState::Enabled), BackupStatus::Enabled);
    assert_eq!(MeshClient::backup_status(RecoveryState::Disabled), BackupStatus::Disabled);
    assert_eq!(MeshClient::backup_status(RecoveryState::Incomplete), BackupStatus::Incomplete);
    assert_eq!(MeshClient::backup_status(RecoveryState::Unknown), BackupStatus::Unknown);
}

#[test]
fn a_stale_backup_is_reset() {
    assert_eq!(
        MeshClient::enable_secure_backup(Ok("key".to_owned())),
        BackupSetup::Enabled("key".to_owned())
    );
    assert_eq!(
        MeshClient::enable_secure_backup(Err("exists".to_owned())),
        BackupSetup::ResetKey
    );
}

#[test]
fn a_backup_is_enabled_unless_it_is_on() {
    assert!(!MeshClient::ensure_secure_backup(BackupStatus::Enabled));
    assert!(MeshClient::ensure_secure_backup(BackupStatus::Disabled));
    assert!(MeshClient::ensure_secure_backup(BackupStatus::Incomplete));
    assert!(MeshClient::ensure_secure_backup(BackupStatus::Unknown));
}

#[test]
fn a_recovery_key_is_trimmed() {
    assert_eq!(MeshClient::restore_secure_backup("  EsT4 q1\n"), "EsT4 q1");
}

#[test]
fn room_updates_are_forwarded() {
    let ids = vec!["!a:x".to_owned()];
    assert_eq!(
        MeshClient::forward_room_updates(RoomUpdates::Changed(ids.clone())),
        ForwardStep::Send(MeshUpdate::RoomsChanged(ids))
    );
    assert_eq!(MeshClient::forward_room_updates(RoomUpdates::Lagged), ForwardStep::Continue);
    assert_eq!(MeshClient::forward_room_updates(RoomUpdates::Closed), ForwardStep::Stop);
}

#[test]
fn cancelling_prefers_the_emoji_comparison() {
    assert_eq!(MeshClient::cancel_verification(true, true), CancelTarget::Sas);
    assert_eq!(MeshClient::cancel_verification(false, true), CancelTarget::Request);
    assert_eq!(MeshClient::cancel_verification(false, false), CancelTarget::Nothing);
}

#[test]
fn messages_are_composed_as_markdown() {
    let message = MeshClient::send_message("**bold** move");
    assert_eq!(message.body, "**bold** move");
    assert_eq!(message.html.unwrap(), "<strong>bold</strong> move");
    let plain = MeshClient::send_message("just text");
    assert_eq!(plain.body, "just text");
    assert_eq!(plain.html, None);
}

#[test]
fn the_client_forwards_to_its_call() {
    let mut client = client();
    assert!(client.call.input_device.is_none() && client.call.output_device.is_none());
    assert_eq!(client.accept_call(), Err("no incoming call".to_owned()));
    assert!(client.place_call("!r:x".to_owned()).is_ok());
    assert_eq!(client.hangup(), None);
    client.set_audio_devices(None, Some("Speaker".to_owned()));
    assert_eq!(client.call.output_device.as_deref(), Some("Speaker"));
    client.set_call_muted(true);
    client.set_call_deafened(true);
    assert!(client.call.active.is_none());
}
