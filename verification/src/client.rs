//! The client core: rooms, members, the timeline and the account, as plain data
//! for a frontend.

use vstd::prelude::*;
use vstd::string::*;

use matrix_sdk::ruma::events::room::message::MessageType as RumaMessageType;
use matrix_sdk::ruma::events::AnySyncMessageLikeEvent;
use matrix_sdk::ruma::events::AnySyncTimelineEvent;
use matrix_sdk::ruma::events::SyncMessageLikeEvent;

use crate::call::CallAction;
use crate::call::CallEngine;
use crate::call::LocalHangup;
use crate::call::Negotiation;
use crate::events::MeshUpdate;
use crate::ids::UserId;
use crate::order::Ranked;
use crate::paths::Location;
use crate::session::ClearOutcome;
use crate::session::MeshError;
use crate::session::MeshResult;
use crate::session::OpenAction;
use crate::session::OpenStage;
use crate::session::Opening;
use crate::session::SessionStore;
use crate::session::StoredFile;
use crate::text;

verus! {

/// A single logged-in Matrix session.
pub struct MeshClient {
    pub user_id: Option<UserId>,
    pub data_dir: Location,
    pub call: CallEngine,
}

#[derive(Debug, PartialEq, Eq)]
pub struct RoomSummary {
    pub id: String,
    pub name: String,
    pub topic: Option<String>,
    pub unread_notifications: u64,
    pub is_direct: bool,
    /// Origin timestamp of the latest event, in milliseconds since the epoch.
    pub last_activity_ms: Option<u64>,
}

#[derive(Debug, PartialEq, Eq)]
pub struct TimelineMessage {
    pub sender: UserId,
    pub sender_name: String,
    pub body: String,
    /// Origin server timestamp in milliseconds since the epoch.
    pub timestamp_ms: u64,
}

/// A joined member of a room, for the member list.
#[derive(Debug, PartialEq, Eq)]
pub struct MemberInfo {
    pub user_id: UserId,
    pub display_name: String,
    /// True for the logged-in user.
    pub is_me: bool,
}

/// The logged-in user's own identity, for the user panel.
#[derive(Debug, PartialEq, Eq)]
pub struct MyProfile {
    pub user_id: UserId,
    pub display_name: String,
}

/// State of Secure Backup (server-side room-key backup + recovery) for the
/// account, so the UI can show the right controls.
#[derive(Debug, Clone, Copy, PartialEq, Eq, Structural)]
pub enum BackupStatus {
    /// Backup and recovery are set up and this session has the secrets.
    Enabled,
    /// No backup / secret storage configured.
    Disabled,
    /// A backup exists but this session is missing the recovery secrets: the
    /// user should restore with their recovery key.
    Incomplete,
    /// Not determined yet (still syncing).
    Unknown,
}

// ---------------------------------------------------------------------------
// Rooms

/// What the Matrix library knows of a room.
#[derive(Debug, PartialEq, Eq)]
pub struct RoomFacts {
    pub id: String,
    /// Whether we are in it; invitations and rooms that were left are known too.
    pub is_joined: bool,
    pub cached_name: Option<String>,
    pub topic: Option<String>,
    pub unread_notifications: u64,
    /// Whether it is a direct chat; `None` where that could not be told.
    pub is_direct: Option<bool>,
    pub last_activity_ms: Option<u64>,
}

/// The summary of a room: named by its id where it has no name, and not direct
/// unless known to be.
pub open spec fn summary_of(facts: RoomFacts) -> RoomSummary {
    RoomSummary {
        id: facts.id,
        name: match facts.cached_name {
            Some(name) => name,
            None => facts.id,
        },
        topic: facts.topic,
        unread_notifications: facts.unread_notifications,
        is_direct: facts.is_direct == Some(true),
        last_activity_ms: facts.last_activity_ms,
    }
}

/// The summaries of the joined ones of some rooms, in their order.
pub open spec fn joined_summaries(facts: Seq<RoomFacts>) -> Seq<RoomSummary> {
    facts.filter(|f: RoomFacts| f.is_joined).map_values(|f: RoomFacts| summary_of(f))
}

/// The first room in the list with this id.
pub open spec fn room_with(rooms: Seq<RoomSummary>, id: Seq<char>) -> Option<RoomSummary>
    decreases rooms.len(),
{
    if rooms.len() == 0 {
        None
    } else if rooms[0].id@ == id {
        Some(rooms[0])
    } else {
        room_with(rooms.drop_first(), id)
    }
}

/// The first room in the list with this id.
pub fn find_room<'a>(rooms: &'a Vec<RoomSummary>, id: &str) -> (r: Option<&'a RoomSummary>)
    ensures
        match (r, room_with(rooms@, id@)) {
            (Some(found), Some(room)) => *found == room,
            (None, None) => true,
            _ => false,
        },
{
    let mut i: usize = 0;
    proof {
        assert(rooms@.skip(0) =~= rooms@);
    }
    while i < rooms.len()
        invariant
            i <= rooms.len(),
            room_with(rooms@, id@) == room_with(rooms@.skip(i as int), id@),
        decreases rooms.len() - i,
    {
        proof {
            assert(rooms@.skip(i as int)[0] == rooms@[i as int]);
            assert(rooms@.skip(i as int).drop_first() =~= rooms@.skip(i + 1));
        }
        if text::same_text(rooms[i].id.as_str(), id) {
            return Some(&rooms[i]);
        }
        i += 1;
    }
    None
}

/// Activity `a` is more recent than `b`; any activity is more recent than none.
pub open spec fn more_recent(a: Option<u64>, b: Option<u64>) -> bool {
    match (a, b) {
        (Some(x), Some(y)) => x > y,
        (Some(_), None) => true,
        (None, _) => false,
    }
}

impl Ranked for RoomSummary {
    /// Most recently active first; equally recent rooms by name.
    open spec fn before(&self, other: &Self) -> bool {
        ||| more_recent(self.last_activity_ms, other.last_activity_ms)
        ||| self.last_activity_ms == other.last_activity_ms && text::text_before(
            self.name@,
            other.name@,
        )
    }

    proof fn order_is_strict_weak(a: &Self, b: &Self, c: &Self) {
        text::text_order_is_strict_total(a.name@, b.name@, c.name@);
        text::text_order_is_strict_total(b.name@, a.name@, c.name@);
        text::text_order_is_strict_total(a.name@, c.name@, b.name@);
        text::text_order_is_strict_total(b.name@, c.name@, a.name@);
    }

    fn is_before(&self, other: &Self) -> (r: bool) {
        match (self.last_activity_ms, other.last_activity_ms) {
            (Some(x), Some(y)) => if x != y {
                x > y
            } else {
                text::is_text_before(self.name.as_str(), other.name.as_str())
            },
            (Some(_), None) => true,
            (None, Some(_)) => false,
            (None, None) => text::is_text_before(self.name.as_str(), other.name.as_str()),
        }
    }
}

fn summarize(facts: RoomFacts) -> (r: RoomSummary)
    ensures
        r == summary_of(facts),
{
    let name = match facts.cached_name {
        Some(name) => name,
        None => facts.id.clone(),
    };
    let is_direct = match facts.is_direct {
        Some(d) => d,
        None => false,
    };
    RoomSummary {
        id: facts.id,
        name,
        topic: facts.topic,
        unread_notifications: facts.unread_notifications,
        is_direct,
        last_activity_ms: facts.last_activity_ms,
    }
}

// ---------------------------------------------------------------------------
// Members

/// What the Matrix library knows of a joined member.
#[derive(Debug, PartialEq, Eq)]
pub struct MemberFacts {
    pub user_id: UserId,
    pub display_name: Option<String>,
}

/// The name to show for a user: the display name, or else the localpart.
pub open spec fn shown_name(display_name: Option<String>, user_id: UserId) -> Seq<char> {
    match display_name {
        Some(name) => name@,
        None => crate::ids::local_part(user_id@),
    }
}

/// `info` describes the member of `facts`.
pub open spec fn describes(info: MemberInfo, facts: MemberFacts, me: Option<UserId>) -> bool {
    &&& info.user_id == facts.user_id
    &&& info.display_name@ == shown_name(facts.display_name, facts.user_id)
    &&& info.is_me == crate::call::is_user(me, facts.user_id)
}

/// `infos` describes these members, one by one.
pub open spec fn describes_all(
    infos: Seq<MemberInfo>,
    facts: Seq<MemberFacts>,
    me: Option<UserId>,
) -> bool {
    &&& infos.len() == facts.len()
    &&& forall|i: int| 0 <= i < infos.len() ==> describes(#[trigger] infos[i], facts[i], me)
}

/// `list` is the member list of these members, as the logged-in user `me` sees it.
pub open spec fn is_member_list(
    list: Seq<MemberInfo>,
    facts: Seq<MemberFacts>,
    me: Option<UserId>,
) -> bool {
    exists|infos: Seq<MemberInfo>|
        describes_all(infos, facts, me) && #[trigger] crate::order::is_stably_sorted(infos, list)
}

impl Ranked for MemberInfo {
    /// The logged-in user last; otherwise by name without regard to case.
    open spec fn before(&self, other: &Self) -> bool {
        ||| !self.is_me && other.is_me
        ||| self.is_me == other.is_me && text::text_before(
            text::lower_case(self.display_name@),
            text::lower_case(other.display_name@),
        )
    }

    proof fn order_is_strict_weak(a: &Self, b: &Self, c: &Self) {
        let x = text::lower_case(a.display_name@);
        let y = text::lower_case(b.display_name@);
        let z = text::lower_case(c.display_name@);
        text::text_order_is_strict_total(x, y, z);
        text::text_order_is_strict_total(y, x, z);
        text::text_order_is_strict_total(x, z, y);
        text::text_order_is_strict_total(y, z, x);
    }

    fn is_before(&self, other: &Self) -> (r: bool) {
        if self.is_me != other.is_me {
            other.is_me
        } else {
            let x = text::str_to_lowercase(self.display_name.as_str());
            let y = text::str_to_lowercase(other.display_name.as_str());
            text::is_text_before(x.as_str(), y.as_str())
        }
    }
}

/// `profile` is the identity of this user, whose account has this display name.
pub open spec fn is_profile(
    profile: MyProfile,
    user_id: UserId,
    display_name: Option<String>,
) -> bool {
    &&& profile.user_id == user_id
    &&& profile.display_name@ == (match display_name {
        Some(name) if name@.len() > 0 => name@,
        _ => crate::ids::local_part(user_id@),
    })
}

fn name_or_localpart(display_name: Option<String>, user_id: &UserId) -> (r: String)
    ensures
        r@ == shown_name(display_name, *user_id),
{
    match display_name {
        Some(name) => name,
        None => user_id.localpart(),
    }
}

// ---------------------------------------------------------------------------
// Timeline

/// The kind of a room message, with its plain text where it has one.
#[derive(Debug, PartialEq, Eq)]
pub enum MessageType {
    Text(String),
    Notice(String),
    Emote(String),
    VerificationRequest,
    /// An image, a file, a location...
    Other,
}

/// What a [`MessageType`] says.
pub enum MessageText {
    Text(Seq<char>),
    Notice(Seq<char>),
    Emote(Seq<char>),
    VerificationRequest,
    Other,
}

impl View for MessageType {
    type V = MessageText;

    open spec fn view(&self) -> MessageText {
        match self {
            MessageType::Text(body) => MessageText::Text(body@),
            MessageType::Notice(body) => MessageText::Notice(body@),
            MessageType::Emote(body) => MessageText::Emote(body@),
            MessageType::VerificationRequest => MessageText::VerificationRequest,
            MessageType::Other => MessageText::Other,
        }
    }
}

/// Whether a message asks for a verification. Such messages are announced to the
/// frontend.
pub fn is_verification_request(msgtype: &MessageType) -> (r: bool)
    ensures
        r == (*msgtype is VerificationRequest),
{
    match msgtype {
        MessageType::VerificationRequest => true,
        _ => false,
    }
}

/// The plain text of a message, if it has one.
pub open spec fn body_of(msgtype: MessageType) -> Option<String> {
    match msgtype {
        MessageType::Text(body) => Some(body),
        MessageType::Notice(body) => Some(body),
        MessageType::Emote(body) => Some(body),
        _ => None,
    }
}

/// Extracts a plain-text body from a message event, if present.
pub fn plain_body(msgtype: &MessageType) -> (r: Option<&String>)
    ensures
        r == (match body_of(*msgtype) {
            Some(body) => Some(&body),
            None => None,
        }),
{
    match msgtype {
        MessageType::Text(body) => Some(body),
        MessageType::Notice(body) => Some(body),
        MessageType::Emote(body) => Some(body),
        _ => None,
    }
}

/// An event of a room's history.
#[derive(Debug, PartialEq, Eq)]
pub enum RoomEvent {
    /// A message as it was sent.
    Message { sender: UserId, msgtype: MessageType, timestamp_ms: u64 },
    /// Anything else: state, redacted messages, what could not be read.
    Other,
}

/// The message in the JSON text of an event: who sent it, what it says, and when in
/// milliseconds since the epoch. Nothing where the text is no event, or the event no
/// message as it was sent.
pub uninterp spec fn message_in(json: Seq<char>) -> Option<(Seq<char>, MessageText, u64)>;

/// Trusted: `serde_json::from_str` into `AnySyncTimelineEvent` of `matrix_sdk::ruma`.
/// What it finds depends on the text alone and is named [`message_in`]. Whom it finds
/// as the sender is a user id by the same rule as [`UserId::parse`] goes by.
#[verifier::external_body]
fn read_message(json: &str) -> (r: Option<(String, MessageType, u64)>)
    ensures
        (match r {
            Some(m) => Some((m.0@, m.1@, m.2)),
            None => None,
        }) == message_in(json@),
        r matches Some(m) ==> crate::ids::is_user_id(m.0@),
{
    let m = match serde_json::from_str::<AnySyncTimelineEvent>(json).ok()? {
        AnySyncTimelineEvent::MessageLike(
            AnySyncMessageLikeEvent::RoomMessage(SyncMessageLikeEvent::Original(m)),
        ) => m,
        _ => return None,
    };
    let msgtype = match m.content.msgtype {
        RumaMessageType::Text(text) => MessageType::Text(text.body),
        RumaMessageType::Notice(notice) => MessageType::Notice(notice.body),
        RumaMessageType::Emote(emote) => MessageType::Emote(emote.body),
        RumaMessageType::VerificationRequest(_) => MessageType::VerificationRequest,
        _ => MessageType::Other,
    };
    Some((m.sender.to_string(), msgtype, m.origin_server_ts.0.into()))
}

/// `event` is what this JSON text says.
pub open spec fn reads_as(event: RoomEvent, json: Seq<char>) -> bool {
    match message_in(json) {
        Some(m) => {
            &&& event matches RoomEvent::Message { sender, msgtype, timestamp_ms }
            &&& sender@ == m.0
            &&& msgtype@ == m.1
            &&& timestamp_ms == m.2
        },
        None => event is Other,
    }
}

/// Reads an event of a room's history from its JSON text.
pub fn read_event(json: &str) -> (r: RoomEvent)
    ensures
        reads_as(r, json@),
{
    event_of(read_message(json))
}

/// `event` is the one for what was found in a text.
pub open spec fn tells(event: RoomEvent, found: Option<(String, MessageType, u64)>) -> bool {
    match found {
        Some(m) if crate::ids::is_user_id(m.0@) => event matches RoomEvent::Message {
            sender,
            msgtype,
            timestamp_ms,
        } && sender@ == m.0@ && msgtype == m.1 && timestamp_ms == m.2,
        _ => event is Other,
    }
}

/// The event for what was found in a text: a sender by id, a message and a time.
pub fn event_of(found: Option<(String, MessageType, u64)>) -> (r: RoomEvent)
    ensures
        tells(r, found),
{
    match found {
        Some((sender, msgtype, timestamp_ms)) => match UserId::parse(sender.as_str()) {
            Some(sender) => RoomEvent::Message { sender, msgtype, timestamp_ms },
            None => RoomEvent::Other,
        },
        None => RoomEvent::Other,
    }
}

/// A message that is shown: who sent it, what it says and when.
pub struct Shown {
    pub sender: UserId,
    pub body: String,
    pub timestamp_ms: u64,
}

/// What an event shows, if anything.
pub open spec fn shown(event: RoomEvent) -> Option<Shown> {
    match event {
        RoomEvent::Message { sender, msgtype, timestamp_ms } => match body_of(msgtype) {
            Some(body) => Some(Shown { sender, body, timestamp_ms }),
            None => None,
        },
        RoomEvent::Other => None,
    }
}

/// What a run of events shows, in their order.
pub open spec fn all_shown(events: Seq<RoomEvent>) -> Seq<Shown>
    decreases events.len(),
{
    if events.len() == 0 {
        Seq::empty()
    } else {
        match shown(events.last()) {
            Some(s) => all_shown(events.drop_last()).push(s),
            None => all_shown(events.drop_last()),
        }
    }
}

/// The distinct texts of `s`, by first occurrence.
pub open spec fn distinct(s: Seq<Seq<char>>) -> Seq<Seq<char>>
    decreases s.len(),
{
    if s.len() == 0 {
        Seq::empty()
    } else {
        let rest = distinct(s.drop_last());
        if rest.contains(s.last()) {
            rest
        } else {
            rest.push(s.last())
        }
    }
}

/// Who sent the shown messages, in order.
pub open spec fn sender_texts(messages: Seq<Shown>) -> Seq<Seq<char>> {
    messages.map_values(|m: Shown| m.sender@)
}

/// The ids as text.
pub open spec fn id_texts(ids: Seq<UserId>) -> Seq<Seq<char>> {
    ids.map_values(|u: UserId| u@)
}

/// The display name that a lookup table has for a user: that of the first entry
/// for it.
pub open spec fn looked_up(names: Seq<(UserId, Option<String>)>, user: Seq<char>) -> Option<String>
    decreases names.len(),
{
    if names.len() == 0 {
        None
    } else if names[0].0@ == user {
        names[0].1
    } else {
        looked_up(names.drop_first(), user)
    }
}

/// `message` shows `s`, with the sender's name from the table.
pub open spec fn is_message(
    message: TimelineMessage,
    s: Shown,
    names: Seq<(UserId, Option<String>)>,
) -> bool {
    &&& message.sender == s.sender
    &&& message.body == s.body
    &&& message.timestamp_ms == s.timestamp_ms
    &&& message.sender_name@ == shown_name(looked_up(names, s.sender@), s.sender)
}

/// `messages` shows what the events show, last event first.
pub open spec fn shows_backward(
    messages: Seq<TimelineMessage>,
    events: Seq<RoomEvent>,
    names: Seq<(UserId, Option<String>)>,
) -> bool {
    &&& messages.len() == all_shown(events).len()
    &&& forall|i: int|
        0 <= i < messages.len() ==> is_message(
            #[trigger] messages[i],
            all_shown(events)[messages.len() - 1 - i],
            names,
        )
}

fn contains_user(users: &Vec<UserId>, user: &UserId) -> (r: bool)
    ensures
        r == id_texts(users@).contains(user@),
{
    let mut i: usize = 0;
    while i < users.len()
        invariant
            i <= users.len(),
            forall|k: int| 0 <= k < i ==> (#[trigger] users@[k])@ != user@,
        decreases users.len() - i,
    {
        if users[i].same(user) {
            proof {
                assert(id_texts(users@)[i as int] == user@);
            }
            return true;
        }
        i += 1;
    }
    proof {
        if id_texts(users@).contains(user@) {
            let k = choose|k: int| 0 <= k < users@.len() && id_texts(users@)[k] == user@;
            assert(users@[k]@ == user@);
        }
    }
    false
}

/// `ids` are the senders of the messages that these events show, each once.
pub open spec fn are_senders(ids: Seq<UserId>, events: Seq<RoomEvent>) -> bool {
    id_texts(ids) == distinct(sender_texts(all_shown(events)))
}

/// Whose names the timeline of these events needs: the senders of the messages
/// that are shown, each once.
pub fn timeline_senders(events: &Vec<RoomEvent>) -> (r: Vec<UserId>)
    ensures
        are_senders(r@, events@),
{
    let mut senders: Vec<UserId> = Vec::new();
    let mut i: usize = 0;
    proof {
        assert(sender_texts(all_shown(events@.take(0))) =~= Seq::empty());
        assert(id_texts(senders@) =~= Seq::empty());
    }
    while i < events.len()
        invariant
            i <= events.len(),
            id_texts(senders@) =~= distinct(sender_texts(all_shown(events@.take(i as int)))),
        decreases events.len() - i,
    {
        let ghost before = all_shown(events@.take(i as int));
        proof {
            assert(events@.take(i + 1).drop_last() =~= events@.take(i as int));
        }
        if let RoomEvent::Message { sender, msgtype, timestamp_ms } = &events[i] {
            if let Some(body) = plain_body(msgtype) {
                proof {
                    let s = Shown {
                        sender: *sender,
                        body: *body,
                        timestamp_ms: *timestamp_ms,
                    };
                    assert(all_shown(events@.take(i + 1)) =~= before.push(s));
                    assert(sender_texts(before.push(s)).drop_last() =~= sender_texts(before));
                    assert(sender_texts(before.push(s)).last() == sender@);
                }
                if !contains_user(&senders, sender) {
                    let ghost ids = senders@;
                    senders.push(sender.clone());
                    proof {
                        assert(id_texts(senders@) =~= id_texts(ids).push(sender@));
                    }
                }
            }
        }
        i += 1;
    }
    proof {
        assert(events@.take(i as int) =~= events@);
    }
    senders
}

fn look_up(names: &Vec<(UserId, Option<String>)>, user: &UserId) -> (r: Option<String>)
    ensures
        r == looked_up(names@, user@),
{
    let mut i: usize = 0;
    proof {
        assert(names@.skip(0) =~= names@);
    }
    while i < names.len()
        invariant
            i <= names.len(),
            looked_up(names@, user@) == looked_up(names@.skip(i as int), user@),
        decreases names.len() - i,
    {
        proof {
            assert(names@.skip(i as int).drop_first() =~= names@.skip(i + 1));
        }
        if names[i].0.same(user) {
            return names[i].1.clone();
        }
        i += 1;
    }
    None
}

// ---------------------------------------------------------------------------
// Backup, updates, verification

/// The state of recovery that the Matrix library reports.
#[derive(Debug, Clone, Copy, PartialEq, Eq, Structural)]
pub enum RecoveryState {
    Enabled,
    Disabled,
    Incomplete,
    Unknown,
}

/// What setting up Secure Backup comes to.
#[derive(Debug, PartialEq, Eq)]
pub enum BackupSetup {
    /// It is enabled, with this recovery key.
    Enabled(String),
    /// A stale backup is in the way: reset the recovery key.
    ResetKey,
}

/// What arrived on the channel of room updates.
#[derive(Debug, PartialEq, Eq)]
pub enum RoomUpdates {
    /// These rooms changed.
    Changed(Vec<String>),
    /// Some updates were missed.
    Lagged,
    /// There will be no more.
    Closed,
}

/// What forwarding room updates does next.
#[derive(Debug, PartialEq, Eq)]
pub enum ForwardStep {
    /// Hand this to the frontend, and stop if it is no longer listening.
    Send(MeshUpdate),
    /// Wait for more.
    Continue,
    Stop,
}

/// What a request to cancel a verification is sent to.
#[derive(Debug, Clone, Copy, PartialEq, Eq, Structural)]
pub enum CancelTarget {
    /// The emoji comparison that is under way.
    Sas,
    /// The request that was not yet taken up.
    Request,
    Nothing,
}

/// The backup status that a state of recovery stands for.
pub open spec fn status_of(state: RecoveryState) -> BackupStatus {
    match state {
        RecoveryState::Enabled => BackupStatus::Enabled,
        RecoveryState::Disabled => BackupStatus::Disabled,
        RecoveryState::Incomplete => BackupStatus::Incomplete,
        RecoveryState::Unknown => BackupStatus::Unknown,
    }
}

/// What an attempt to enable Secure Backup comes to.
pub open spec fn setup_of(enabled: Result<String, String>) -> BackupSetup {
    match enabled {
        Ok(key) => BackupSetup::Enabled(key),
        Err(_) => BackupSetup::ResetKey,
    }
}

/// Secure Backup has to be enabled.
pub open spec fn needs_backup(status: BackupStatus) -> bool {
    status != BackupStatus::Enabled
}

/// What is done with what arrived on the channel of room updates.
pub open spec fn forwarded(received: RoomUpdates) -> ForwardStep {
    match received {
        RoomUpdates::Changed(ids) => ForwardStep::Send(MeshUpdate::RoomsChanged(ids)),
        RoomUpdates::Lagged => ForwardStep::Continue,
        RoomUpdates::Closed => ForwardStep::Stop,
    }
}

/// What of a verification there is to cancel.
pub open spec fn to_cancel(has_sas: bool, has_request: bool) -> CancelTarget {
    if has_sas {
        CancelTarget::Sas
    } else if has_request {
        CancelTarget::Request
    } else {
        CancelTarget::Nothing
    }
}

impl MeshClient {
    pub open spec fn wf(&self) -> bool {
        &&& self.call.wf()
        &&& self.call.me == self.user_id
    }

    /// A client that was opened.
    pub fn new(user_id: Option<UserId>, data_dir: Location) -> (r: Self)
        ensures
            r.wf(),
            r.user_id == user_id && r.data_dir == data_dir && r.call.active is None,
            r.call.input_device is None && r.call.output_device is None,
    {
        let me = user_id.clone();
        MeshClient { user_id, data_dir, call: CallEngine::new(me) }
    }

    /// Starts logging in with a password; the resulting session is going to be kept
    /// under `data_dir`.
    pub fn login_with_password(
        homeserver_url: &str,
        user: &str,
        password: &str,
        data_dir: Location,
    ) -> (r: (Opening, OpenAction))
        ensures
            crate::session::login_post(homeserver_url@, user@, password@, data_dir, r),
    {
        let dir = data_dir.clone();
        (
            Opening {
                homeserver: homeserver_url.to_owned(),
                data_dir,
                stage: OpenStage::CreatingDir { user: user.to_owned(), password: password.to_owned() },
            },
            OpenAction::CreateDir(dir),
        )
    }

    /// Starts restoring the session of `file`, the session file of `data_dir`.
    pub fn restore(data_dir: Location, file: StoredFile) -> (r: MeshResult<(Opening, OpenAction)>)
        ensures
            crate::session::restore_post(data_dir, file, r),
    {
        let store = SessionStore::new(&data_dir);
        match store.load(file) {
            Err(e) => Err(e),
            Ok(None) => Err(MeshError::NoSession),
            Ok(Some(session)) => {
                let homeserver = session.homeserver.clone();
                let action = OpenAction::BuildClient {
                    homeserver: homeserver.clone(),
                    store: data_dir.clone().join("store"),
                };
                Ok(
                    (
                        Opening {
                            homeserver,
                            data_dir,
                            stage: OpenStage::BuildingForRestore(session.into_matrix_session()),
                        },
                        action,
                    ),
                )
            },
        }
    }

    /// Whether there is a session to restore.
    pub fn has_saved_session(data_dir: &Location, file: StoredFile) -> (r: bool)
        ensures
            r == crate::session::holds_session(file),
    {
        match SessionStore::new(data_dir).load(file) {
            Ok(Some(_)) => true,
            _ => false,
        }
    }

    /// Joined rooms, most recently active first.
    pub fn rooms(facts: Vec<RoomFacts>) -> (r: Vec<RoomSummary>)
        ensures
            crate::order::is_stably_sorted(joined_summaries(facts@), r@),
    {
        let ghost given = facts@;
        let mut summaries: Vec<RoomSummary> = Vec::new();
        proof {
            reveal(Seq::filter);
            assert(given.take(0) =~= Seq::empty());
            assert(joined_summaries(given.take(0)) =~= Seq::empty());
        }
        for f in it: facts
            invariant
                it.seq() == given,
                summaries@ == joined_summaries(given.take(it.index() as int)),
        {
            let ghost before = given.take(it.index() as int);
            proof {
                reveal(Seq::filter);
                let taken = given.take(it.index() + 1);
                assert(taken.drop_last() =~= before);
                assert(taken.last() == f);
            }
            if f.is_joined {
                summaries.push(summarize(f));
                assert(summaries@ =~= joined_summaries(given.take(it.index() + 1)));
            }
        }
        proof {
            assert(given.take(given.len() as int) =~= given);
        }
        crate::order::stable_sort(summaries)
    }

    /// Joined members of a room, for the member list (self last). `members` is
    /// `None` where the room is unknown or its members could not be fetched, and `me`
    /// the logged-in user.
    pub fn room_members(me: &Option<UserId>, members: Option<Vec<MemberFacts>>) -> (r: Vec<
        MemberInfo,
    >)
        ensures
            match members {
                None => r@.len() == 0,
                Some(facts) => is_member_list(r@, facts@, *me),
            },
    {
        let mut infos: Vec<MemberInfo> = Vec::new();
        let facts = match members {
            None => return infos,
            Some(facts) => facts,
        };
        let mut i: usize = 0;
        while i < facts.len()
            invariant
                i <= facts.len(),
                infos.len() == i,
                forall|k: int|
                    0 <= k < i ==> describes(#[trigger] infos@[k], facts@[k], *me),
            decreases facts.len() - i,
        {
            let m = &facts[i];
            let is_me = match me {
                Some(me) => me.same(&m.user_id),
                None => false,
            };
            infos.push(
                MemberInfo {
                    display_name: name_or_localpart(m.display_name.clone(), &m.user_id),
                    is_me,
                    user_id: m.user_id.clone(),
                },
            );
            i += 1;
        }
        proof {
            assert(describes_all(infos@, facts@, *me));
        }
        crate::order::stable_sort(infos)
    }

    /// The logged-in user's identity; the name falls back to the localpart where
    /// the account has no display name or an empty one.
    pub fn my_profile(user_id: UserId, display_name: Option<String>) -> (r: MyProfile)
        ensures
            is_profile(r, user_id, display_name),
    {
        let display_name = match display_name {
            Some(name) => if name.as_str().is_empty() {
                user_id.localpart()
            } else {
                name
            },
            None => user_id.localpart(),
        };
        MyProfile { user_id, display_name }
    }

    /// The messages among a room's latest events, oldest first; none of a room that is
    /// not known. The events come newest first; `names` holds the display names of
    /// [`timeline_senders`].
    pub fn timeline(
        events: Option<&Vec<RoomEvent>>,
        names: &Vec<(UserId, Option<String>)>,
    ) -> (r: Vec<TimelineMessage>)
        ensures
            match events {
                Some(events) => shows_backward(r@, events@, names@),
                None => r@.len() == 0,
            },
    {
        let mut out: Vec<TimelineMessage> = Vec::new();
        let events = match events {
            Some(events) => events,
            None => return out,
        };
        let mut left: usize = events.len();
        proof {
            assert(events@.take(left as int) =~= events@);
        }
        while left > 0
            invariant
                left <= events.len(),
                all_shown(events@.take(left as int)).len() + out.len() == all_shown(events@).len(),
                all_shown(events@.take(left as int)) =~= all_shown(events@).take(
                    all_shown(events@.take(left as int)).len() as int,
                ),
                forall|i: int|
                    0 <= i < out.len() ==> is_message(
                        #[trigger] out@[i],
                        all_shown(events@)[all_shown(events@).len() - 1 - i],
                        names@,
                    ),
            decreases left,
        {
            let ghost here = all_shown(events@.take(left as int));
            left -= 1;
            proof {
                assert(events@.take(left + 1).drop_last() =~= events@.take(left as int));
                assert(events@.take(left + 1).last() == events@[left as int]);
            }
            if let RoomEvent::Message { sender, msgtype, timestamp_ms } = &events[left] {
                if let Some(body) = plain_body(msgtype) {
                    let known = look_up(names, sender);
                    let message = TimelineMessage {
                        sender_name: name_or_localpart(known, sender),
                        sender: sender.clone(),
                        body: body.clone(),
                        timestamp_ms: *timestamp_ms,
                    };
                    proof {
                        let s = shown(events@[left as int])->0;
                        assert(here.last() == s);
                        assert(here.last() == all_shown(events@)[here.len() - 1]);
                        assert(is_message(message, s, names@));
                    }
                    out.push(message);
                }
            }
        }
        out
    }

    /// Current Secure Backup state.
    pub fn backup_status(state: RecoveryState) -> (r: BackupStatus)
        ensures
            r == status_of(state),
    {
        match state {
            RecoveryState::Enabled => BackupStatus::Enabled,
            RecoveryState::Disabled => BackupStatus::Disabled,
            RecoveryState::Incomplete => BackupStatus::Incomplete,
            RecoveryState::Unknown => BackupStatus::Unknown,
        }
    }

    /// After an attempt to enable Secure Backup: its recovery key, or else the
    /// key is reset, since a stale backup exists that we cannot connect to.
    pub fn enable_secure_backup(enabled: Result<String, String>) -> (r: BackupSetup)
        ensures
            r == setup_of(enabled),
    {
        match enabled {
            Ok(key) => BackupSetup::Enabled(key),
            Err(_) => BackupSetup::ResetKey,
        }
    }

    /// Whether Secure Backup has to be enabled so that keys persist going forward: it
    /// has to unless it is.
    pub fn ensure_secure_backup(status: BackupStatus) -> (r: bool)
        ensures
            r == needs_backup(status),
    {
        status != BackupStatus::Enabled
    }

    /// The recovery key to restore with: what was typed, without the white
    /// space around it.
    pub fn restore_secure_backup(recovery_key: &str) -> (r: String)
        ensures
            text::is_trim_of(r@, recovery_key@),
    {
        text::trim(recovery_key)
    }

    /// Forwards room updates to the frontend: changes are passed on, missed
    /// updates are skipped, and the end of the channel ends the forwarding.
    pub fn forward_room_updates(received: RoomUpdates) -> (r: ForwardStep)
        ensures
            r == forwarded(received),
    {
        match received {
            RoomUpdates::Changed(ids) => ForwardStep::Send(MeshUpdate::RoomsChanged(ids)),
            RoomUpdates::Lagged => ForwardStep::Continue,
            RoomUpdates::Closed => ForwardStep::Stop,
        }
    }

    /// Cancels a verification flow at whatever stage it is in: the emoji
    /// comparison if there is one, else the request.
    pub fn cancel_verification(has_sas: bool, has_request: bool) -> (r: CancelTarget)
        ensures
            r == to_cancel(has_sas, has_request),
    {
        if has_sas {
            CancelTarget::Sas
        } else if has_request {
            CancelTarget::Request
        } else {
            CancelTarget::Nothing
        }
    }

    /// The outcome of forgetting the session that is saved in `data_dir`.
    pub fn logout_locally(data_dir: &Location, outcome: ClearOutcome) -> (r: MeshResult<()>)
        ensures
            r == crate::session::cleared(outcome),
    {
        SessionStore::new(data_dir).clear(outcome)
    }

    /// The message that a text composed as Markdown is sent as.
    pub fn send_message(body: &str) -> (r: OutgoingMessage)
        ensures
            composes(r, body@),
    {
        OutgoingMessage { body: body.to_owned(), html: render_markdown(body) }
    }

    /// Places a 1:1 voice call to the other member of a room.
    pub fn place_call(&self, room_id: String) -> (r: Result<(Negotiation, CallAction), String>)
        requires
            self.wf(),
        ensures
            exists|call_id: String, party_id: String|
                #[trigger] self.call.place_post(room_id, call_id, party_id, r),
    {
        self.call.place_call(room_id)
    }

    /// Accepts the currently-ringing incoming call.
    pub fn accept_call(&self) -> (r: Result<(Negotiation, CallAction), String>)
        requires
            self.wf(),
        ensures
            self.call.accept_post(r),
    {
        self.call.accept_call()
    }

    /// Hangs up or rejects the current call.
    pub fn hangup(&mut self) -> (r: Option<LocalHangup>)
        requires
            old(self).wf(),
        ensures
            final(self).wf(),
            *final(self) == (MeshClient {
                call: CallEngine { active: None, ..old(self).call },
                ..*old(self)
            }),
            CallEngine::hangup_post(old(self).call.active, r),
    {
        self.call.hangup()
    }

    /// Mutes or unmutes the local microphone for the current call.
    pub fn set_call_muted(&mut self, muted: bool)
        requires
            old(self).wf(),
        ensures
            final(self).wf(),
            *final(self) == (MeshClient { call: old(self).call.muted(muted), ..*old(self) }),
    {
        self.call.set_muted(muted);
    }

    /// Deafens or undeafens: silences the remote audio (and mutes the mic too, as
    /// clients like Discord do).
    pub fn set_call_deafened(&mut self, deafened: bool)
        requires
            old(self).wf(),
        ensures
            final(self).wf(),
            *final(self) == (MeshClient { call: old(self).call.deafened(deafened), ..*old(self) }),
    {
        self.call.set_deafened(deafened);
    }

    /// Chooses the microphone and the speaker for coming calls; `None` is the
    /// system default.
    pub fn set_audio_devices(&mut self, input: Option<String>, output: Option<String>)
        requires
            old(self).wf(),
        ensures
            final(self).wf(),
            *final(self) == (MeshClient {
                call: old(self).call.with_devices(input, output),
                ..*old(self)
            }),
    {
        self.call.set_audio_devices(input, output);
    }
}

// ---------------------------------------------------------------------------
// Sending

/// A text message to send: as it was composed, and as HTML where it holds any
/// Markdown.
#[derive(Debug, PartialEq, Eq)]
pub struct OutgoingMessage {
    pub body: String,
    pub html: Option<String>,
}

/// `message` is what this text is sent as.
pub open spec fn composes(message: OutgoingMessage, body: Seq<char>) -> bool {
    message.body@ == body && text::opt_text(message.html) == markdown_html(body)
}

/// What a text composed as Markdown is in HTML; nothing where it holds no
/// formatting.
pub uninterp spec fn markdown_html(body: Seq<char>) -> Option<Seq<char>>;

/// Trusted: `FormattedBody::markdown` of `matrix_sdk::ruma`. The HTML depends on
/// the text alone and is named [`markdown_html`].
#[verifier::external_body]
fn render_markdown(body: &str) -> (r: Option<String>)
    ensures
        text::opt_text(r) == markdown_html(body@),
{
    matrix_sdk::ruma::events::room::message::FormattedBody::markdown(body).map(|f| f.body)
}

// ---------------------------------------------------------------------------
// Laws

/// The room list holds the joined rooms, each once, and no room stands above one
/// that was active more recently.
pub proof fn rooms_come_most_recent_first(facts: Seq<RoomFacts>, rooms: Seq<RoomSummary>)
    requires
        crate::order::is_stably_sorted(joined_summaries(facts), rooms),
    ensures
        rooms.to_multiset() == joined_summaries(facts).to_multiset(),
        forall|i: int, j: int|
            0 <= i < j < rooms.len() ==> !more_recent(
                (#[trigger] rooms[j]).last_activity_ms,
                (#[trigger] rooms[i]).last_activity_ms,
            ),
{
    let summaries = joined_summaries(facts);
    crate::order::stable_sort_keeps_items(summaries, rooms);
    crate::order::stable_sort_sorts(summaries, rooms);
    assert forall|i: int, j: int| 0 <= i < j < rooms.len() implies !more_recent(
        (#[trigger] rooms[j]).last_activity_ms,
        (#[trigger] rooms[i]).last_activity_ms,
    ) by {
        assert(!rooms[j].before(&rooms[i]));
    }
}

/// In the member list the logged-in user comes last.
pub proof fn the_user_comes_last(
    facts: Seq<MemberFacts>,
    me: Option<UserId>,
    infos: Seq<MemberInfo>,
    members: Seq<MemberInfo>,
    i: int,
    j: int,
)
    requires
        describes_all(infos, facts, me),
        crate::order::is_stably_sorted(infos, members),
        0 <= i < j < members.len(),
        members[i].is_me,
    ensures
        members[j].is_me,
{
    crate::order::stable_sort_sorts(infos, members);
    assert(!members[j].before(&members[i]));
}

/// Fetched newest first, a timeline comes out oldest first.
pub proof fn the_timeline_is_oldest_first(
    events: Seq<RoomEvent>,
    names: Seq<(UserId, Option<String>)>,
    messages: Seq<TimelineMessage>,
)
    requires
        shows_backward(messages, events, names),
        forall|i: int, j: int|
            0 <= i < j < all_shown(events).len() ==> (#[trigger] all_shown(events)[i]).timestamp_ms
                >= (#[trigger] all_shown(events)[j]).timestamp_ms,
    ensures
        forall|i: int, j: int|
            0 <= i < j < messages.len() ==> (#[trigger] messages[i]).timestamp_ms <= (
            #[trigger] messages[j]).timestamp_ms,
{
    assert forall|i: int, j: int| 0 <= i < j < messages.len() implies (
    #[trigger] messages[i]).timestamp_ms <= (#[trigger] messages[j]).timestamp_ms by {
        let n = messages.len();
        assert(is_message(messages[i], all_shown(events)[n - 1 - i], names));
        assert(is_message(messages[j], all_shown(events)[n - 1 - j], names));
    }
}

/// Throughout a timeline a sender goes by one name.
pub proof fn a_sender_has_one_name(
    events: Seq<RoomEvent>,
    names: Seq<(UserId, Option<String>)>,
    messages: Seq<TimelineMessage>,
    i: int,
    j: int,
)
    requires
        shows_backward(messages, events, names),
        0 <= i < messages.len(),
        0 <= j < messages.len(),
        messages[i].sender@ == messages[j].sender@,
    ensures
        messages[i].sender_name@ == messages[j].sender_name@,
{
}

/// `room` is listed with what is known of it: its id, topic, unread notifications and
/// latest activity; by its name, or its id where it has none; as a direct chat exactly
/// if it is known to be one.
pub open spec fn lists_room(room: RoomSummary, facts: RoomFacts) -> bool {
    &&& room.id == facts.id
    &&& room.topic == facts.topic
    &&& room.unread_notifications == facts.unread_notifications
    &&& room.last_activity_ms == facts.last_activity_ms
    &&& facts.cached_name matches Some(name) ==> room.name == name
    &&& facts.cached_name is None ==> room.name == facts.id
    &&& room.is_direct <==> (facts.is_direct matches Some(direct) && direct)
}

/// Every joined room is in the list, with its id and with the number of unread
/// notifications, the topic, the name and the activity that are known of it.
pub proof fn every_joined_room_is_listed(
    facts: Seq<RoomFacts>,
    rooms: Seq<RoomSummary>,
    i: int,
)
    requires
        crate::order::is_stably_sorted(joined_summaries(facts), rooms),
        0 <= i < facts.len(),
        facts[i].is_joined,
    ensures
        exists|k: int|
            0 <= k < rooms.len() && lists_room(#[trigger] rooms[k], facts[i]) && rooms[k].id
                == facts[i].id && rooms[k].unread_notifications == facts[i].unread_notifications
                && rooms[k].topic == facts[i].topic,
{
    broadcast use vstd::seq_lib::group_to_multiset_ensures;

    let joined = |f: RoomFacts| f.is_joined;
    let kept = facts.filter(joined);
    let summaries = joined_summaries(facts);
    facts.lemma_filter_contains(joined, i);
    let j = choose|j: int| 0 <= j < kept.len() && kept[j] == facts[i];
    crate::order::stable_sort_keeps_items(summaries, rooms);
    assert(summaries[j] == summary_of(facts[i]));
    assert(summaries.contains(summaries[j]));
    assert(rooms.to_multiset().count(summaries[j]) > 0);
    assert(rooms.contains(summaries[j]));
    let k = choose|k: int| 0 <= k < rooms.len() && rooms[k] == summaries[j];
    assert(lists_room(rooms[k], facts[i]));
}

/// Nothing else is in the list: every entry is that of a joined room.
pub proof fn only_joined_rooms_are_listed(facts: Seq<RoomFacts>, rooms: Seq<RoomSummary>, k: int)
    requires
        crate::order::is_stably_sorted(joined_summaries(facts), rooms),
        0 <= k < rooms.len(),
    ensures
        exists|i: int|
            0 <= i < facts.len() && (#[trigger] facts[i]).is_joined && lists_room(
                rooms[k],
                facts[i],
            ),
        rooms.len() == facts.filter(|f: RoomFacts| f.is_joined).len(),
{
    broadcast use vstd::seq_lib::group_to_multiset_ensures;

    let joined = |f: RoomFacts| f.is_joined;
    let kept = facts.filter(joined);
    let summaries = joined_summaries(facts);
    crate::order::stable_sort_keeps_items(summaries, rooms);
    assert(rooms.contains(rooms[k]));
    assert(summaries.to_multiset().count(rooms[k]) > 0);
    assert(summaries.contains(rooms[k]));
    let j = choose|j: int| 0 <= j < summaries.len() && summaries[j] == rooms[k];
    facts.lemma_filter_pred(joined, j);
    assert(kept.contains(kept[j]));
    facts.lemma_filter_contains_rev(joined, kept[j]);
    let i = choose|i: int| 0 <= i < facts.len() && facts[i] == kept[j];
    assert(facts[i].is_joined && lists_room(rooms[k], facts[i]));
    assert(rooms.len() == rooms.to_multiset().len());
    assert(summaries.len() == summaries.to_multiset().len());
}

/// A room stands above another only if it was not active longer ago; rooms without
/// activity stand at the end, and equally recent ones by name.
pub proof fn recent_rooms_stand_above(
    facts: Seq<RoomFacts>,
    rooms: Seq<RoomSummary>,
    i: int,
    j: int,
)
    requires
        crate::order::is_stably_sorted(joined_summaries(facts), rooms),
        0 <= i < j < rooms.len(),
    ensures
        rooms[j].last_activity_ms matches Some(below) ==> (rooms[i].last_activity_ms matches Some(
            above,
        ) && above >= below),
        rooms[i].last_activity_ms == rooms[j].last_activity_ms ==> !text::text_before(
            rooms[j].name@,
            rooms[i].name@,
        ),
{
    crate::order::stable_sort_sorts(joined_summaries(facts), rooms);
    assert(!rooms[j].before(&rooms[i]));
}

/// A room is found by its id: what is found stands in the list under that id, nothing
/// before it does, and only an id that no room has is not found.
pub proof fn a_room_is_found_by_its_id(rooms: Seq<RoomSummary>, id: Seq<char>)
    ensures
        room_with(rooms, id) matches Some(room) ==> room.id@ == id && rooms.contains(room),
        room_with(rooms, id) is None <==> forall|i: int|
            0 <= i < rooms.len() ==> (#[trigger] rooms[i]).id@ != id,
    decreases rooms.len(),
{
    if rooms.len() > 0 {
        let rest = rooms.drop_first();
        a_room_is_found_by_its_id(rest, id);
        assert forall|i: int| 0 <= i < rest.len() implies #[trigger] rest[i] == rooms[i + 1] by {}
        if rooms[0].id@ == id {
            assert(rooms.contains(rooms[0]));
        } else if let Some(room) = room_with(rest, id) {
            let k = choose|k: int| 0 <= k < rest.len() && rest[k] == room;
            assert(rooms[k + 1] == room);
        } else {
            assert forall|i: int| 0 <= i < rooms.len() implies (#[trigger] rooms[i]).id@ != id by {
                if i > 0 {
                    assert(rest[i - 1] == rooms[i]);
                }
            }
        }
        if forall|i: int| 0 <= i < rooms.len() ==> (#[trigger] rooms[i]).id@ != id {
            assert(rooms[0].id@ != id);
            assert forall|i: int| 0 <= i < rest.len() implies (#[trigger] rest[i]).id@ != id by {
                assert(rest[i] == rooms[i + 1]);
            }
        }
    }
}

/// Of several rooms under one id the first is found.
pub proof fn the_first_room_is_found(rooms: Seq<RoomSummary>, i: int)
    requires
        0 <= i < rooms.len(),
        forall|k: int| 0 <= k < i ==> (#[trigger] rooms[k]).id@ != rooms[i].id@,
    ensures
        room_with(rooms, rooms[i].id@) == Some(rooms[i]),
    decreases i,
{
    if i > 0 {
        let rest = rooms.drop_first();
        assert(rooms[0].id@ != rooms[i].id@);
        assert forall|k: int| 0 <= k < i - 1 implies (#[trigger] rest[k]).id@ != rest[i - 1].id@ by {
            assert(rest[k] == rooms[k + 1]);
        }
        the_first_room_is_found(rest, i - 1);
    }
}

/// `info` shows this member: under the display name, or else the localpart, and marked
/// exactly if it is the logged-in user.
pub open spec fn shows_member(info: MemberInfo, facts: MemberFacts, me: Option<UserId>) -> bool {
    &&& info.user_id == facts.user_id
    &&& facts.display_name matches Some(name) ==> info.display_name@ == name@
    &&& facts.display_name is None ==> info.display_name@ == crate::ids::local_part(
        facts.user_id@,
    )
    &&& info.is_me <==> (me matches Some(m) && m@ == facts.user_id@)
}

/// Every member is in the member list, under the name to show, and there are as many
/// entries as members.
pub proof fn every_member_is_listed(
    facts: Seq<MemberFacts>,
    me: Option<UserId>,
    list: Seq<MemberInfo>,
    i: int,
)
    requires
        is_member_list(list, facts, me),
        0 <= i < facts.len(),
    ensures
        exists|k: int| 0 <= k < list.len() && shows_member(#[trigger] list[k], facts[i], me),
        list.len() == facts.len(),
{
    broadcast use vstd::seq_lib::group_to_multiset_ensures;

    let infos = choose|infos: Seq<MemberInfo>|
        describes_all(infos, facts, me) && #[trigger] crate::order::is_stably_sorted(infos, list);
    crate::order::stable_sort_keeps_items(infos, list);
    assert(describes(infos[i], facts[i], me));
    assert(infos.contains(infos[i]));
    assert(list.to_multiset().count(infos[i]) > 0);
    assert(list.contains(infos[i]));
    let k = choose|k: int| 0 <= k < list.len() && list[k] == infos[i];
    assert(shows_member(list[k], facts[i], me));
    assert(list.len() == list.to_multiset().len());
    assert(infos.len() == infos.to_multiset().len());
}

/// Nobody else is in the member list.
pub proof fn only_members_are_listed(
    facts: Seq<MemberFacts>,
    me: Option<UserId>,
    list: Seq<MemberInfo>,
    k: int,
)
    requires
        is_member_list(list, facts, me),
        0 <= k < list.len(),
    ensures
        exists|i: int| 0 <= i < facts.len() && shows_member(list[k], #[trigger] facts[i], me),
{
    broadcast use vstd::seq_lib::group_to_multiset_ensures;

    let infos = choose|infos: Seq<MemberInfo>|
        describes_all(infos, facts, me) && #[trigger] crate::order::is_stably_sorted(infos, list);
    crate::order::stable_sort_keeps_items(infos, list);
    assert(list.contains(list[k]));
    assert(infos.to_multiset().count(list[k]) > 0);
    assert(infos.contains(list[k]));
    let i = choose|i: int| 0 <= i < infos.len() && infos[i] == list[k];
    assert(describes(infos[i], facts[i], me));
    assert(shows_member(list[k], facts[i], me));
}

/// The member list goes by name, whatever the case, with the logged-in user at the end.
pub proof fn members_go_by_name(
    facts: Seq<MemberFacts>,
    me: Option<UserId>,
    list: Seq<MemberInfo>,
    i: int,
    j: int,
)
    requires
        is_member_list(list, facts, me),
        0 <= i < j < list.len(),
    ensures
        list[i].is_me ==> list[j].is_me,
        list[i].is_me == list[j].is_me ==> !text::text_before(
            text::lower_case(list[j].display_name@),
            text::lower_case(list[i].display_name@),
        ),
{
    let infos = choose|infos: Seq<MemberInfo>|
        describes_all(infos, facts, me) && #[trigger] crate::order::is_stably_sorted(infos, list);
    crate::order::stable_sort_sorts(infos, list);
    assert(!list[j].before(&list[i]));
}

/// The user goes by the display name of the account, and by the localpart where there is
/// none or an empty one.
pub proof fn the_user_goes_by_the_display_name(
    profile: MyProfile,
    user_id: UserId,
    display_name: Option<String>,
)
    requires
        is_profile(profile, user_id, display_name),
    ensures
        profile.user_id == user_id,
        display_name matches Some(name) && name@.len() > 0 ==> text::opt_text(display_name) == Some(
            profile.display_name@,
        ),
        (display_name matches Some(name) ==> name@.len() == 0) ==> profile.display_name@
            == crate::ids::local_part(user_id@),
{
}

/// What was found in the JSON text of an event is what the event says: the sender, the
/// text under its kind, and the time.
pub proof fn an_event_says_what_its_text_holds(
    event: RoomEvent,
    json: Seq<char>,
    id: Seq<char>,
    body: Seq<char>,
    at: u64,
)
    requires
        reads_as(event, json),
    ensures
        message_in(json) is None <==> event is Other,
        message_in(json) == Some((id, MessageText::Text(body), at)) ==> (event
            matches RoomEvent::Message { sender, msgtype, timestamp_ms } && sender@ == id
            && timestamp_ms == at && (msgtype matches MessageType::Text(b) && b@ == body)),
        message_in(json) == Some((id, MessageText::Notice(body), at)) ==> (event
            matches RoomEvent::Message { sender, msgtype, timestamp_ms } && sender@ == id
            && timestamp_ms == at && (msgtype matches MessageType::Notice(b) && b@ == body)),
        message_in(json) == Some((id, MessageText::Emote(body), at)) ==> (event
            matches RoomEvent::Message { sender, msgtype, timestamp_ms } && sender@ == id
            && timestamp_ms == at && (msgtype matches MessageType::Emote(b) && b@ == body)),
        message_in(json) == Some((id, MessageText::VerificationRequest, at)) ==> (event
            matches RoomEvent::Message { sender, msgtype, .. } && sender@ == id && msgtype
            == MessageType::VerificationRequest),
{
}

/// An event is a message exactly if one was found whose sender is a user; it keeps the
/// message and the time.
pub proof fn an_event_keeps_what_was_found(
    event: RoomEvent,
    found: Option<(String, MessageType, u64)>,
)
    requires
        tells(event, found),
    ensures
        event is Message <==> (found matches Some(m) && crate::ids::is_user_id(m.0@)),
        event matches RoomEvent::Message { sender, msgtype, timestamp_ms } ==> (found matches Some(
            m,
        ) && sender@ == m.0@ && msgtype == m.1 && timestamp_ms == m.2),
{
}

/// Both messages say the same.
pub open spec fn same_message(a: TimelineMessage, b: TimelineMessage) -> bool {
    a.sender == b.sender && a.sender_name@ == b.sender_name@ && a.body == b.body && a.timestamp_ms
        == b.timestamp_ms
}

/// A text, a notice or an emote is shown with its sender, text and time. Fetched one
/// event further back, a timeline has that message in front and is otherwise the same.
pub proof fn an_older_message_comes_in_front(
    events: Seq<RoomEvent>,
    names: Seq<(UserId, Option<String>)>,
    short: Seq<TimelineMessage>,
    long: Seq<TimelineMessage>,
    by: UserId,
    kind: MessageType,
    said: String,
    at: u64,
)
    requires
        shows_backward(short, events, names),
        shows_backward(
            long,
            events.push(RoomEvent::Message { sender: by, msgtype: kind, timestamp_ms: at }),
            names,
        ),
        kind == MessageType::Text(said) || kind == MessageType::Notice(said) || kind
            == MessageType::Emote(said),
    ensures
        long.len() == short.len() + 1,
        long[0].sender == by && long[0].body == said && long[0].timestamp_ms == at,
        forall|i: int| 0 <= i < short.len() ==> same_message(#[trigger] short[i], long[i + 1]),
{
    let e = RoomEvent::Message { sender: by, msgtype: kind, timestamp_ms: at };
    let all = all_shown(events.push(e));
    assert(events.push(e).drop_last() =~= events);
    assert(all =~= all_shown(events).push(shown(e)->0));
    assert(is_message(long[0], all[long.len() - 1], names));
    assert forall|i: int| 0 <= i < short.len() implies same_message(
        #[trigger] short[i],
        long[i + 1],
    ) by {
        assert(is_message(short[i], all_shown(events)[short.len() - 1 - i], names));
        assert(is_message(long[i + 1], all[long.len() - 1 - (i + 1)], names));
    }
}

/// What is no text, notice or emote is not shown: a timeline is the same without it.
pub proof fn what_is_no_text_is_not_shown(
    events: Seq<RoomEvent>,
    names: Seq<(UserId, Option<String>)>,
    short: Seq<TimelineMessage>,
    long: Seq<TimelineMessage>,
    e: RoomEvent,
)
    requires
        shows_backward(short, events, names),
        shows_backward(long, events.push(e), names),
        e matches RoomEvent::Message { sender: _, msgtype, timestamp_ms: _ } ==> msgtype
            == MessageType::VerificationRequest || msgtype == MessageType::Other,
    ensures
        long.len() == short.len(),
        forall|i: int| 0 <= i < short.len() ==> same_message(#[trigger] short[i], long[i]),
{
    assert(events.push(e).drop_last() =~= events);
    assert forall|i: int| 0 <= i < short.len() implies same_message(
        #[trigger] short[i],
        long[i],
    ) by {
        assert(is_message(short[i], all_shown(events)[short.len() - 1 - i], names));
        assert(is_message(long[i], all_shown(events)[short.len() - 1 - i], names));
    }
}

/// No events show no messages.
pub proof fn nothing_shows_nothing(
    names: Seq<(UserId, Option<String>)>,
    messages: Seq<TimelineMessage>,
)
    requires
        shows_backward(messages, Seq::<RoomEvent>::empty(), names),
    ensures
        messages.len() == 0,
{
}

/// A message stands under the display name that the table of names has for its sender,
/// wherever in the table the entry stands: the first one for the sender counts. Where
/// that one has no display name it stands under the localpart.
pub proof fn a_sender_goes_by_the_name_in_the_table(
    events: Seq<RoomEvent>,
    names: Seq<(UserId, Option<String>)>,
    messages: Seq<TimelineMessage>,
    i: int,
    k: int,
)
    requires
        shows_backward(messages, events, names),
        0 <= i < messages.len(),
        0 <= k < names.len(),
        names[k].0@ == messages[i].sender@,
        forall|j: int| 0 <= j < k ==> (#[trigger] names[j]).0@ != messages[i].sender@,
    ensures
        names[k].1 matches Some(name) ==> messages[i].sender_name@ == name@,
        names[k].1 is None ==> messages[i].sender_name@ == crate::ids::local_part(
            messages[i].sender@,
        ),
{
    lemma_first_entry_counts(names, messages[i].sender@, k);
    assert(is_message(messages[i], all_shown(events)[messages.len() - 1 - i], names));
}

/// A sender without an entry in the table of names goes by the localpart.
pub proof fn a_sender_without_a_name_goes_by_the_localpart(
    events: Seq<RoomEvent>,
    names: Seq<(UserId, Option<String>)>,
    messages: Seq<TimelineMessage>,
    i: int,
)
    requires
        shows_backward(messages, events, names),
        0 <= i < messages.len(),
        forall|j: int| 0 <= j < names.len() ==> (#[trigger] names[j]).0@ != messages[i].sender@,
    ensures
        messages[i].sender_name@ == crate::ids::local_part(messages[i].sender@),
{
    lemma_no_entry(names, messages[i].sender@);
    assert(is_message(messages[i], all_shown(events)[messages.len() - 1 - i], names));
}

proof fn lemma_first_entry_counts(
    names: Seq<(UserId, Option<String>)>,
    user: Seq<char>,
    k: int,
)
    requires
        0 <= k < names.len(),
        names[k].0@ == user,
        forall|j: int| 0 <= j < k ==> (#[trigger] names[j]).0@ != user,
    ensures
        looked_up(names, user) == names[k].1,
    decreases k,
{
    if k > 0 {
        let rest = names.drop_first();
        assert(names[0].0@ != user);
        assert forall|j: int| 0 <= j < k - 1 implies (#[trigger] rest[j]).0@ != user by {
            assert(rest[j] == names[j + 1]);
        }
        lemma_first_entry_counts(rest, user, k - 1);
    }
}

proof fn lemma_no_entry(names: Seq<(UserId, Option<String>)>, user: Seq<char>)
    requires
        forall|j: int| 0 <= j < names.len() ==> (#[trigger] names[j]).0@ != user,
    ensures
        looked_up(names, user) is None,
    decreases names.len(),
{
    if names.len() > 0 {
        let rest = names.drop_first();
        assert(names[0].0@ != user);
        assert forall|j: int| 0 <= j < rest.len() implies (#[trigger] rest[j]).0@ != user by {
            assert(rest[j] == names[j + 1]);
        }
        lemma_no_entry(rest, user);
    }
}

/// The names that a timeline asks for are those of the senders it shows: every one of
/// them, nobody else's, and nobody's twice.
pub proof fn every_sender_is_looked_up_once(
    events: Seq<RoomEvent>,
    names: Seq<(UserId, Option<String>)>,
    messages: Seq<TimelineMessage>,
    ids: Seq<UserId>,
)
    requires
        shows_backward(messages, events, names),
        are_senders(ids, events),
    ensures
        forall|i: int|
            0 <= i < messages.len() ==> ids.map_values(|u: UserId| u@).contains(
                (#[trigger] messages[i]).sender@,
            ),
        forall|k: int|
            0 <= k < ids.len() ==> messages.map_values(|m: TimelineMessage| m.sender@).contains(
                (#[trigger] ids[k])@,
            ),
        forall|j: int, k: int|
            0 <= j < k < ids.len() ==> (#[trigger] ids[j])@ != (#[trigger] ids[k])@,
{
    let all = all_shown(events);
    let senders = sender_texts(all);
    let n = messages.len();
    lemma_distinct(senders);
    assert(id_texts(ids).len() == ids.len());
    let asked = ids.map_values(|u: UserId| u@);
    let told = messages.map_values(|m: TimelineMessage| m.sender@);
    assert forall|i: int| 0 <= i < messages.len() implies asked.contains(
        (#[trigger] messages[i]).sender@,
    ) by {
        assert(is_message(messages[i], all[n - 1 - i], names));
        assert(senders[n - 1 - i] == messages[i].sender@);
        assert(distinct(senders).contains(senders[n - 1 - i]));
        let k = choose|k: int| 0 <= k < ids.len() && id_texts(ids)[k] == senders[n - 1 - i];
        assert(asked[k] == messages[i].sender@);
    }
    assert forall|k: int| 0 <= k < ids.len() implies told.contains((#[trigger] ids[k])@) by {
        assert(id_texts(ids)[k] == ids[k]@);
        assert(distinct(senders).contains(ids[k]@));
        let m = choose|m: int| 0 <= m < senders.len() && senders[m] == ids[k]@;
        assert(is_message(messages[n - 1 - m], all[m], names));
        assert(told[n - 1 - m] == ids[k]@);
    }
    assert forall|j: int, k: int| 0 <= j < k < ids.len() implies (#[trigger] ids[j])@ != (
    #[trigger] ids[k])@ by {
        assert(id_texts(ids)[j] == ids[j]@ && id_texts(ids)[k] == ids[k]@);
    }
}

proof fn lemma_distinct(s: Seq<Seq<char>>)
    ensures
        distinct(s).no_duplicates(),
        forall|x: Seq<char>| #[trigger] distinct(s).contains(x) <==> s.contains(x),
    decreases s.len(),
{
    if s.len() > 0 {
        let less = s.drop_last();
        let rest = distinct(less);
        lemma_distinct(less);
        assert(s =~= less.push(s.last()));
        assert forall|x: Seq<char>| #[trigger] distinct(s).contains(x) <==> s.contains(x) by {
            if s.contains(x) {
                let i = choose|i: int| 0 <= i < s.len() && s[i] == x;
                if i < less.len() {
                    assert(less[i] == x);
                    assert(rest.contains(x));
                    let k = choose|k: int| 0 <= k < rest.len() && rest[k] == x;
                    assert(distinct(s)[k] == x);
                } else if !rest.contains(s.last()) {
                    assert(distinct(s)[rest.len() as int] == x);
                }
            }
            if distinct(s).contains(x) {
                let k = choose|k: int| 0 <= k < distinct(s).len() && distinct(s)[k] == x;
                if k < rest.len() {
                    assert(rest[k] == x);
                    assert(rest.contains(x));
                    assert(less.contains(x));
                    let i = choose|i: int| 0 <= i < less.len() && less[i] == x;
                    assert(s[i] == x);
                } else {
                    assert(s[s.len() - 1] == x);
                }
            }
        }
    }
}

/// The backup is shown in the state that recovery is in, and enabling it is asked for
/// exactly as long as recovery is not enabled.
pub proof fn the_backup_status_is_that_of_recovery(state: RecoveryState)
    ensures
        status_of(state) is Enabled <==> state is Enabled,
        status_of(state) is Disabled <==> state is Disabled,
        status_of(state) is Incomplete <==> state is Incomplete,
        status_of(state) is Unknown <==> state is Unknown,
        needs_backup(status_of(state)) <==> !(state is Enabled),
{
}

/// A recovery key that was made is the one handed on; only where none was made is the
/// old one reset.
pub proof fn a_recovery_key_is_handed_on(enabled: Result<String, String>, key: String)
    ensures
        setup_of(enabled) == BackupSetup::Enabled(key) <==> enabled == Ok::<String, String>(key),
        setup_of(enabled) is ResetKey <==> enabled is Err,
{
}

/// Every change of rooms reaches the frontend with all its rooms. Missed updates do not
/// end the forwarding; the end of the channel does, and nothing else.
pub proof fn room_changes_reach_the_frontend(received: RoomUpdates, ids: Vec<String>)
    ensures
        forwarded(RoomUpdates::Changed(ids)) == ForwardStep::Send(MeshUpdate::RoomsChanged(ids)),
        forwarded(received) is Stop <==> received is Closed,
        forwarded(received) is Continue <==> received is Lagged,
{
}

/// Cancelling reaches the verification in whatever stage it is: the emoji comparison
/// goes before the request, and only where there is neither is there nothing to cancel.
pub proof fn cancelling_reaches_the_verification(has_sas: bool, has_request: bool)
    ensures
        to_cancel(has_sas, has_request) is Sas <==> has_sas,
        to_cancel(has_sas, has_request) is Request <==> has_request && !has_sas,
        to_cancel(has_sas, has_request) is Nothing <==> !has_sas && !has_request,
{
}

/// A message is sent as it was composed: its plain text is the text itself, so no two
/// texts are sent as the same message, and its HTML is that of the text.
pub proof fn a_message_is_sent_as_composed(
    a: OutgoingMessage,
    b: OutgoingMessage,
    x: Seq<char>,
    y: Seq<char>,
)
    requires
        composes(a, x),
        composes(b, y),
    ensures
        a.body@ == x,
        a.body@ == b.body@ <==> x == y,
        a.html is Some <==> markdown_html(x) is Some,
        a.html matches Some(html) ==> markdown_html(x) == Some(html@),
{
}

} // verus!
