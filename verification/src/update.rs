//! What the frontend does on each message: how its state changes, and which work
//! it hands to the outside.

use vstd::prelude::*;
use vstd::string::*;

use crate::client;
use crate::client::BackupStatus;
use crate::client::MemberInfo;
use crate::client::MyProfile;
use crate::client::RoomSummary;
use crate::client::TimelineMessage;
use crate::events::MeshUpdate;
use crate::state::App;
use crate::state::BackupUi;
use crate::state::CallUi;
use crate::state::CallUiState;
use crate::state::LoginForm;
use crate::state::Screen;
use crate::state::SessionState;
use crate::state::VerificationPrompt;
use crate::state::VerifyStage;
use crate::state::DEFAULT_DEVICE;
use crate::text;
use crate::theme;
use crate::theme::Config;
use crate::theme::Palette;
use crate::widgets::Press;

verus! {

/// How many messages to fetch when opening a room.
pub const TIMELINE_LIMIT: u16 = 50;

/// What happened: the user did something, or work came back.
#[derive(Debug, PartialEq, Eq)]
pub enum Message {
    RestoreFinished(Result<(), String>),
    HomeserverChanged(String),
    UsernameChanged(String),
    PasswordChanged(String),
    LoginSubmitted,
    LoginFinished(Result<(), String>),
    /// A theme was picked; `custom` is the palette file's palette, if it can be
    /// read.
    ThemeChosen { choice: String, custom: Option<Palette> },
    LogOut,
    /// Animation frame for the background.
    Tick,
    /// Something that matters on the logged-in screen only.
    Session(SessionMessage),
}

/// What happened on the logged-in screen.
#[derive(Debug, PartialEq, Eq)]
pub enum SessionMessage {
    RoomsLoaded(Vec<RoomSummary>),
    RoomSelected(String),
    TimelineLoaded(String, Result<Vec<TimelineMessage>, String>),
    Update(MeshUpdate),
    DraftChanged(String),
    SendMessage,
    MessageSent(Result<(), String>),
    AcceptVerification,
    ConfirmVerification,
    CancelVerification,
    VerificationActionFinished(Result<(), String>),
    /// The settings were opened or closed; `facts` is what to show in them.
    ToggleSettings(SettingsFacts),
    PlaceCall,
    AcceptCall,
    HangUp,
    ToggleMute,
    ToggleDeafen,
    MembersLoaded(String, Vec<MemberInfo>),
    ProfileLoaded(MyProfile),
    CallActionFinished(Result<(), String>),
    SetupBackup,
    /// Secure Backup was set up, or not; with its status now.
    BackupSetupFinished(Result<String, String>, BackupStatus),
    RecoveryKeyInput(String),
    RestoreBackup,
    /// Secrets were restored, or not; with the backup's status now.
    BackupRestoreFinished(Result<(), String>, BackupStatus),
    /// Result of the automatic backup enable on login.
    EnsureBackupFinished(Result<Option<String>, String>),
    InputDeviceSelected(String),
    OutputDeviceSelected(String),
}

/// What the settings show besides the frontend's own state.
#[derive(Debug, PartialEq, Eq)]
pub struct SettingsFacts {
    pub backup: BackupStatus,
    pub input_devices: Vec<String>,
    pub output_devices: Vec<String>,
}

/// Work for the outside. Most of it comes back as a message.
#[derive(Debug, PartialEq, Eq)]
pub enum Command {
    /// Restore the saved session; comes back as `RestoreFinished`.
    RestoreSession,
    /// Comes back as `LoginFinished`.
    LogIn { homeserver: String, username: String, password: String },
    /// Comes back as `RoomsLoaded`.
    LoadRooms,
    /// Comes back as `ProfileLoaded`.
    LoadProfile,
    /// Make sure key backup is on, so keys persist going forward; comes back as
    /// `EnsureBackupFinished`.
    EnsureBackup,
    /// Deliver the client core's updates, each as an `Update`.
    WatchUpdates,
    /// Comes back as `TimelineLoaded`.
    LoadTimeline { room_id: String, limit: u16 },
    /// Comes back as `MembersLoaded`.
    LoadMembers { room_id: String },
    /// Comes back as `MessageSent`.
    Send { room_id: String, body: String },
    /// The next three come back as `VerificationActionFinished`.
    Accept(VerificationTarget),
    Confirm(VerificationTarget),
    Cancel(VerificationTarget),
    /// The next six come back as `CallActionFinished`.
    PlaceCall { room_id: String },
    AcceptCall,
    HangUp,
    SetMuted(bool),
    SetDeafened(bool),
    /// Carry the user's mic and deafen state into a new call.
    CarryAudioState { muted: bool, deafened: bool },
    /// Comes back as `BackupSetupFinished`.
    EnableBackup,
    /// Comes back as `BackupRestoreFinished`.
    RestoreBackup { recovery_key: String },
    /// Use these audio devices for later calls; `None` is the system default.
    SetAudioDevices { input: Option<String>, output: Option<String> },
    /// Persist the theme choice.
    SaveChoice(Config),
    /// Forget the saved session.
    ForgetSession,
    /// Let the background move on by one frame.
    AdvanceRain,
}

/// The verification that a command is about.
#[derive(Debug, PartialEq, Eq)]
pub struct VerificationTarget {
    pub user_id: crate::ids::UserId,
    pub flow_id: String,
}

// ---------------------------------------------------------------------------
// The logged-in screen

/// `shown` is this text.
pub open spec fn says(shown: Option<String>, t: Seq<char>) -> bool {
    text::opt_text(shown) == Some(t)
}

/// The room is the one that is open.
pub open spec fn is_selected(s: SessionState, room: Seq<char>) -> bool {
    says(s.selected_room, room)
}

/// The verification on screen is this one.
pub open spec fn shows_flow(s: SessionState, flow: Seq<char>) -> bool {
    s.verification matches Some(prompt) && prompt.flow_id@ == flow
}

/// The call on screen is this one.
pub open spec fn shows_call(s: SessionState, call: Seq<char>) -> bool {
    s.call matches Some(ui) && ui.call_id@ == call
}

/// The commands that load a room.
pub open spec fn room_loads(room_id: String) -> Seq<Command> {
    seq![
        Command::LoadTimeline { room_id, limit: TIMELINE_LIMIT },
        Command::LoadMembers { room_id },
    ]
}

/// What [`SessionState::pushed`] does on an update of the client core: `s` before
/// it, `t` after it, `cmds` the work it hands out.
pub open spec fn pushed_post(
    s: SessionState,
    update: MeshUpdate,
    t: SessionState,
    cmds: Seq<Command>,
) -> bool {
    match update {
        MeshUpdate::RoomsChanged(ids) => {
            &&& t == s
            &&& cmds == seq![Command::LoadRooms] + match s.selected_room {
                Some(room_id) if text::texts(ids@).contains(room_id@) => room_loads(room_id),
                _ => Seq::empty(),
            }
        },
        MeshUpdate::VerificationRequested { user_id, flow_id } => {
            &&& t == (SessionState {
                verification: Some(
                    VerificationPrompt { user_id, flow_id, stage: VerifyStage::Requested },
                ),
                ..s
            })
            &&& cmds.len() == 0
        },
        MeshUpdate::VerificationEmojis { flow_id, emojis } => {
            &&& t == (SessionState {
                verification: match s.verification {
                    Some(prompt) if prompt.flow_id@ == flow_id@ => Some(
                        VerificationPrompt { stage: VerifyStage::Emojis(emojis), ..prompt },
                    ),
                    shown => shown,
                },
                ..s
            })
            &&& cmds.len() == 0
        },
        MeshUpdate::VerificationDone { flow_id } => {
            &&& cmds.len() == 0
            &&& if shows_flow(s, flow_id@) {
                &&& t == (SessionState { verification: None, status: t.status, ..s })
                &&& says(t.status, "Device verified successfully."@)
            } else {
                t == s
            }
        },
        MeshUpdate::VerificationCancelled { flow_id, reason } => {
            &&& cmds.len() == 0
            &&& if shows_flow(s, flow_id@) {
                &&& t == (SessionState { verification: None, status: t.status, ..s })
                &&& says(t.status, "Verification cancelled: "@ + reason@)
            } else {
                t == s
            }
        },
        MeshUpdate::IncomingCall { call_id, room_id: _, caller } => {
            &&& cmds.len() == 0
            &&& if s.call is None {
                &&& t == (SessionState { call: t.call, ..s })
                &&& t.call matches Some(ui)
                &&& ui.call_id == call_id
                &&& ui.peer@ == crate::ids::local_part(caller@)
                &&& ui.state == CallUiState::IncomingRinging
            } else {
                t == s
            }
        },
        MeshUpdate::CallConnecting { call_id } => {
            &&& t == (SessionState {
                call: match s.call {
                    Some(ui) if ui.call_id@ == call_id@ || awaits_id(ui) => Some(
                        CallUi { call_id, state: CallUiState::Connecting, ..ui },
                    ),
                    shown => shown,
                },
                ..s
            })
            &&& cmds == seq![
                Command::CarryAudioState { muted: s.self_muted, deafened: s.self_deafened },
            ]
        },
        MeshUpdate::CallConnected { call_id } => {
            &&& t == in_state(s, call_id@, CallUiState::Connected)
            &&& cmds.len() == 0
        },
        MeshUpdate::CallEnded { call_id, reason } => {
            &&& cmds.len() == 0
            &&& if shows_call(s, call_id@) {
                &&& t == (SessionState { call: None, status: t.status, ..s })
                &&& says(t.status, "Call ended: "@ + reason@)
            } else {
                t == s
            }
        },
    }
}

/// A call that the user placed and whose id is not known yet: it comes with the news
/// that the call connects.
pub open spec fn awaits_id(ui: CallUi) -> bool {
    ui.state == CallUiState::OutgoingRinging && ui.call_id@.len() == 0
}

/// The session with the call on screen in this state, if it is this call.
pub open spec fn in_state(s: SessionState, call: Seq<char>, state: CallUiState) -> SessionState {
    SessionState {
        call: match s.call {
            Some(ui) if ui.call_id@ == call => Some(CallUi { state, ..ui }),
            shown => shown,
        },
        ..s
    }
}

/// Whether one of the texts is this one.
fn holds(all: &Vec<String>, wanted: &String) -> (r: bool)
    ensures
        r == text::texts(all@).contains(wanted@),
{
    let mut i: usize = 0;
    while i < all.len()
        invariant
            i <= all.len(),
            forall|k: int| 0 <= k < i ==> (#[trigger] all@[k])@ != wanted@,
        decreases all.len() - i,
    {
        if text::same_text(all[i].as_str(), wanted.as_str()) {
            assert(text::texts(all@)[i as int] == wanted@);
            return true;
        }
        i += 1;
    }
    assert forall|k: int| 0 <= k < all@.len() implies #[trigger] text::texts(all@)[k]
        != wanted@ by {
        assert(all@[k]@ != wanted@);
    }
    false
}

fn load_timeline(room_id: &String) -> (r: Command)
    ensures
        r == (Command::LoadTimeline { room_id: *room_id, limit: TIMELINE_LIMIT }),
{
    Command::LoadTimeline { room_id: room_id.clone(), limit: TIMELINE_LIMIT }
}

fn load_members(room_id: &String) -> (r: Command)
    ensures
        r == (Command::LoadMembers { room_id: *room_id }),
{
    Command::LoadMembers { room_id: room_id.clone() }
}

impl SessionState {
    fn flow_is(&self, flow_id: &String) -> (r: bool)
        ensures
            r == shows_flow(*self, flow_id@),
    {
        match &self.verification {
            Some(prompt) => text::same_text(prompt.flow_id.as_str(), flow_id.as_str()),
            None => false,
        }
    }

    fn call_is(&self, call_id: &String) -> (r: bool)
        ensures
            r == shows_call(*self, call_id@),
    {
        match &self.call {
            Some(ui) => text::same_text(ui.call_id.as_str(), call_id.as_str()),
            None => false,
        }
    }

    /// The call with this id connects: the one on screen, if it has the id or is
    /// still without one.
    fn connect_call(&mut self, call_id: String)
        ensures
            *final(self) == (SessionState {
                call: match old(self).call {
                    Some(ui) if ui.call_id@ == call_id@ || awaits_id(ui) => Some(
                        CallUi { call_id, state: CallUiState::Connecting, ..ui },
                    ),
                    shown => shown,
                },
                ..*old(self)
            }),
    {
        if let Some(ui) = self.call.take() {
            let waits = ui.state == CallUiState::OutgoingRinging && ui.call_id.as_str().is_empty();
            if waits || text::same_text(ui.call_id.as_str(), call_id.as_str()) {
                self.call = Some(
                    CallUi { call_id, peer: ui.peer, state: CallUiState::Connecting },
                );
            } else {
                self.call = Some(ui);
            }
        }
    }

    fn set_call_state(&mut self, call_id: &String, state: CallUiState)
        ensures
            *final(self) == in_state(*old(self), call_id@, state),
    {
        if self.call_is(call_id) {
            let ui = self.call.take().unwrap();
            self.call = Some(CallUi { call_id: ui.call_id, peer: ui.peer, state });
        }
    }

    /// Takes in an update that the client core pushed.
    pub fn pushed(&mut self, update: MeshUpdate) -> (cmds: Vec<Command>)
        ensures
            pushed_post(*old(self), update, *final(self), cmds@),
    {
        match update {
            MeshUpdate::RoomsChanged(ids) => {
                let mut cmds: Vec<Command> = Vec::new();
                cmds.push(Command::LoadRooms);
                if let Some(room_id) = &self.selected_room {
                    if holds(&ids, room_id) {
                        cmds.push(load_timeline(room_id));
                        cmds.push(load_members(room_id));
                        assert(cmds@ =~= seq![Command::LoadRooms] + room_loads(*room_id));
                        return cmds;
                    }
                }
                assert(cmds@ =~= seq![Command::LoadRooms] + Seq::empty());
                cmds
            },
            MeshUpdate::VerificationRequested { user_id, flow_id } => {
                self.verification = Some(
                    VerificationPrompt { user_id, flow_id, stage: VerifyStage::Requested },
                );
                Vec::new()
            },
            MeshUpdate::VerificationEmojis { flow_id, emojis } => {
                if self.flow_is(&flow_id) {
                    let prompt = self.verification.take().unwrap();
                    self.verification = Some(
                        VerificationPrompt {
                            user_id: prompt.user_id,
                            flow_id: prompt.flow_id,
                            stage: VerifyStage::Emojis(emojis),
                        },
                    );
                }
                Vec::new()
            },
            MeshUpdate::VerificationDone { flow_id } => {
                if self.flow_is(&flow_id) {
                    self.verification = None;
                    self.status = Some("Device verified successfully.".to_owned());
                }
                Vec::new()
            },
            MeshUpdate::VerificationCancelled { flow_id, reason } => {
                if self.flow_is(&flow_id) {
                    self.verification = None;
                    self.status = Some(
                        text::concat2("Verification cancelled: ", reason.as_str()),
                    );
                }
                Vec::new()
            },
            MeshUpdate::IncomingCall { call_id, room_id: _, caller } => {
                // Don't clobber a call we're already in.
                if self.call.is_none() {
                    self.call = Some(
                        CallUi {
                            call_id,
                            peer: caller.localpart(),
                            state: CallUiState::IncomingRinging,
                        },
                    );
                }
                Vec::new()
            },
            MeshUpdate::CallConnecting { call_id } => {
                self.connect_call(call_id);
                let mut cmds: Vec<Command> = Vec::new();
                cmds.push(
                    Command::CarryAudioState {
                        muted: self.self_muted,
                        deafened: self.self_deafened,
                    },
                );
                cmds
            },
            MeshUpdate::CallConnected { call_id } => {
                self.set_call_state(&call_id, CallUiState::Connected);
                Vec::new()
            },
            MeshUpdate::CallEnded { call_id, reason } => {
                if self.call_is(&call_id) {
                    self.call = None;
                    self.status = Some(text::concat2("Call ended: ", reason.as_str()));
                }
                Vec::new()
            },
        }
    }
}

/// The label of a call placed in a room: the room's name, or "call" where the room
/// is not listed.
pub open spec fn call_label(rooms: Seq<RoomSummary>, id: Seq<char>) -> Seq<char> {
    match client::room_with(rooms, id) {
        Some(room) => room.name@,
        None => "call"@,
    }
}

fn label_of_call(rooms: &Vec<RoomSummary>, id: &String) -> (r: String)
    ensures
        r@ == call_label(rooms@, id@),
{
    match client::find_room(rooms, id.as_str()) {
        Some(room) => room.name.clone(),
        None => "call".to_owned(),
    }
}

/// The device that a picker stands for: none for the system default.
pub open spec fn picked(selection: Seq<char>) -> Option<Seq<char>> {
    if selection == "(System default)"@ {
        None
    } else {
        Some(selection)
    }
}

fn device_of(selection: &String) -> (r: Option<String>)
    ensures
        text::opt_text(r) == picked(selection@),
{
    if text::same_text(selection.as_str(), DEFAULT_DEVICE) {
        None
    } else {
        Some(selection.clone())
    }
}

/// The only command sets the audio devices that the pickers of `t` stand for.
pub open spec fn sets_devices(t: SessionState, cmds: Seq<Command>) -> bool {
    &&& cmds.len() == 1
    &&& cmds[0] matches Command::SetAudioDevices { input, output }
    &&& text::opt_text(input) == picked(t.selected_input@)
    &&& text::opt_text(output) == picked(t.selected_output@)
}

/// The texts of a device picker: the system default, then the devices.
pub open spec fn picker(devices: Seq<String>) -> Seq<Seq<char>> {
    seq!["(System default)"@] + text::texts(devices)
}

fn picker_of(devices: Vec<String>) -> (r: Vec<String>)
    ensures
        text::texts(r@) == picker(devices@),
{
    let mut all: Vec<String> = Vec::new();
    all.push(DEFAULT_DEVICE.to_owned());
    let mut rest = devices;
    all.append(&mut rest);
    assert(text::texts(all@) =~= picker(devices@));
    all
}

/// Secure Backup once the settings are not on screen: a fresh recovery key that they
/// showed is not kept, since it is shown once.
pub open spec fn settings_left(s: SessionState) -> BackupUi {
    if s.show_settings {
        BackupUi { new_key: None, ..s.backup }
    } else {
        s.backup
    }
}

/// What [`SessionState::handle`] does on a message: `s` before it, `t` after it,
/// `cmds` the work it hands out.
pub open spec fn session_post(
    s: SessionState,
    message: SessionMessage,
    t: SessionState,
    cmds: Seq<Command>,
) -> bool {
    match message {
        SessionMessage::RoomsLoaded(rooms) => {
            &&& t == (SessionState { rooms, ..s })
            &&& cmds.len() == 0
        },
        SessionMessage::RoomSelected(room_id) => {
            &&& t == (SessionState {
                selected_room: Some(room_id),
                timeline: t.timeline,
                members: t.members,
                status: None,
                show_settings: false,
                backup: settings_left(s),
                ..s
            })
            &&& t.timeline@.len() == 0
            &&& t.members@.len() == 0
            &&& cmds == room_loads(room_id)
        },
        SessionMessage::TimelineLoaded(room_id, result) => {
            &&& cmds.len() == 0
            &&& if is_selected(s, room_id@) {
                match result {
                    Ok(timeline) => t == (SessionState { timeline, ..s }),
                    Err(err) => {
                        &&& t == (SessionState { status: t.status, ..s })
                        &&& says(t.status, "Failed to load messages: "@ + err@)
                    },
                }
            } else {
                t == s
            }
        },
        SessionMessage::Update(update) => pushed_post(s, update, t, cmds),
        SessionMessage::DraftChanged(value) => {
            &&& t == (SessionState { message_draft: value, ..s })
            &&& cmds.len() == 0
        },
        SessionMessage::SendMessage => {
            match s.selected_room {
                Some(room_id) if !text::is_blank(s.message_draft@) => {
                    &&& t == (SessionState { message_draft: t.message_draft, ..s })
                    &&& t.message_draft@.len() == 0
                    &&& cmds == seq![Command::Send { room_id, body: s.message_draft }]
                },
                _ => t == s && cmds.len() == 0,
            }
        },
        SessionMessage::MessageSent(result) => {
            &&& t == (SessionState { status: t.status, ..s })
            &&& match result {
                Ok(()) => t.status is None,
                Err(err) => says(t.status, "Failed to send: "@ + err@),
            }
            &&& cmds.len() == 0
        },
        SessionMessage::AcceptVerification => match s.verification {
            Some(prompt) => {
                &&& t == (SessionState {
                    verification: Some(
                        VerificationPrompt { stage: VerifyStage::Accepted, ..prompt },
                    ),
                    ..s
                })
                &&& cmds == seq![Command::Accept(target(prompt))]
            },
            None => t == s && cmds.len() == 0,
        },
        SessionMessage::ConfirmVerification => match s.verification {
            Some(prompt) => {
                &&& t == (SessionState {
                    verification: Some(
                        VerificationPrompt { stage: VerifyStage::Confirmed, ..prompt },
                    ),
                    ..s
                })
                &&& cmds == seq![Command::Confirm(target(prompt))]
            },
            None => t == s && cmds.len() == 0,
        },
        SessionMessage::CancelVerification => match s.verification {
            Some(prompt) => {
                &&& t == (SessionState { verification: None, ..s })
                &&& cmds == seq![Command::Cancel(target(prompt))]
            },
            None => t == s && cmds.len() == 0,
        },
        SessionMessage::VerificationActionFinished(result) => {
            &&& cmds.len() == 0
            &&& match result {
                Ok(()) => t == s,
                Err(err) => {
                    &&& t == (SessionState { verification: None, status: t.status, ..s })
                    &&& says(t.status, "Verification failed: "@ + err@)
                },
            }
        },
        SessionMessage::ToggleSettings(facts) => {
            &&& cmds.len() == 0
            &&& if s.show_settings {
                t == (SessionState { show_settings: false, backup: settings_left(s), ..s })
            } else {
                &&& t == (SessionState {
                    show_settings: true,
                    backup: BackupUi { status: Some(facts.backup), ..s.backup },
                    input_devices: t.input_devices,
                    output_devices: t.output_devices,
                    ..s
                })
                &&& text::texts(t.input_devices@) == picker(facts.input_devices@)
                &&& text::texts(t.output_devices@) == picker(facts.output_devices@)
            }
        },
        SessionMessage::PlaceCall => match (s.call, s.selected_room) {
            (None, Some(room_id)) => {
                &&& t == (SessionState { call: t.call, ..s })
                &&& cmds == seq![Command::PlaceCall { room_id }]
                &&& t.call matches Some(ui)
                &&& ui.call_id@.len() == 0
                &&& ui.peer@ == call_label(s.rooms@, room_id@)
                &&& ui.state == CallUiState::OutgoingRinging
            },
            _ => t == s && cmds.len() == 0,
        },
        SessionMessage::AcceptCall => {
            &&& t == s
            &&& if s.call matches Some(ui) && ui.state == CallUiState::IncomingRinging {
                cmds == seq![Command::AcceptCall]
            } else {
                cmds.len() == 0
            }
        },
        SessionMessage::HangUp => {
            &&& t == (SessionState { call: None, ..s })
            &&& cmds == seq![Command::HangUp]
        },
        SessionMessage::ToggleMute => {
            &&& t == (SessionState { self_muted: !s.self_muted, ..s })
            &&& cmds == seq![Command::SetMuted(!s.self_muted)]
        },
        SessionMessage::ToggleDeafen => {
            &&& t == (SessionState {
                self_deafened: !s.self_deafened,
                self_muted: !s.self_deafened,
                ..s
            })
            &&& cmds == seq![Command::SetDeafened(!s.self_deafened)]
        },
        SessionMessage::MembersLoaded(room_id, members) => {
            &&& cmds.len() == 0
            &&& if is_selected(s, room_id@) {
                t == (SessionState { members, ..s })
            } else {
                t == s
            }
        },
        SessionMessage::ProfileLoaded(profile) => {
            &&& t == (SessionState { my_profile: Some(profile), ..s })
            &&& cmds.len() == 0
        },
        SessionMessage::CallActionFinished(result) => {
            &&& cmds.len() == 0
            &&& match result {
                Ok(()) => t == s,
                Err(err) => {
                    &&& t == (SessionState { call: None, status: t.status, ..s })
                    &&& says(t.status, "Call failed: "@ + err@)
                },
            }
        },
        SessionMessage::SetupBackup => {
            &&& t == (SessionState {
                backup: BackupUi { busy: true, message: t.backup.message, ..s.backup },
                ..s
            })
            &&& says(t.backup.message, "Setting up Secure Backup…"@)
            &&& cmds == seq![Command::EnableBackup]
        },
        SessionMessage::BackupSetupFinished(result, status) => {
            &&& cmds.len() == 0
            &&& match result {
                Ok(key) => {
                    &&& t == (SessionState {
                        backup: BackupUi {
                            busy: false,
                            new_key: Some(key),
                            message: t.backup.message,
                            status: Some(status),
                            ..s.backup
                        },
                        ..s
                    })
                    &&& says(
                        t.backup.message,
                        "Secure Backup enabled. Save the recovery key below — it will not be shown again."@,
                    )
                },
                Err(err) => {
                    &&& t == (SessionState {
                        backup: BackupUi { busy: false, message: t.backup.message, ..s.backup },
                        ..s
                    })
                    &&& says(t.backup.message, "Setup failed: "@ + err@)
                },
            }
        },
        SessionMessage::RecoveryKeyInput(value) => {
            &&& t == (SessionState { backup: BackupUi { key_input: value, ..s.backup }, ..s })
            &&& cmds.len() == 0
        },
        SessionMessage::RestoreBackup => {
            if text::is_blank(s.backup.key_input@) {
                t == s && cmds.len() == 0
            } else {
                &&& t == (SessionState {
                    backup: BackupUi { busy: true, message: t.backup.message, ..s.backup },
                    ..s
                })
                &&& says(t.backup.message, "Restoring from backup…"@)
                &&& cmds.len() == 1
                &&& cmds[0] matches Command::RestoreBackup { recovery_key }
                &&& text::is_trim_of(recovery_key@, s.backup.key_input@)
            }
        },
        SessionMessage::BackupRestoreFinished(result, status) => match result {
            Ok(()) => {
                &&& t == (SessionState {
                    backup: BackupUi {
                        busy: false,
                        key_input: t.backup.key_input,
                        message: t.backup.message,
                        status: Some(status),
                        ..s.backup
                    },
                    ..s
                })
                &&& t.backup.key_input@.len() == 0
                &&& says(
                    t.backup.message,
                    "Restored from backup. Previously unreadable messages should decrypt shortly."@,
                )
                // The open room is reloaded, so newly-decryptable messages appear.
                &&& cmds == match s.selected_room {
                    Some(room_id) => seq![
                        Command::LoadTimeline { room_id, limit: TIMELINE_LIMIT },
                    ],
                    None => Seq::empty(),
                }
            },
            Err(err) => {
                &&& t == (SessionState {
                    backup: BackupUi { busy: false, message: t.backup.message, ..s.backup },
                    ..s
                })
                &&& says(t.backup.message, "Restore failed: "@ + err@)
                &&& cmds.len() == 0
            },
        },
        SessionMessage::EnsureBackupFinished(result) => {
            &&& cmds.len() == 0
            &&& match result {
                // Backup was just enabled; the key to save is surfaced.
                Ok(Some(key)) => {
                    &&& t == (SessionState {
                        backup: BackupUi {
                            status: Some(BackupStatus::Enabled),
                            new_key: Some(key),
                            message: t.backup.message,
                            ..s.backup
                        },
                        status: t.status,
                        ..s
                    })
                    &&& says(
                        t.backup.message,
                        "Secure Backup was enabled automatically. Open Settings to view and save your recovery key."@,
                    )
                    &&& says(
                        t.status,
                        "Secure Backup enabled — open Settings to save your recovery key."@,
                    )
                },
                Ok(None) => t == (SessionState {
                    backup: BackupUi { status: Some(BackupStatus::Enabled), ..s.backup },
                    ..s
                }),
                Err(_) => t == s,
            }
        },
        SessionMessage::InputDeviceSelected(value) => {
            &&& t == (SessionState { selected_input: value, ..s })
            &&& sets_devices(t, cmds)
        },
        SessionMessage::OutputDeviceSelected(value) => {
            &&& t == (SessionState { selected_output: value, ..s })
            &&& sets_devices(t, cmds)
        },
    }
}

/// The verification that a prompt is about.
pub open spec fn target(prompt: VerificationPrompt) -> VerificationTarget {
    VerificationTarget { user_id: prompt.user_id, flow_id: prompt.flow_id }
}

fn target_of(prompt: &VerificationPrompt) -> (r: VerificationTarget)
    ensures
        r == target(*prompt),
{
    VerificationTarget { user_id: prompt.user_id.clone(), flow_id: prompt.flow_id.clone() }
}

impl SessionState {
    fn room_is(&self, room_id: &String) -> (r: bool)
        ensures
            r == is_selected(*self, room_id@),
    {
        match &self.selected_room {
            Some(selected) => text::same_text(selected.as_str(), room_id.as_str()),
            None => false,
        }
    }

    /// Moves the verification on screen to a stage; gives back which one it is.
    fn move_verification(&mut self, stage: VerifyStage) -> (r: Option<VerificationTarget>)
        ensures
            match old(self).verification {
                Some(prompt) => {
                    &&& *final(self) == (SessionState {
                        verification: Some(VerificationPrompt { stage, ..prompt }),
                        ..*old(self)
                    })
                    &&& r == Some(target(prompt))
                },
                None => *final(self) == *old(self) && r is None,
            },
    {
        match self.verification.take() {
            Some(prompt) => {
                let about = target_of(&prompt);
                self.verification = Some(
                    VerificationPrompt { user_id: prompt.user_id, flow_id: prompt.flow_id, stage },
                );
                Some(about)
            },
            None => None,
        }
    }

    fn leave_settings(&mut self)
        ensures
            *final(self) == (SessionState {
                show_settings: false,
                backup: settings_left(*old(self)),
                ..*old(self)
            }),
    {
        if self.show_settings {
            self.backup.new_key = None;
        }
        self.show_settings = false;
    }

    fn apply_audio_devices(&self) -> (cmds: Vec<Command>)
        ensures
            sets_devices(*self, cmds@),
    {
        let mut cmds: Vec<Command> = Vec::new();
        cmds.push(
            Command::SetAudioDevices {
                input: device_of(&self.selected_input),
                output: device_of(&self.selected_output),
            },
        );
        cmds
    }

    /// Takes in a message on the logged-in screen.
    pub fn handle(&mut self, message: SessionMessage) -> (cmds: Vec<Command>)
        ensures
            session_post(*old(self), message, *final(self), cmds@),
    {
        let mut cmds: Vec<Command> = Vec::new();
        match message {
            SessionMessage::RoomsLoaded(rooms) => {
                self.rooms = rooms;
            },
            SessionMessage::RoomSelected(room_id) => {
                cmds.push(load_timeline(&room_id));
                cmds.push(load_members(&room_id));
                assert(cmds@ =~= room_loads(room_id));
                self.selected_room = Some(room_id);
                self.timeline.clear();
                self.members.clear();
                self.status = None;
                self.leave_settings();
            },
            SessionMessage::TimelineLoaded(room_id, result) => {
                if self.room_is(&room_id) {
                    match result {
                        Ok(timeline) => {
                            self.timeline = timeline;
                        },
                        Err(err) => {
                            self.status = Some(
                                text::concat2("Failed to load messages: ", err.as_str()),
                            );
                        },
                    }
                }
            },
            SessionMessage::Update(update) => {
                return self.pushed(update);
            },
            SessionMessage::DraftChanged(value) => {
                self.message_draft = value;
            },
            SessionMessage::SendMessage => {
                if let Some(room_id) = self.selected_room.clone() {
                    if !text::trim(self.message_draft.as_str()).as_str().is_empty() {
                        let mut body = String::new();
                        std::mem::swap(&mut self.message_draft, &mut body);
                        cmds.push(Command::Send { room_id, body });
                    }
                }
            },
            SessionMessage::MessageSent(result) => {
                self.status = match result {
                    Ok(()) => None,
                    Err(err) => Some(text::concat2("Failed to send: ", err.as_str())),
                };
            },
            SessionMessage::AcceptVerification => {
                if let Some(about) = self.move_verification(VerifyStage::Accepted) {
                    cmds.push(Command::Accept(about));
                }
            },
            SessionMessage::ConfirmVerification => {
                if let Some(about) = self.move_verification(VerifyStage::Confirmed) {
                    cmds.push(Command::Confirm(about));
                }
            },
            SessionMessage::CancelVerification => {
                if let Some(prompt) = self.verification.take() {
                    cmds.push(Command::Cancel(target_of(&prompt)));
                }
            },
            SessionMessage::VerificationActionFinished(result) => {
                if let Err(err) = result {
                    self.verification = None;
                    self.status = Some(text::concat2("Verification failed: ", err.as_str()));
                }
            },
            SessionMessage::ToggleSettings(facts) => {
                if self.show_settings {
                    self.leave_settings();
                } else {
                    self.show_settings = true;
                    self.backup.status = Some(facts.backup);
                    // The device lists are refreshed, the default sentinel first.
                    self.input_devices = picker_of(facts.input_devices);
                    self.output_devices = picker_of(facts.output_devices);
                }
            },
            SessionMessage::PlaceCall => {
                if self.call.is_none() {
                    if let Some(room_id) = self.selected_room.clone() {
                        self.call = Some(
                            CallUi {
                                call_id: String::new(),
                                peer: label_of_call(&self.rooms, &room_id),
                                state: CallUiState::OutgoingRinging,
                            },
                        );
                        cmds.push(Command::PlaceCall { room_id });
                    }
                }
            },
            SessionMessage::AcceptCall => {
                if let Some(ui) = &self.call {
                    if ui.state == CallUiState::IncomingRinging {
                        cmds.push(Command::AcceptCall);
                    }
                }
            },
            SessionMessage::HangUp => {
                self.call = None;
                cmds.push(Command::HangUp);
            },
            SessionMessage::ToggleMute => {
                self.self_muted = !self.self_muted;
                cmds.push(Command::SetMuted(self.self_muted));
            },
            SessionMessage::ToggleDeafen => {
                self.self_deafened = !self.self_deafened;
                // Deafening also mutes the mic; undeafening unmutes it.
                self.self_muted = self.self_deafened;
                cmds.push(Command::SetDeafened(self.self_deafened));
            },
            SessionMessage::MembersLoaded(room_id, members) => {
                if self.room_is(&room_id) {
                    self.members = members;
                }
            },
            SessionMessage::ProfileLoaded(profile) => {
                self.my_profile = Some(profile);
            },
            SessionMessage::CallActionFinished(result) => {
                if let Err(err) = result {
                    self.call = None;
                    self.status = Some(text::concat2("Call failed: ", err.as_str()));
                }
            },
            SessionMessage::SetupBackup => {
                self.backup.busy = true;
                self.backup.message = Some("Setting up Secure Backup…".to_owned());
                cmds.push(Command::EnableBackup);
            },
            SessionMessage::BackupSetupFinished(result, status) => {
                self.backup.busy = false;
                match result {
                    Ok(key) => {
                        self.backup.new_key = Some(key);
                        self.backup.message = Some(
                            "Secure Backup enabled. Save the recovery key below — it will not be shown again.".to_owned(),
                        );
                        self.backup.status = Some(status);
                    },
                    Err(err) => {
                        self.backup.message = Some(text::concat2("Setup failed: ", err.as_str()));
                    },
                }
            },
            SessionMessage::RecoveryKeyInput(value) => {
                self.backup.key_input = value;
            },
            SessionMessage::RestoreBackup => {
                let recovery_key = text::trim(self.backup.key_input.as_str());
                if !recovery_key.as_str().is_empty() {
                    self.backup.busy = true;
                    self.backup.message = Some("Restoring from backup…".to_owned());
                    cmds.push(Command::RestoreBackup { recovery_key });
                }
            },
            SessionMessage::BackupRestoreFinished(result, status) => {
                self.backup.busy = false;
                match result {
                    Ok(()) => {
                        self.backup.key_input = String::new();
                        self.backup.message = Some(
                            "Restored from backup. Previously unreadable messages should decrypt shortly.".to_owned(),
                        );
                        self.backup.status = Some(status);
                        if let Some(room_id) = &self.selected_room {
                            cmds.push(load_timeline(room_id));
                        }
                    },
                    Err(err) => {
                        self.backup.message = Some(text::concat2("Restore failed: ", err.as_str()));
                    },
                }
            },
            SessionMessage::EnsureBackupFinished(result) => {
                match result {
                    Ok(Some(key)) => {
                        self.backup.status = Some(BackupStatus::Enabled);
                        self.backup.new_key = Some(key);
                        self.backup.message = Some(
                            "Secure Backup was enabled automatically. Open Settings to view and save your recovery key.".to_owned(),
                        );
                        self.status = Some(
                            "Secure Backup enabled — open Settings to save your recovery key.".to_owned(),
                        );
                    },
                    Ok(None) => {
                        self.backup.status = Some(BackupStatus::Enabled);
                    },
                    Err(_) => {},
                }
            },
            SessionMessage::InputDeviceSelected(value) => {
                self.selected_input = value;
                return self.apply_audio_devices();
            },
            SessionMessage::OutputDeviceSelected(value) => {
                self.selected_output = value;
                return self.apply_audio_devices();
            },
        }
        cmds
    }
}

// ---------------------------------------------------------------------------
// Buttons

/// The message that a pressed button stands for; `facts` is what the settings are to
/// show, and `custom` the palette file's palette, if it can be read.
pub open spec fn meant(press: Press, facts: SettingsFacts, custom: Option<Palette>) -> Message {
    match press {
        Press::LoginSubmitted => Message::LoginSubmitted,
        Press::RoomSelected(room_id) => Message::Session(SessionMessage::RoomSelected(room_id)),
        Press::SendMessage => Message::Session(SessionMessage::SendMessage),
        Press::AcceptVerification => Message::Session(SessionMessage::AcceptVerification),
        Press::ConfirmVerification => Message::Session(SessionMessage::ConfirmVerification),
        Press::CancelVerification => Message::Session(SessionMessage::CancelVerification),
        Press::ToggleSettings => Message::Session(SessionMessage::ToggleSettings(facts)),
        Press::ThemeChosen(choice) => Message::ThemeChosen { choice, custom },
        Press::LogOut => Message::LogOut,
        Press::PlaceCall => Message::Session(SessionMessage::PlaceCall),
        Press::AcceptCall => Message::Session(SessionMessage::AcceptCall),
        Press::HangUp => Message::Session(SessionMessage::HangUp),
        Press::ToggleMute => Message::Session(SessionMessage::ToggleMute),
        Press::ToggleDeafen => Message::Session(SessionMessage::ToggleDeafen),
        Press::SetupBackup => Message::Session(SessionMessage::SetupBackup),
        Press::RestoreBackup => Message::Session(SessionMessage::RestoreBackup),
    }
}

/// The message that a pressed button stands for.
pub fn message_of(press: Press, facts: SettingsFacts, custom: Option<Palette>) -> (r: Message)
    ensures
        r == meant(press, facts, custom),
{
    match press {
        Press::LoginSubmitted => Message::LoginSubmitted,
        Press::RoomSelected(room_id) => Message::Session(SessionMessage::RoomSelected(room_id)),
        Press::SendMessage => Message::Session(SessionMessage::SendMessage),
        Press::AcceptVerification => Message::Session(SessionMessage::AcceptVerification),
        Press::ConfirmVerification => Message::Session(SessionMessage::ConfirmVerification),
        Press::CancelVerification => Message::Session(SessionMessage::CancelVerification),
        Press::ToggleSettings => Message::Session(SessionMessage::ToggleSettings(facts)),
        Press::ThemeChosen(choice) => Message::ThemeChosen { choice, custom },
        Press::LogOut => Message::LogOut,
        Press::PlaceCall => Message::Session(SessionMessage::PlaceCall),
        Press::AcceptCall => Message::Session(SessionMessage::AcceptCall),
        Press::HangUp => Message::Session(SessionMessage::HangUp),
        Press::ToggleMute => Message::Session(SessionMessage::ToggleMute),
        Press::ToggleDeafen => Message::Session(SessionMessage::ToggleDeafen),
        Press::SetupBackup => Message::Session(SessionMessage::SetupBackup),
        Press::RestoreBackup => Message::Session(SessionMessage::RestoreBackup),
    }
}

// ---------------------------------------------------------------------------
// The whole frontend

/// The frontend has just entered a session: a fresh logged-in screen, with the
/// rooms, the profile, the key backup and the update stream asked for.
pub open spec fn entered(a: App, b: App, cmds: Seq<Command>) -> bool {
    &&& b == (App { screen: b.screen, ..a })
    &&& b.screen matches Screen::LoggedIn(session)
    &&& session.is_fresh()
    &&& cmds == seq![
        Command::LoadRooms,
        Command::LoadProfile,
        Command::EnsureBackup,
        Command::WatchUpdates,
    ]
}

/// What [`update`] does on a message: `a` before it, `b` after it, `cmds` the work
/// it hands out.
pub open spec fn update_post(a: App, message: Message, b: App, cmds: Seq<Command>) -> bool {
    match message {
        Message::RestoreFinished(Ok(())) => entered(a, b, cmds),
        Message::RestoreFinished(Err(err)) => {
            &&& b == (App { screen: b.screen, ..a })
            &&& b.screen matches Screen::LoggedOut(form)
            &&& form.is_blank()
            &&& says(form.error, "Session expired, please log in again ("@ + err@ + ")"@)
            &&& cmds.len() == 0
        },
        Message::HomeserverChanged(value) => {
            &&& b == (App {
                screen: match a.screen {
                    Screen::LoggedOut(form) => Screen::LoggedOut(
                        LoginForm { homeserver: value, ..form },
                    ),
                    screen => screen,
                },
                ..a
            })
            &&& cmds.len() == 0
        },
        Message::UsernameChanged(value) => {
            &&& b == (App {
                screen: match a.screen {
                    Screen::LoggedOut(form) => Screen::LoggedOut(
                        LoginForm { username: value, ..form },
                    ),
                    screen => screen,
                },
                ..a
            })
            &&& cmds.len() == 0
        },
        Message::PasswordChanged(value) => {
            &&& b == (App {
                screen: match a.screen {
                    Screen::LoggedOut(form) => Screen::LoggedOut(
                        LoginForm { password: value, ..form },
                    ),
                    screen => screen,
                },
                ..a
            })
            &&& cmds.len() == 0
        },
        Message::LoginSubmitted => match a.screen {
            Screen::LoggedOut(form) => {
                &&& b == (App { screen: Screen::LoggingIn(form), ..a })
                &&& cmds == seq![
                    Command::LogIn {
                        homeserver: form.homeserver,
                        username: form.username,
                        password: form.password,
                    },
                ]
            },
            _ => b == a && cmds.len() == 0,
        },
        Message::LoginFinished(Ok(())) => entered(a, b, cmds),
        // What was typed stays, so that the user can correct it.
        Message::LoginFinished(Err(err)) => {
            &&& b == (App { screen: b.screen, ..a })
            &&& b.screen matches Screen::LoggedOut(form)
            &&& match a.screen {
                Screen::LoggingIn(typed) => form == (LoginForm { error: Some(err), ..typed }),
                _ => form.is_blank() && form.error == Some(err),
            }
            &&& cmds.len() == 0
        },
        Message::ThemeChosen { choice, custom } => {
            &&& b == (App {
                palette: b.palette,
                theme_choice: choice,
                widget_theme: b.widget_theme,
                ..a
            })
            &&& wears_choice(b, custom)
            &&& cmds.len() == 1
            &&& cmds[0] matches Command::SaveChoice(config)
            &&& theme::persists(config, choice@)
        },
        Message::LogOut => {
            &&& b == (App { screen: b.screen, ..a })
            &&& b.screen matches Screen::LoggedOut(form)
            &&& form.is_blank()
            &&& form.error is None
            &&& cmds == if a.screen is LoggedIn {
                seq![Command::ForgetSession]
            } else {
                Seq::empty()
            }
        },
        Message::Tick => b == a && cmds == seq![Command::AdvanceRain],
        Message::Session(message) => match a.screen {
            Screen::LoggedIn(s) => {
                &&& b.screen matches Screen::LoggedIn(t)
                &&& b == (App { screen: Screen::LoggedIn(t), ..a })
                &&& session_post(s, message, t, cmds)
            },
            _ => b == a && cmds.len() == 0,
        },
    }
}

/// Palette and widgets are those of the theme choice; `custom` is the palette
/// file's palette, if it can be read.
pub open spec fn wears_choice(app: App, custom: Option<Palette>) -> bool {
    &&& app.palette.wf()
    &&& theme::is_choice(app.palette, app.theme_choice@, custom)
    &&& app.widget_theme.wears(app.palette)
}

/// What [`boot`] does: `app` is the frontend as it starts, `cmds` the work it hands out.
pub open spec fn boot_post(
    config: Option<Config>,
    custom: Option<Palette>,
    has_saved_session: bool,
    app: App,
    cmds: Seq<Command>,
) -> bool {
    &&& app.theme_choice@ == theme::chosen(config)
    &&& wears_choice(app, custom)
    &&& if has_saved_session {
        app.screen is Booting && cmds == seq![Command::RestoreSession]
    } else {
        &&& app.screen matches Screen::LoggedOut(form)
        &&& form.is_blank()
        &&& form.error is None
        &&& cmds.len() == 0
    }
}

/// The frontend as it starts: with the persisted theme, restoring the saved
/// session if there is one and asking for a login if there is none.
pub fn boot(config: Option<Config>, custom: Option<Palette>, has_saved_session: bool) -> (r: (
    App,
    Vec<Command>,
))
    ensures
        boot_post(config, custom, has_saved_session, r.0, r.1@),
{
    let theme_choice = theme::load_choice(config);
    let palette = theme::palette_for_choice(theme_choice.as_str(), custom);
    let widget_theme = palette.to_iced_theme();
    let mut cmds: Vec<Command> = Vec::new();
    let screen = if has_saved_session {
        cmds.push(Command::RestoreSession);
        Screen::Booting
    } else {
        Screen::LoggedOut(LoginForm::default())
    };
    (App { palette, theme_choice, widget_theme, screen }, cmds)
}

/// Enters the logged-in screen and kicks off the room list load plus the
/// push-update stream.
pub fn enter_session(state: &mut App) -> (cmds: Vec<Command>)
    ensures
        entered(*old(state), *final(state), cmds@),
{
    state.screen = Screen::LoggedIn(SessionState::new());
    let mut cmds: Vec<Command> = Vec::new();
    cmds.push(Command::LoadRooms);
    cmds.push(Command::LoadProfile);
    cmds.push(Command::EnsureBackup);
    cmds.push(Command::WatchUpdates);
    assert(cmds@ =~= seq![
        Command::LoadRooms,
        Command::LoadProfile,
        Command::EnsureBackup,
        Command::WatchUpdates,
    ]);
    cmds
}

/// Takes in a message.
pub fn update(state: &mut App, message: Message) -> (cmds: Vec<Command>)
    ensures
        update_post(*old(state), message, *final(state), cmds@),
{
    let mut cmds: Vec<Command> = Vec::new();
    match message {
        Message::RestoreFinished(Ok(())) => {
            return enter_session(state);
        },
        Message::RestoreFinished(Err(err)) => {
            let mut form = LoginForm::default();
            form.error = Some(
                text::concat3("Session expired, please log in again (", err.as_str(), ")"),
            );
            state.screen = Screen::LoggedOut(form);
        },
        Message::HomeserverChanged(value) => {
            if let Screen::LoggedOut(form) = &mut state.screen {
                form.homeserver = value;
            }
        },
        Message::UsernameChanged(value) => {
            if let Screen::LoggedOut(form) = &mut state.screen {
                form.username = value;
            }
        },
        Message::PasswordChanged(value) => {
            if let Screen::LoggedOut(form) = &mut state.screen {
                form.password = value;
            }
        },
        Message::LoginSubmitted => {
            if let Screen::LoggedOut(form) = &state.screen {
                let typed = form.clone();
                cmds.push(
                    Command::LogIn {
                        homeserver: typed.homeserver.clone(),
                        username: typed.username.clone(),
                        password: typed.password.clone(),
                    },
                );
                state.screen = Screen::LoggingIn(typed);
            }
        },
        Message::LoginFinished(Ok(())) => {
            return enter_session(state);
        },
        Message::LoginFinished(Err(err)) => {
            let mut form = match &state.screen {
                Screen::LoggingIn(form) => form.clone(),
                _ => LoginForm::default(),
            };
            form.error = Some(err);
            state.screen = Screen::LoggedOut(form);
        },
        Message::ThemeChosen { choice, custom } => {
            state.palette = theme::palette_for_choice(choice.as_str(), custom);
            state.widget_theme = state.palette.to_iced_theme();
            cmds.push(Command::SaveChoice(theme::save_choice(choice.as_str())));
            state.theme_choice = choice;
        },
        Message::LogOut => {
            if let Screen::LoggedIn(_) = &state.screen {
                cmds.push(Command::ForgetSession);
            }
            state.screen = Screen::LoggedOut(LoginForm::default());
        },
        Message::Tick => {
            cmds.push(Command::AdvanceRain);
        },
        Message::Session(message) => {
            if let Screen::LoggedIn(session) = &mut state.screen {
                return session.handle(message);
            }
        },
    }
    cmds
}

// ---------------------------------------------------------------------------
// Laws

/// Toggling the microphone twice changes nothing, and leaves the call as muted as
/// it was.
pub proof fn muting_twice_undoes_itself(
    s: SessionState,
    t: SessionState,
    u: SessionState,
    first: Seq<Command>,
    second: Seq<Command>,
)
    requires
        session_post(s, SessionMessage::ToggleMute, t, first),
        session_post(t, SessionMessage::ToggleMute, u, second),
    ensures
        u == s,
        second == seq![Command::SetMuted(s.self_muted)],
{
}

/// Deafening mutes the microphone and undeafening unmutes it.
pub proof fn deafening_mutes_the_microphone(
    s: SessionState,
    t: SessionState,
    cmds: Seq<Command>,
)
    requires
        session_post(s, SessionMessage::ToggleDeafen, t, cmds),
    ensures
        t.self_deafened == !s.self_deafened,
        t.self_muted == t.self_deafened,
{
}

/// What is loaded for a room that is no longer open is ignored.
pub proof fn stale_loads_are_ignored(
    s: SessionState,
    t: SessionState,
    room_id: String,
    timeline: Result<Vec<TimelineMessage>, String>,
    members: Vec<MemberInfo>,
    cmds: Seq<Command>,
)
    requires
        s.selected_room matches Some(open) ==> open@ != room_id@,
        session_post(s, SessionMessage::TimelineLoaded(room_id, timeline), t, cmds)
            || session_post(s, SessionMessage::MembersLoaded(room_id, members), t, cmds),
    ensures
        t == s,
        cmds.len() == 0,
{
}

/// Opening a room asks for its timeline, and when that arrives it is on screen.
pub proof fn an_opened_room_gets_its_timeline(
    s: SessionState,
    t: SessionState,
    u: SessionState,
    room_id: String,
    messages: Vec<TimelineMessage>,
    first: Seq<Command>,
    second: Seq<Command>,
)
    requires
        session_post(s, SessionMessage::RoomSelected(room_id), t, first),
        session_post(t, SessionMessage::TimelineLoaded(room_id, Ok(messages)), u, second),
    ensures
        first.contains(Command::LoadTimeline { room_id, limit: TIMELINE_LIMIT }),
        t.timeline@.len() == 0,
        u.timeline == messages,
        u.selected_room == Some(room_id),
{
    assert(first[0] == (Command::LoadTimeline { room_id, limit: TIMELINE_LIMIT }));
}

/// New events in the open room reload it; those of other rooms only reload the
/// room list.
pub proof fn changes_reload_the_open_room(
    s: SessionState,
    t: SessionState,
    ids: Vec<String>,
    room_id: String,
    cmds: Seq<Command>,
)
    requires
        s.selected_room == Some(room_id),
        pushed_post(s, MeshUpdate::RoomsChanged(ids), t, cmds),
    ensures
        cmds.contains(Command::LoadRooms),
        cmds.contains(Command::LoadTimeline { room_id, limit: TIMELINE_LIMIT })
            <==> text::texts(ids@).contains(room_id@),
        t == s,
{
    assert(cmds[0] == Command::LoadRooms);
    if text::texts(ids@).contains(room_id@) {
        assert(cmds[1] == (Command::LoadTimeline { room_id, limit: TIMELINE_LIMIT }));
    }
}

/// A message is sent only to the open room, exactly as it was typed and never
/// blank; the draft is empty then. Otherwise the draft stays.
pub proof fn only_what_was_typed_is_sent(s: SessionState, t: SessionState, cmds: Seq<Command>)
    requires
        session_post(s, SessionMessage::SendMessage, t, cmds),
    ensures
        forall|i: int|
            0 <= i < cmds.len() ==> (#[trigger] cmds[i] matches Command::Send { room_id, body }
                && s.selected_room == Some(room_id) && body == s.message_draft
                && !text::is_blank(body@)),
        cmds.len() > 0 ==> t.message_draft@.len() == 0,
        cmds.len() == 0 ==> t == s,
        cmds.len() <= 1,
{
}

/// An incoming call does not clobber a call that is on screen, and no second one
/// can be placed meanwhile.
pub proof fn a_call_on_screen_stays(
    s: SessionState,
    t: SessionState,
    call_id: String,
    room_id: String,
    caller: crate::ids::UserId,
    cmds: Seq<Command>,
)
    requires
        s.call is Some,
        pushed_post(s, MeshUpdate::IncomingCall { call_id, room_id, caller }, t, cmds)
            || session_post(s, SessionMessage::PlaceCall, t, cmds),
    ensures
        t == s,
        cmds.len() == 0,
{
}

/// A call on screen follows the news of it: it connects, it is live, it is gone
/// with the reason.
pub proof fn a_call_on_screen_follows_its_news(
    s: SessionState,
    connecting: SessionState,
    connected: SessionState,
    over: SessionState,
    call_id: String,
    reason: String,
    cmds: Seq<Command>,
    more: Seq<Command>,
    last: Seq<Command>,
)
    requires
        s.call matches Some(ui) && ui.call_id@ == call_id@,
        pushed_post(s, MeshUpdate::CallConnecting { call_id }, connecting, cmds),
        pushed_post(connecting, MeshUpdate::CallConnected { call_id }, connected, more),
        pushed_post(connected, MeshUpdate::CallEnded { call_id, reason }, over, last),
    ensures
        connecting.call matches Some(ui) && ui.state == CallUiState::Connecting,
        connected.call matches Some(ui) && ui.state == CallUiState::Connected,
        over.call is None,
        over.status matches Some(said) && said@ == "Call ended: "@ + reason@,
{
}

/// A call that the user places is followed on screen like any other: it rings, it
/// connects, it is live, and it is gone with the reason.
pub proof fn a_placed_call_follows_its_news(
    s: SessionState,
    placed: SessionState,
    connecting: SessionState,
    connected: SessionState,
    over: SessionState,
    call_id: String,
    reason: String,
    first: Seq<Command>,
    second: Seq<Command>,
    third: Seq<Command>,
    fourth: Seq<Command>,
)
    requires
        s.call is None,
        s.selected_room is Some,
        session_post(s, SessionMessage::PlaceCall, placed, first),
        pushed_post(placed, MeshUpdate::CallConnecting { call_id }, connecting, second),
        pushed_post(connecting, MeshUpdate::CallConnected { call_id }, connected, third),
        pushed_post(connected, MeshUpdate::CallEnded { call_id, reason }, over, fourth),
    ensures
        placed.call matches Some(ui) && ui.state == CallUiState::OutgoingRinging,
        connecting.call matches Some(ui) && ui.state == CallUiState::Connecting && ui.call_id
            == call_id,
        connected.call matches Some(ui) && ui.state == CallUiState::Connected && ui.peer
            == (placed.call->0).peer,
        over.call is None,
        over.status matches Some(said) && said@ == "Call ended: "@ + reason@,
{
}

/// A verification that is asked for comes on screen, and its end takes it off again:
/// done, cancelled by the other side or by the user.
pub proof fn a_verification_comes_and_goes(
    s: SessionState,
    asked: SessionState,
    over: SessionState,
    user_id: crate::ids::UserId,
    flow_id: String,
    reason: String,
    first: Seq<Command>,
    second: Seq<Command>,
)
    requires
        pushed_post(s, MeshUpdate::VerificationRequested { user_id, flow_id }, asked, first),
        pushed_post(asked, MeshUpdate::VerificationDone { flow_id }, over, second) || pushed_post(
            asked,
            MeshUpdate::VerificationCancelled { flow_id, reason },
            over,
            second,
        ) || session_post(asked, SessionMessage::CancelVerification, over, second),
    ensures
        asked.verification matches Some(prompt) && prompt.flow_id == flow_id && prompt.user_id
            == user_id,
        over.verification is None,
{
}

/// News of a call that is not on screen does not touch the one that is.
pub proof fn news_of_other_calls_is_ignored(
    s: SessionState,
    t: SessionState,
    call_id: String,
    reason: String,
    cmds: Seq<Command>,
)
    requires
        s.call matches Some(ui) ==> ui.call_id@ != call_id@,
        s.call matches Some(ui) ==> !(ui.state is OutgoingRinging) || ui.call_id@.len() > 0,
        pushed_post(s, MeshUpdate::CallConnecting { call_id }, t, cmds) || pushed_post(
            s,
            MeshUpdate::CallConnected { call_id },
            t,
            cmds,
        ) || pushed_post(s, MeshUpdate::CallEnded { call_id, reason }, t, cmds),
    ensures
        t == s,
{
}

/// News of a verification that is not on screen does not touch the one that is.
pub proof fn news_of_other_verifications_is_ignored(
    s: SessionState,
    t: SessionState,
    flow_id: String,
    emojis: Vec<crate::events::SasEmoji>,
    reason: String,
    cmds: Seq<Command>,
)
    requires
        s.verification matches Some(prompt) ==> prompt.flow_id@ != flow_id@,
        pushed_post(s, MeshUpdate::VerificationEmojis { flow_id, emojis }, t, cmds) || pushed_post(
            s,
            MeshUpdate::VerificationDone { flow_id },
            t,
            cmds,
        ) || pushed_post(s, MeshUpdate::VerificationCancelled { flow_id, reason }, t, cmds),
    ensures
        t == s,
{
}

/// An incoming call can be accepted while it rings, and only then.
pub proof fn only_a_ringing_call_is_accepted(
    s: SessionState,
    t: SessionState,
    cmds: Seq<Command>,
)
    requires
        session_post(s, SessionMessage::AcceptCall, t, cmds),
    ensures
        cmds.contains(Command::AcceptCall) <==> (s.call matches Some(ui) && ui.state
            == CallUiState::IncomingRinging),
{
    if s.call matches Some(ui) && ui.state == CallUiState::IncomingRinging {
        assert(cmds[0] == Command::AcceptCall);
    }
}

/// Opened settings offer the system default first in both device pickers, and
/// choosing it there asks for no device by name.
pub proof fn the_system_default_is_offered_first(
    s: SessionState,
    t: SessionState,
    facts: SettingsFacts,
    cmds: Seq<Command>,
)
    requires
        !s.show_settings,
        session_post(s, SessionMessage::ToggleSettings(facts), t, cmds),
    ensures
        t.show_settings,
        text::texts(t.input_devices@)[0] == "(System default)"@,
        text::texts(t.output_devices@)[0] == "(System default)"@,
        picked("(System default)"@) is None,
{
}

/// Opening the settings and closing them again leads back to the room, with
/// nothing else lost.
pub proof fn closing_the_settings_leads_back(
    s: SessionState,
    t: SessionState,
    u: SessionState,
    facts: SettingsFacts,
    again: SettingsFacts,
    first: Seq<Command>,
    second: Seq<Command>,
)
    requires
        !s.show_settings,
        session_post(s, SessionMessage::ToggleSettings(facts), t, first),
        session_post(t, SessionMessage::ToggleSettings(again), u, second),
    ensures
        u == (SessionState {
            backup: u.backup,
            input_devices: u.input_devices,
            output_devices: u.output_devices,
            ..s
        }),
        u.backup == (BackupUi { status: Some(facts.backup), new_key: None, ..s.backup }),
{
}

/// A fresh recovery key is shown once: leaving the settings, by closing them or by
/// opening a room, takes it away. While they are not on screen it waits for them.
pub proof fn a_recovery_key_is_shown_once(
    s: SessionState,
    t: SessionState,
    facts: SettingsFacts,
    room_id: String,
    cmds: Seq<Command>,
)
    requires
        session_post(s, SessionMessage::RoomSelected(room_id), t, cmds) || session_post(
            s,
            SessionMessage::ToggleSettings(facts),
            t,
            cmds,
        ),
    ensures
        s.show_settings ==> !t.show_settings && t.backup.new_key is None,
        !s.show_settings ==> t.backup.new_key == s.backup.new_key,
{
}

/// Logging out leads to an empty login form from every screen, and forgets the
/// saved session where there is one in use.
pub proof fn logging_out_always_works(a: App, b: App, cmds: Seq<Command>)
    requires
        update_post(a, Message::LogOut, b, cmds),
    ensures
        b.screen matches Screen::LoggedOut(form) && form.is_blank() && form.error is None,
        cmds.contains(Command::ForgetSession) <==> a.screen is LoggedIn,
{
    if a.screen is LoggedIn {
        assert(cmds[0] == Command::ForgetSession);
    }
}

/// A failed login gives the form back as it was typed, with the reason.
pub proof fn a_failed_login_keeps_the_form(
    a: App,
    b: App,
    c: App,
    err: String,
    first: Seq<Command>,
    second: Seq<Command>,
)
    requires
        a.screen is LoggedOut,
        update_post(a, Message::LoginSubmitted, b, first),
        update_post(b, Message::LoginFinished(Err(err)), c, second),
    ensures
        c.screen matches Screen::LoggedOut(form) && form == (LoginForm {
            error: Some(err),
            ..a.screen->LoggedOut_0
        }),
{
}

/// While a login runs, sending the form again does nothing.
pub proof fn a_running_login_is_not_repeated(a: App, b: App, cmds: Seq<Command>)
    requires
        a.screen is LoggingIn,
        update_post(a, Message::LoginSubmitted, b, cmds),
    ensures
        b == a,
        cmds.len() == 0,
{
}

/// What matters on the logged-in screen only does nothing elsewhere.
pub proof fn session_messages_need_a_session(
    a: App,
    message: SessionMessage,
    b: App,
    cmds: Seq<Command>,
)
    requires
        !(a.screen is LoggedIn),
        update_post(a, Message::Session(message), b, cmds),
    ensures
        b == a,
        cmds.len() == 0,
{
}

/// Whatever happens, every text of the palette names a color and the widgets wear
/// the palette.
pub proof fn the_widgets_wear_the_palette(a: App, message: Message, b: App, cmds: Seq<Command>)
    requires
        a.palette.wf(),
        a.widget_theme.wears(a.palette),
        update_post(a, message, b, cmds),
    ensures
        b.palette.wf(),
        b.widget_theme.wears(b.palette),
{
}

/// A theme that was chosen is back after a restart: the frontend that boots with
/// what was persisted has the same choice.
pub proof fn a_chosen_theme_is_back_after_a_restart(
    a: App,
    b: App,
    choice: String,
    custom: Option<Palette>,
    cmds: Seq<Command>,
)
    requires
        update_post(a, Message::ThemeChosen { choice, custom }, b, cmds),
    ensures
        cmds[0] matches Command::SaveChoice(config) && theme::chosen(Some(config))
            == b.theme_choice@,
{
}

/// Every message touches its own part of the session and leaves the rest alone: the list
/// of rooms changes only when rooms are loaded, the draft only when it is typed or sent,
/// and so on.
pub proof fn messages_touch_their_own_part(
    s: SessionState,
    message: SessionMessage,
    t: SessionState,
    cmds: Seq<Command>,
)
    requires
        session_post(s, message, t, cmds),
    ensures
        t.rooms != s.rooms ==> message is RoomsLoaded,
        t.selected_room != s.selected_room ==> message is RoomSelected,
        t.timeline != s.timeline ==> message is RoomSelected || message is TimelineLoaded,
        t.members != s.members ==> message is RoomSelected || message is MembersLoaded,
        t.message_draft != s.message_draft ==> message is DraftChanged || message is SendMessage,
        t.verification != s.verification ==> message is Update || message is AcceptVerification
            || message is ConfirmVerification || message is CancelVerification || message
            is VerificationActionFinished,
        t.show_settings != s.show_settings ==> message is ToggleSettings || message
            is RoomSelected,
        t.call != s.call ==> message is Update || message is PlaceCall || message is HangUp
            || message is CallActionFinished,
        t.my_profile != s.my_profile ==> message is ProfileLoaded,
        t.self_muted != s.self_muted ==> message is ToggleMute || message is ToggleDeafen,
        t.self_deafened != s.self_deafened ==> message is ToggleDeafen,
        t.backup != s.backup ==> message is ToggleSettings || message is RoomSelected || message
            is SetupBackup || message is BackupSetupFinished || message is RecoveryKeyInput
            || message is RestoreBackup || message is BackupRestoreFinished || message
            is EnsureBackupFinished,
        t.input_devices != s.input_devices ==> message is ToggleSettings,
        t.output_devices != s.output_devices ==> message is ToggleSettings,
        t.selected_input != s.selected_input ==> message is InputDeviceSelected,
        t.selected_output != s.selected_output ==> message is OutputDeviceSelected,
        t.status != s.status ==> message is RoomSelected || message is TimelineLoaded || message
            is Update || message is MessageSent || message is VerificationActionFinished || message
            is CallActionFinished || message is EnsureBackupFinished,
{
}

/// What the client core pushes touches the call, the verification and the status line and
/// nothing else: calls change by news of calls, verifications by news of verifications.
pub proof fn pushed_news_touch_their_own_part(
    s: SessionState,
    update: MeshUpdate,
    t: SessionState,
    cmds: Seq<Command>,
)
    requires
        pushed_post(s, update, t, cmds),
    ensures
        t == (SessionState {
            call: t.call,
            verification: t.verification,
            status: t.status,
            ..s
        }),
        t.call != s.call ==> update is IncomingCall || update is CallConnecting || update
            is CallConnected || update is CallEnded,
        t.verification != s.verification ==> update is VerificationRequested || update
            is VerificationEmojis || update is VerificationDone || update is VerificationCancelled,
        t.status != s.status ==> update is VerificationDone || update is VerificationCancelled
            || update is CallEnded,
{
}

/// `command` is something that this message asks for.
pub open spec fn asks_for(message: SessionMessage, command: Command) -> bool {
    match command {
        Command::LoadRooms => message is Update,
        Command::LoadTimeline { .. } => message is RoomSelected || message is Update || message
            is BackupRestoreFinished,
        Command::LoadMembers { .. } => message is RoomSelected || message is Update,
        Command::Send { .. } => message is SendMessage,
        Command::Accept(_) => message is AcceptVerification,
        Command::Confirm(_) => message is ConfirmVerification,
        Command::Cancel(_) => message is CancelVerification,
        Command::PlaceCall { .. } => message is PlaceCall,
        Command::AcceptCall => message is AcceptCall,
        Command::HangUp => message is HangUp,
        Command::SetMuted(_) => message is ToggleMute,
        Command::SetDeafened(_) => message is ToggleDeafen,
        Command::CarryAudioState { .. } => message is Update,
        Command::EnableBackup => message is SetupBackup,
        Command::RestoreBackup { .. } => message is RestoreBackup,
        Command::SetAudioDevices { .. } => message is InputDeviceSelected || message
            is OutputDeviceSelected,
        _ => false,
    }
}

/// No work is handed out but what the message asks for: nothing is sent, called, hung up
/// or verified on any other occasion.
pub proof fn only_what_is_asked_for_is_done(
    s: SessionState,
    message: SessionMessage,
    t: SessionState,
    cmds: Seq<Command>,
    i: int,
)
    requires
        session_post(s, message, t, cmds),
        0 <= i < cmds.len(),
    ensures
        asks_for(message, cmds[i]),
{
}

/// What is loaded is shown: the rooms, the user's own identity, and of the open room the
/// messages and the members. A failed load of messages says so and keeps what is there.
pub proof fn what_is_loaded_is_shown(
    s: SessionState,
    t: SessionState,
    rooms: Vec<RoomSummary>,
    profile: MyProfile,
    room_id: String,
    messages: Vec<TimelineMessage>,
    members: Vec<MemberInfo>,
    err: String,
    cmds: Seq<Command>,
)
    requires
        s.selected_room matches Some(open) && open@ == room_id@,
    ensures
        session_post(s, SessionMessage::RoomsLoaded(rooms), t, cmds) ==> t.rooms == rooms,
        session_post(s, SessionMessage::ProfileLoaded(profile), t, cmds) ==> t.my_profile == Some(
            profile,
        ),
        session_post(s, SessionMessage::TimelineLoaded(room_id, Ok(messages)), t, cmds)
            ==> t.timeline == messages,
        session_post(s, SessionMessage::MembersLoaded(room_id, members), t, cmds) ==> t.members
            == members,
        session_post(s, SessionMessage::TimelineLoaded(room_id, Err(err)), t, cmds) ==> t.timeline
            == s.timeline && (t.status matches Some(said) && said@ == "Failed to load messages: "@
            + err@),
{
}

/// Opening a room opens that room and no other, empty until its messages and members come;
/// both are asked for, fifty messages of them, and the settings are left.
pub proof fn an_opened_room_is_loaded(
    s: SessionState,
    t: SessionState,
    room_id: String,
    cmds: Seq<Command>,
)
    requires
        session_post(s, SessionMessage::RoomSelected(room_id), t, cmds),
    ensures
        t.selected_room == Some(room_id),
        t.timeline@.len() == 0 && t.members@.len() == 0,
        t.status is None && !t.show_settings,
        cmds.len() == 2,
        cmds[0] == (Command::LoadTimeline { room_id, limit: 50 }),
        cmds[1] == (Command::LoadMembers { room_id }),
{
}

/// What is typed is what is sent: a draft with anything to see in it goes to the open room
/// as it was typed, and the field is empty then. A blank draft, or one with no room open,
/// is not sent and stays.
pub proof fn a_typed_message_is_sent(
    s: SessionState,
    typed: SessionState,
    sent: SessionState,
    room_id: String,
    value: String,
    at: int,
    first: Seq<Command>,
    second: Seq<Command>,
)
    requires
        s.selected_room == Some(room_id),
        0 <= at < value@.len(),
        '!' <= value@[at] <= '~',
        session_post(s, SessionMessage::DraftChanged(value), typed, first),
        session_post(typed, SessionMessage::SendMessage, sent, second),
    ensures
        typed.message_draft == value && first.len() == 0,
        second.len() == 1 && second[0] == (Command::Send { room_id, body: value }),
        sent.message_draft@.len() == 0,
{
    text::visible_characters_are_not_white(value@[at]);
    assert(!text::is_white(value@[at]));
}

/// A draft of spaces and line breaks is not sent, nor is any draft while no room is open;
/// it stays in the field.
pub proof fn a_blank_message_is_not_sent(s: SessionState, t: SessionState, cmds: Seq<Command>)
    requires
        s.selected_room is None || forall|i: int|
            0 <= i < s.message_draft@.len() ==> (#[trigger] s.message_draft@[i] == ' '
                || s.message_draft@[i] == '\n'),
        session_post(s, SessionMessage::SendMessage, t, cmds),
    ensures
        t == s,
        cmds.len() == 0,
{
    if s.selected_room is Some {
        assert forall|i: int| 0 <= i < s.message_draft@.len() implies text::is_white(
            #[trigger] s.message_draft@[i],
        ) by {
            text::visible_characters_are_not_white(s.message_draft@[i]);
        }
        assert(text::is_blank(s.message_draft@));
    }
}

/// Whether a message was sent is told: nothing where it was, the reason where it was not.
pub proof fn a_failed_message_is_told(
    s: SessionState,
    t: SessionState,
    result: Result<(), String>,
    cmds: Seq<Command>,
)
    requires
        session_post(s, SessionMessage::MessageSent(result), t, cmds),
    ensures
        result is Ok ==> t.status is None,
        result matches Err(err) ==> (t.status matches Some(said) && said@ == "Failed to send: "@
            + err@),
        cmds.len() == 0,
{
}

/// Accepting, confirming and cancelling are about the verification on screen: the command
/// names its user and its flow, and the screen moves on with it. Without one nothing
/// happens.
pub proof fn verification_buttons_are_about_the_one_on_screen(
    s: SessionState,
    t: SessionState,
    message: SessionMessage,
    cmds: Seq<Command>,
)
    requires
        message is AcceptVerification || message is ConfirmVerification || message
            is CancelVerification,
        session_post(s, message, t, cmds),
    ensures
        s.verification is None ==> t == s && cmds.len() == 0,
        s.verification matches Some(prompt) ==> cmds.len() == 1 && match cmds[0] {
            Command::Accept(about) => {
                &&& message is AcceptVerification
                &&& about.user_id == prompt.user_id && about.flow_id == prompt.flow_id
                &&& t.verification matches Some(now)
                &&& now.stage is Accepted && now.flow_id == prompt.flow_id && now.user_id
                    == prompt.user_id
            },
            Command::Confirm(about) => {
                &&& message is ConfirmVerification
                &&& about.user_id == prompt.user_id && about.flow_id == prompt.flow_id
                &&& t.verification matches Some(now)
                &&& now.stage is Confirmed && now.flow_id == prompt.flow_id && now.user_id
                    == prompt.user_id
            },
            Command::Cancel(about) => {
                &&& message is CancelVerification
                &&& about.user_id == prompt.user_id && about.flow_id == prompt.flow_id
                &&& t.verification is None
            },
            _ => false,
        },
{
}

/// A verification comes on screen with who asked and under its flow; the emojis of that
/// flow come on screen as they were negotiated; its end is told, with the reason if it was
/// cancelled.
pub proof fn a_verification_is_followed_on_screen(
    s: SessionState,
    asked: SessionState,
    shown: SessionState,
    done: SessionState,
    cancelled: SessionState,
    user_id: crate::ids::UserId,
    flow_id: String,
    emojis: Vec<crate::events::SasEmoji>,
    reason: String,
    a: Seq<Command>,
    b: Seq<Command>,
    c: Seq<Command>,
    d: Seq<Command>,
)
    requires
        pushed_post(s, MeshUpdate::VerificationRequested { user_id, flow_id }, asked, a),
        pushed_post(asked, MeshUpdate::VerificationEmojis { flow_id, emojis }, shown, b),
        pushed_post(shown, MeshUpdate::VerificationDone { flow_id }, done, c),
        pushed_post(shown, MeshUpdate::VerificationCancelled { flow_id, reason }, cancelled, d),
    ensures
        asked.verification == Some(
            VerificationPrompt { user_id, flow_id, stage: VerifyStage::Requested },
        ),
        shown.verification == Some(
            VerificationPrompt { user_id, flow_id, stage: VerifyStage::Emojis(emojis) },
        ),
        done.verification is None && (done.status matches Some(said) && said@
            == "Device verified successfully."@),
        cancelled.verification is None && (cancelled.status matches Some(said) && said@
            == "Verification cancelled: "@ + reason@),
        a.len() == 0 && b.len() == 0 && c.len() == 0 && d.len() == 0,
{
}

/// A verification step that fails takes the verification off the screen and says why; one
/// that works changes nothing.
pub proof fn a_failed_verification_step_is_told(
    s: SessionState,
    t: SessionState,
    result: Result<(), String>,
    cmds: Seq<Command>,
)
    requires
        session_post(s, SessionMessage::VerificationActionFinished(result), t, cmds),
    ensures
        result is Ok ==> t == s,
        result matches Err(err) ==> t.verification is None && (t.status matches Some(said) && said@
            == "Verification failed: "@ + err@),
        cmds.len() == 0,
{
}

/// Opening the settings shows the state of the backup, and lists behind the system default
/// every microphone and every speaker there is, in their order.
pub proof fn opened_settings_show_what_there_is(
    s: SessionState,
    t: SessionState,
    facts: SettingsFacts,
    cmds: Seq<Command>,
)
    requires
        !s.show_settings,
        session_post(s, SessionMessage::ToggleSettings(facts), t, cmds),
    ensures
        t.show_settings,
        t.backup.status == Some(facts.backup),
        t.input_devices@.len() == facts.input_devices@.len() + 1,
        t.output_devices@.len() == facts.output_devices@.len() + 1,
        t.input_devices@[0]@ == DEFAULT_DEVICE@ && t.output_devices@[0]@ == DEFAULT_DEVICE@,
        forall|i: int|
            0 <= i < facts.input_devices@.len() ==> t.input_devices@[i + 1]@ == (
            #[trigger] facts.input_devices@[i])@,
        forall|i: int|
            0 <= i < facts.output_devices@.len() ==> t.output_devices@[i + 1]@ == (
            #[trigger] facts.output_devices@[i])@,
{
    lemma_picker_lists(t.input_devices@, facts.input_devices@);
    lemma_picker_lists(t.output_devices@, facts.output_devices@);
}

proof fn lemma_picker_lists(listed: Seq<String>, devices: Seq<String>)
    requires
        text::texts(listed) == picker(devices),
    ensures
        listed.len() == devices.len() + 1,
        listed[0]@ == DEFAULT_DEVICE@,
        forall|i: int| 0 <= i < devices.len() ==> listed[i + 1]@ == (#[trigger] devices[i])@,
{
    text::texts_are_those_of_the_strings(listed, None);
    text::texts_are_those_of_the_strings(devices, None);
    assert(text::texts(listed)[0] == listed[0]@);
    assert forall|i: int| 0 <= i < devices.len() implies listed[i + 1]@ == (
    #[trigger] devices[i])@ by {
        assert(text::texts(listed)[i + 1] == listed[i + 1]@);
        assert(text::texts(devices)[i] == devices[i]@);
    }
}

/// The device is the one picked: none by name for the system default.
pub open spec fn is_picked(device: Option<String>, selection: Seq<char>) -> bool {
    &&& selection == DEFAULT_DEVICE@ ==> device is None
    &&& selection != DEFAULT_DEVICE@ ==> (device matches Some(name) && name@ == selection)
}

/// A device that is picked is used: both devices are set, the picked one by its name, and
/// the other one as it was picked before.
pub proof fn a_picked_device_is_used(
    s: SessionState,
    t: SessionState,
    u: SessionState,
    value: String,
    first: Seq<Command>,
    second: Seq<Command>,
)
    requires
        session_post(s, SessionMessage::InputDeviceSelected(value), t, first),
        session_post(s, SessionMessage::OutputDeviceSelected(value), u, second),
    ensures
        t.selected_input == value && t.selected_output == s.selected_output,
        u.selected_output == value && u.selected_input == s.selected_input,
        first.len() == 1 && (first[0] matches Command::SetAudioDevices { input, output }
            && is_picked(input, value@) && is_picked(output, s.selected_output@)),
        second.len() == 1 && (second[0] matches Command::SetAudioDevices { input, output }
            && is_picked(input, s.selected_input@) && is_picked(output, value@)),
{
}

/// A call is placed in the open room, exactly where there is one and no call: it rings
/// under the name of the room.
pub proof fn a_call_is_placed_in_the_open_room(
    s: SessionState,
    t: SessionState,
    cmds: Seq<Command>,
)
    requires
        session_post(s, SessionMessage::PlaceCall, t, cmds),
    ensures
        cmds.len() > 0 <==> s.call is None && s.selected_room is Some,
        cmds.len() == 0 ==> t == s,
        cmds.len() > 0 ==> cmds.len() == 1 && (s.selected_room matches Some(room_id) && cmds[0]
            == (Command::PlaceCall { room_id })),
        cmds.len() > 0 ==> (t.call matches Some(ui) && ui.state is OutgoingRinging
            && ui.call_id@.len() == 0),
        forall|i: int|
            cmds.len() > 0 && 0 <= i < s.rooms@.len() && (#[trigger] s.rooms@[i]).id@ == (
            s.selected_room->0)@ && (forall|k: int|
                0 <= k < i ==> (#[trigger] s.rooms@[k]).id@ != (s.selected_room->0)@) ==> (
            t.call->0).peer@ == s.rooms@[i].name@,
{
    if cmds.len() > 0 {
        let id = (s.selected_room->0)@;
        assert forall|i: int|
            0 <= i < s.rooms@.len() && (#[trigger] s.rooms@[i]).id@ == id && (forall|k: int|
                0 <= k < i ==> (#[trigger] s.rooms@[k]).id@ != id) implies (t.call->0).peer@
            == s.rooms@[i].name@ by {
            client::the_first_room_is_found(s.rooms@, i);
        }
    }
}

/// An incoming call rings on screen under the caller's localpart while there is no other.
pub proof fn an_incoming_call_rings_on_screen(
    s: SessionState,
    t: SessionState,
    call_id: String,
    room_id: String,
    caller: crate::ids::UserId,
    cmds: Seq<Command>,
)
    requires
        s.call is None,
        pushed_post(s, MeshUpdate::IncomingCall { call_id, room_id, caller }, t, cmds),
    ensures
        t.call matches Some(ui) && ui.call_id == call_id && ui.peer@ == crate::ids::local_part(
            caller@,
        ) && ui.state is IncomingRinging,
        cmds.len() == 0,
{
}

/// Hanging up takes the call off the screen and ends it; a call step that fails takes it
/// off too and says why.
pub proof fn a_call_can_be_ended(
    s: SessionState,
    over: SessionState,
    failed: SessionState,
    result: Result<(), String>,
    first: Seq<Command>,
    second: Seq<Command>,
)
    requires
        session_post(s, SessionMessage::HangUp, over, first),
        session_post(s, SessionMessage::CallActionFinished(result), failed, second),
    ensures
        over.call is None && first.len() == 1 && first[0] == Command::HangUp,
        result is Ok ==> failed == s,
        result matches Err(err) ==> failed.call is None && (failed.status matches Some(said)
            && said@ == "Call failed: "@ + err@),
        second.len() == 0,
{
}

/// The call is told what the user chose: muting mutes it, deafening deafens it, and a call
/// that connects is handed the state the user is in.
pub proof fn the_call_is_told_what_the_user_chose(
    s: SessionState,
    muted: SessionState,
    deafened: SessionState,
    connecting: SessionState,
    call_id: String,
    a: Seq<Command>,
    b: Seq<Command>,
    c: Seq<Command>,
)
    requires
        session_post(s, SessionMessage::ToggleMute, muted, a),
        session_post(s, SessionMessage::ToggleDeafen, deafened, b),
        pushed_post(s, MeshUpdate::CallConnecting { call_id }, connecting, c),
    ensures
        muted.self_muted == !s.self_muted && muted.self_deafened == s.self_deafened,
        a.len() == 1 && a[0] == Command::SetMuted(muted.self_muted),
        deafened.self_deafened == !s.self_deafened && deafened.self_muted
            == deafened.self_deafened,
        b.len() == 1 && b[0] == Command::SetDeafened(deafened.self_deafened),
        c.len() == 1 && c[0] == (Command::CarryAudioState {
            muted: s.self_muted,
            deafened: s.self_deafened,
        }),
{
}

/// Setting up the backup is busy until it is finished. A key that was made is shown, with
/// the status the backup has then; a failure says why and makes none.
pub proof fn a_backup_that_is_set_up_shows_its_key(
    s: SessionState,
    busy: SessionState,
    done: SessionState,
    result: Result<String, String>,
    status: BackupStatus,
    first: Seq<Command>,
    second: Seq<Command>,
)
    requires
        session_post(s, SessionMessage::SetupBackup, busy, first),
        session_post(busy, SessionMessage::BackupSetupFinished(result, status), done, second),
    ensures
        busy.backup.busy && first.len() == 1 && first[0] == Command::EnableBackup,
        busy.backup.message matches Some(said) && said@ == "Setting up Secure Backup…"@,
        result is Ok ==> (done.backup.message matches Some(said) && said@
            == "Secure Backup enabled. Save the recovery key below — it will not be shown again."@),
        busy.backup.new_key == s.backup.new_key && busy.backup.key_input == s.backup.key_input,
        !done.backup.busy && second.len() == 0,
        result matches Ok(key) ==> done.backup.new_key == Some(key) && done.backup.status == Some(
            status,
        ),
        result matches Err(err) ==> done.backup.new_key == s.backup.new_key && done.backup.status
            == s.backup.status && (done.backup.message matches Some(said) && said@
            == "Setup failed: "@ + err@),
        done.backup.key_input == s.backup.key_input,
{
}

/// Restoring the backup uses the recovery key that was typed, without the white space
/// around it, and asks for nothing where none was typed.
pub proof fn a_backup_is_restored_with_the_typed_key(
    s: SessionState,
    typed: SessionState,
    t: SessionState,
    value: String,
    first: Seq<Command>,
    second: Seq<Command>,
)
    requires
        session_post(s, SessionMessage::RecoveryKeyInput(value), typed, first),
        session_post(typed, SessionMessage::RestoreBackup, t, second),
    ensures
        typed.backup.key_input == value && first.len() == 0,
        second.len() > 0 <==> exists|i: int|
            0 <= i < value@.len() && !text::is_white(#[trigger] value@[i]),
        second.len() > 0 ==> (t.backup.message matches Some(said) && said@
            == "Restoring from backup…"@),
        second.len() > 0 ==> second.len() == 1 && t.backup.busy && (second[0]
            matches Command::RestoreBackup { recovery_key } && text::is_trim_of(
            recovery_key@,
            value@,
        )),
        second.len() == 0 ==> t == typed,
{
}

/// When a backup is restored the typed key is gone, the status is the one it has then, and
/// the open room is loaded again, so that what can be read now is shown. A failure says
/// why and keeps the key.
pub proof fn a_restored_backup_reloads_the_room(
    s: SessionState,
    t: SessionState,
    result: Result<(), String>,
    status: BackupStatus,
    cmds: Seq<Command>,
)
    requires
        session_post(s, SessionMessage::BackupRestoreFinished(result, status), t, cmds),
    ensures
        !t.backup.busy,
        result is Ok ==> t.backup.key_input@.len() == 0 && t.backup.status == Some(status) && (
        t.backup.message matches Some(said) && said@
            == "Restored from backup. Previously unreadable messages should decrypt shortly."@),
        result is Ok && s.selected_room is Some ==> cmds.len() == 1 && cmds[0]
            == (Command::LoadTimeline { room_id: s.selected_room->0, limit: 50 }),
        s.selected_room is None ==> cmds.len() == 0,
        result matches Err(err) ==> cmds.len() == 0 && t.backup.key_input == s.backup.key_input
            && t.backup.status == s.backup.status && (t.backup.message matches Some(said) && said@
            == "Restore failed: "@ + err@),
        t.backup.new_key == s.backup.new_key,
{
}

/// A backup that was enabled by itself shows its key and says so; one that was enabled
/// already is just shown as enabled, and a failure changes nothing.
pub proof fn an_automatic_backup_shows_its_key(
    s: SessionState,
    t: SessionState,
    result: Result<Option<String>, String>,
    cmds: Seq<Command>,
)
    requires
        session_post(s, SessionMessage::EnsureBackupFinished(result), t, cmds),
    ensures
        result matches Ok(Some(key)) ==> t.backup.new_key == Some(key) && t.backup.status == Some(
            BackupStatus::Enabled,
        ) && (t.status matches Some(said) && said@
            == "Secure Backup enabled — open Settings to save your recovery key."@) && (
        t.backup.message matches Some(said) && said@
            == "Secure Backup was enabled automatically. Open Settings to view and save your recovery key."@),
        result matches Ok(None) ==> t.backup.new_key == s.backup.new_key && t.backup.status == Some(
            BackupStatus::Enabled,
        ) && t.status == s.status,
        result is Err ==> t == s,
        t.backup.busy == s.backup.busy && t.backup.key_input == s.backup.key_input,
        cmds.len() == 0,
{
}

/// Changed rooms reload the list of rooms, and the open one where it is among them: its
/// messages and its members.
pub proof fn a_changed_open_room_is_reloaded(
    s: SessionState,
    t: SessionState,
    ids: Vec<String>,
    room_id: String,
    at: int,
    cmds: Seq<Command>,
)
    requires
        s.selected_room == Some(room_id),
        0 <= at < ids@.len(),
        ids@[at]@ == room_id@,
        pushed_post(s, MeshUpdate::RoomsChanged(ids), t, cmds),
    ensures
        cmds.len() == 3,
        cmds[0] == Command::LoadRooms,
        cmds[1] == (Command::LoadTimeline { room_id, limit: 50 }),
        cmds[2] == (Command::LoadMembers { room_id }),
{
    text::texts_are_those_of_the_strings(ids@, None);
    assert(text::texts(ids@)[at] == room_id@);
}

/// Where the open room is not among the changed ones only the list is loaded again.
pub proof fn other_changed_rooms_reload_the_list(
    s: SessionState,
    t: SessionState,
    ids: Vec<String>,
    cmds: Seq<Command>,
)
    requires
        forall|i: int|
            0 <= i < ids@.len() ==> (s.selected_room matches Some(open) ==> (#[trigger] ids@[i])@
                != open@),
        pushed_post(s, MeshUpdate::RoomsChanged(ids), t, cmds),
    ensures
        cmds.len() == 1 && cmds[0] == Command::LoadRooms,
        t == s,
{
    text::texts_are_those_of_the_strings(ids@, None);
    if let Some(open) = s.selected_room {
        if text::texts(ids@).contains(open@) {
            let i = choose|i: int| 0 <= i < ids@.len() && text::texts(ids@)[i] == open@;
            assert(ids@[i]@ == open@);
        }
    }
}

/// A button stands for what it is pressed for: the message names the room, the theme or
/// the settings it is about.
pub proof fn a_press_means_what_it_says(
    press: Press,
    facts: SettingsFacts,
    custom: Option<Palette>,
)
    ensures
        press matches Press::RoomSelected(room_id) ==> meant(press, facts, custom)
            == Message::Session(SessionMessage::RoomSelected(room_id)),
        press matches Press::ThemeChosen(choice) ==> meant(press, facts, custom)
            == (Message::ThemeChosen { choice, custom }),
        meant(press, facts, custom) is LoginSubmitted <==> press is LoginSubmitted,
        meant(press, facts, custom) is LogOut <==> press is LogOut,
        meant(press, facts, custom) matches Message::Session(m) ==> {
            &&& m is SendMessage <==> press is SendMessage
            &&& m is AcceptVerification <==> press is AcceptVerification
            &&& m is ConfirmVerification <==> press is ConfirmVerification
            &&& m is CancelVerification <==> press is CancelVerification
            &&& m is PlaceCall <==> press is PlaceCall
            &&& m is AcceptCall <==> press is AcceptCall
            &&& m is HangUp <==> press is HangUp
            &&& m is ToggleMute <==> press is ToggleMute
            &&& m is ToggleDeafen <==> press is ToggleDeafen
            &&& m is SetupBackup <==> press is SetupBackup
            &&& m is RestoreBackup <==> press is RestoreBackup
            &&& m == SessionMessage::ToggleSettings(facts) <==> press is ToggleSettings
        },
        meant(press, facts, custom) is Session <==> !(press is LoginSubmitted || press is LogOut
            || press is ThemeChosen),
{
}

/// Logging in uses what was typed: the homeserver, the user and the password as they stand
/// in the form when it is sent.
pub proof fn a_login_uses_what_was_typed(
    a: App,
    b: App,
    c: App,
    d: App,
    e: App,
    homeserver: String,
    username: String,
    password: String,
    first: Seq<Command>,
    second: Seq<Command>,
    third: Seq<Command>,
    cmds: Seq<Command>,
)
    requires
        a.screen is LoggedOut,
        update_post(a, Message::HomeserverChanged(homeserver), b, first),
        update_post(b, Message::UsernameChanged(username), c, second),
        update_post(c, Message::PasswordChanged(password), d, third),
        update_post(d, Message::LoginSubmitted, e, cmds),
    ensures
        first.len() == 0 && second.len() == 0 && third.len() == 0,
        cmds.len() == 1 && cmds[0] == (Command::LogIn { homeserver, username, password }),
        e.screen matches Screen::LoggingIn(form) && form.homeserver == homeserver && form.username
            == username && form.password == password,
{
}

/// A session that is entered, by logging in or by restoring, is a fresh one and asks for
/// everything it needs: the rooms, the user's identity, the backup and the updates.
pub proof fn an_entered_session_loads_itself(
    a: App,
    b: App,
    restored: bool,
    cmds: Seq<Command>,
)
    requires
        update_post(
            a,
            if restored {
                Message::RestoreFinished(Ok(()))
            } else {
                Message::LoginFinished(Ok(()))
            },
            b,
            cmds,
        ),
    ensures
        b.screen matches Screen::LoggedIn(s) && s.rooms@.len() == 0 && s.selected_room is None
            && s.call is None && !s.self_muted && !s.self_deafened,
        cmds.contains(Command::LoadRooms) && cmds.contains(Command::LoadProfile) && cmds.contains(
            Command::EnsureBackup,
        ) && cmds.contains(Command::WatchUpdates),
        cmds.len() == 4,
{
    assert(cmds[0] == Command::LoadRooms && cmds[1] == Command::LoadProfile);
    assert(cmds[2] == Command::EnsureBackup && cmds[3] == Command::WatchUpdates);
}

/// A session that cannot be restored leads to an empty login form that says why.
pub proof fn an_expired_session_asks_for_a_login(a: App, b: App, err: String, cmds: Seq<Command>)
    requires
        update_post(a, Message::RestoreFinished(Err(err)), b, cmds),
    ensures
        b.screen matches Screen::LoggedOut(form) && form.homeserver@.len() == 0
            && form.username@.len() == 0 && form.password@.len() == 0 && (form.error matches Some(
            said,
        ) && said@ == "Session expired, please log in again ("@ + err@ + ")"@),
        cmds.len() == 0,
{
}

/// Typing into the login form changes what is typed, and nothing else; it is sent only from
/// there. On any other screen neither does anything.
pub proof fn only_a_login_form_is_typed_into(
    a: App,
    message: Message,
    b: App,
    value: String,
    cmds: Seq<Command>,
)
    requires
        message == Message::HomeserverChanged(value) || message == Message::UsernameChanged(value)
            || message == Message::PasswordChanged(value) || message is LoginSubmitted,
        update_post(a, message, b, cmds),
    ensures
        !(a.screen is LoggedOut) ==> b == a && cmds.len() == 0,
        a.screen matches Screen::LoggedOut(form) ==> match b.screen {
            Screen::LoggedOut(typed) => {
                &&& typed.homeserver == if message is HomeserverChanged {
                    value
                } else {
                    form.homeserver
                }
                &&& typed.username == if message is UsernameChanged {
                    value
                } else {
                    form.username
                }
                &&& typed.password == if message is PasswordChanged {
                    value
                } else {
                    form.password
                }
                &&& typed.error == form.error
                &&& cmds.len() == 0
            },
            Screen::LoggingIn(sent) => message is LoginSubmitted && sent == form,
            _ => false,
        },
{
}

/// A login that fails shows the reason and nothing is left of the attempt but the form.
pub proof fn a_failed_login_says_why(a: App, b: App, err: String, cmds: Seq<Command>)
    requires
        update_post(a, Message::LoginFinished(Err(err)), b, cmds),
    ensures
        !(a.screen is LoggingIn) ==> (b.screen matches Screen::LoggedOut(form)
            && form.homeserver@.len() == 0 && form.username@.len() == 0 && form.password@.len()
            == 0),
        b.screen matches Screen::LoggedOut(form) && form.error == Some(err),
        cmds.len() == 0,
{
}

/// The looks change by choosing a theme only, and the screen not by that.
pub proof fn looks_change_by_choice_only(a: App, message: Message, b: App, cmds: Seq<Command>)
    requires
        update_post(a, message, b, cmds),
    ensures
        !(message is ThemeChosen) ==> b.palette == a.palette && b.theme_choice == a.theme_choice
            && b.widget_theme == a.widget_theme,
        message is ThemeChosen || message is Tick ==> b.screen == a.screen,
        message is Tick ==> b == a && cmds.len() == 1 && cmds[0] == Command::AdvanceRain,
{
}

/// A chosen theme is worn at once and persisted: a preset by its name in its own colors, the
/// custom one in those of a palette file that can be used.
pub proof fn a_chosen_theme_is_worn(
    a: App,
    b: App,
    choice: String,
    custom: Option<Palette>,
    i: int,
    cmds: Seq<Command>,
)
    requires
        0 <= i < theme::preset_names().len(),
        update_post(a, Message::ThemeChosen { choice, custom }, b, cmds),
    ensures
        b.theme_choice == choice,
        choice@ == theme::preset_names()[i] ==> b.palette.colors() == theme::preset_colors()[i],
        choice@ == "custom"@ && (custom matches Some(p) && p.wf()) ==> custom == Some(b.palette),
        b.widget_theme.text == theme::color_of(b.palette.text@),
        b.widget_theme.background == theme::color_of(b.palette.background@),
        cmds.len() == 1 && (cmds[0] matches Command::SaveChoice(config) && (config.theme
            matches Some(saved) && saved@ == choice@)),
{
    if choice@ == theme::preset_names()[i] {
        theme::preset_is_found_by_name(i, b.palette, custom);
    }
}

/// The frontend starts with the persisted theme. Where a session is saved it is restored,
/// and nothing is asked of the user; else an empty login form is shown.
pub proof fn the_frontend_starts_where_it_was_left(
    config: Option<Config>,
    custom: Option<Palette>,
    has_saved_session: bool,
    app: App,
    cmds: Seq<Command>,
)
    requires
        boot_post(config, custom, has_saved_session, app, cmds),
    ensures
        config matches Some(c) && c.theme is Some ==> text::opt_text((config->0).theme) == Some(
            app.theme_choice@,
        ),
        config is None ==> app.theme_choice@ == "custom"@,
        has_saved_session ==> app.screen is Booting && cmds.len() == 1 && cmds[0]
            == Command::RestoreSession,
        !has_saved_session ==> cmds.len() == 0 && (app.screen matches Screen::LoggedOut(form)
            && form.homeserver@.len() == 0 && form.username@.len() == 0 && form.password@.len() == 0
            && form.error is None),
        app.widget_theme.text == theme::color_of(app.palette.text@),
        app.widget_theme.background == theme::color_of(app.palette.background@),
{
}

/// A theme that was chosen looks the same after a restart: the palette that the frontend
/// boots with has the colors of the one that was worn, as long as the palette file stays.
pub proof fn a_chosen_theme_looks_the_same_after_a_restart(
    a: App,
    b: App,
    choice: String,
    custom: Option<Palette>,
    cmds: Seq<Command>,
    saved: Config,
    has_saved_session: bool,
    again: App,
    more: Seq<Command>,
)
    requires
        update_post(a, Message::ThemeChosen { choice, custom }, b, cmds),
        cmds[0] == Command::SaveChoice(saved),
        boot_post(Some(saved), custom, has_saved_session, again, more),
    ensures
        again.theme_choice@ == b.theme_choice@,
        again.palette.colors() == b.palette.colors(),
        again.widget_theme.text == b.widget_theme.text && again.widget_theme.background
            == b.widget_theme.background,
{
    theme::colors_tell_palettes_apart(again.palette, b.palette);
}

/// Logging out forgets the session and nothing of it stays on screen; the looks stay.
pub proof fn logging_out_forgets_the_session(a: App, b: App, cmds: Seq<Command>)
    requires
        update_post(a, Message::LogOut, b, cmds),
    ensures
        b.screen matches Screen::LoggedOut(form) && form.homeserver@.len() == 0
            && form.username@.len() == 0 && form.password@.len() == 0 && form.error is None,
        a.screen is LoggedIn ==> cmds.len() == 1 && cmds[0] == Command::ForgetSession,
        !(a.screen is LoggedIn) ==> cmds.len() == 0,
{
}

/// What happens on the logged-in screen happens to its session; the frontend stays there.
pub proof fn session_messages_stay_in_the_session(
    a: App,
    s: SessionState,
    message: SessionMessage,
    b: App,
    cmds: Seq<Command>,
)
    requires
        a.screen == Screen::LoggedIn(s),
        update_post(a, Message::Session(message), b, cmds),
    ensures
        b.screen matches Screen::LoggedIn(t) && session_post(s, message, t, cmds),
{
}

/// A call in a room that is not listed goes by the word for it.
pub proof fn a_call_in_an_unlisted_room_has_no_name(rooms: Seq<RoomSummary>, id: Seq<char>)
    requires
        forall|i: int| 0 <= i < rooms.len() ==> (#[trigger] rooms[i]).id@ != id,
    ensures
        call_label(rooms, id) == "call"@,
{
    client::a_room_is_found_by_its_id(rooms, id);
}

/// A call that was taken keeps the other party's name while it connects and is live.
pub proof fn a_call_keeps_its_name(
    s: SessionState,
    t: SessionState,
    call_id: String,
    live: bool,
    cmds: Seq<Command>,
)
    requires
        pushed_post(
            s,
            if live {
                MeshUpdate::CallConnected { call_id }
            } else {
                MeshUpdate::CallConnecting { call_id }
            },
            t,
            cmds,
        ),
    ensures
        t.call is Some <==> s.call is Some,
        t.call matches Some(ui) ==> ui.peer == (s.call->0).peer,
        t.verification == s.verification && t.status == s.status,
{
}

} // verus!
