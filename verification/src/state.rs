//! What the frontend remembers: the screen it shows, and on the logged-in screen
//! everything about the session.

use vstd::prelude::*;
use vstd::string::*;

use crate::client::BackupStatus;
use crate::client::MemberInfo;
use crate::client::MyProfile;
use crate::client::RoomSummary;
use crate::client::TimelineMessage;
use crate::events::SasEmoji;
use crate::ids::UserId;
use crate::theme::Palette;
use crate::theme::WidgetTheme;

verus! {

/// The whole frontend.
#[derive(Debug, PartialEq, Eq)]
pub struct App {
    pub palette: Palette,
    pub theme_choice: String,
    pub widget_theme: WidgetTheme,
    pub screen: Screen,
}

#[derive(Debug, PartialEq, Eq)]
pub enum Screen {
    Booting,
    LoggedOut(LoginForm),
    LoggingIn(LoginForm),
    LoggedIn(SessionState),
}

#[derive(Debug, PartialEq, Eq)]
pub struct LoginForm {
    pub homeserver: String,
    pub username: String,
    pub password: String,
    pub error: Option<String>,
}

impl LoginForm {
    /// Nothing has been typed yet.
    pub open spec fn is_blank(self) -> bool {
        self.homeserver@.len() == 0 && self.username@.len() == 0 && self.password@.len() == 0
    }
}

impl Default for LoginForm {
    fn default() -> (r: Self)
        ensures
            r.is_blank(),
            r.error is None,
    {
        LoginForm {
            homeserver: String::new(),
            username: String::new(),
            password: String::new(),
            error: None,
        }
    }
}

impl Clone for LoginForm {
    fn clone(&self) -> (r: Self)
        ensures
            r == *self,
    {
        LoginForm {
            homeserver: self.homeserver.clone(),
            username: self.username.clone(),
            password: self.password.clone(),
            error: self.error.clone(),
        }
    }
}

/// What the logged-in screen remembers.
#[derive(Debug, PartialEq, Eq)]
pub struct SessionState {
    pub rooms: Vec<RoomSummary>,
    pub selected_room: Option<String>,
    pub timeline: Vec<TimelineMessage>,
    pub message_draft: String,
    pub status: Option<String>,
    pub verification: Option<VerificationPrompt>,
    pub show_settings: bool,
    pub call: Option<CallUi>,
    pub members: Vec<MemberInfo>,
    pub my_profile: Option<MyProfile>,
    pub self_muted: bool,
    pub self_deafened: bool,
    pub backup: BackupUi,
    /// Audio device pickers (each list has [`DEFAULT_DEVICE`] first).
    pub input_devices: Vec<String>,
    pub output_devices: Vec<String>,
    pub selected_input: String,
    pub selected_output: String,
}

/// Sentinel shown in the device pickers for "use the system default".
pub const DEFAULT_DEVICE: &'static str = "(System default)";

/// Secure Backup state, shown in settings.
#[derive(Debug, PartialEq, Eq)]
pub struct BackupUi {
    pub status: Option<BackupStatus>,
    /// A freshly generated recovery key to show the user once.
    pub new_key: Option<String>,
    /// The recovery key the user is typing to restore.
    pub key_input: String,
    pub busy: bool,
    pub message: Option<String>,
}

impl Default for BackupUi {
    fn default() -> (r: Self)
        ensures
            r.status is None,
            r.new_key is None,
            r.key_input@.len() == 0,
            !r.busy,
            r.message is None,
    {
        BackupUi {
            status: None,
            new_key: None,
            key_input: String::new(),
            busy: false,
            message: None,
        }
    }
}

impl SessionState {
    /// Nothing has been loaded, chosen or typed yet.
    pub open spec fn is_fresh(self) -> bool {
        &&& self.rooms@.len() == 0
        &&& self.selected_room is None
        &&& self.timeline@.len() == 0
        &&& self.message_draft@.len() == 0
        &&& self.status is None
        &&& self.verification is None
        &&& !self.show_settings
        &&& self.call is None
        &&& self.members@.len() == 0
        &&& self.my_profile is None
        &&& !self.self_muted
        &&& !self.self_deafened
        &&& self.backup.status is None
        &&& self.backup.new_key is None
        &&& self.backup.key_input@.len() == 0
        &&& !self.backup.busy
        &&& self.backup.message is None
        &&& self.input_devices@.len() == 0
        &&& self.output_devices@.len() == 0
        &&& self.selected_input@ == "(System default)"@
        &&& self.selected_output@ == "(System default)"@
    }

    pub fn new() -> (r: Self)
        ensures
            r.is_fresh(),
    {
        SessionState {
            rooms: Vec::new(),
            selected_room: None,
            timeline: Vec::new(),
            message_draft: String::new(),
            status: None,
            verification: None,
            show_settings: false,
            call: None,
            members: Vec::new(),
            my_profile: None,
            self_muted: false,
            self_deafened: false,
            backup: BackupUi::default(),
            input_devices: Vec::new(),
            output_devices: Vec::new(),
            selected_input: DEFAULT_DEVICE.to_owned(),
            selected_output: DEFAULT_DEVICE.to_owned(),
        }
    }
}

/// The single active voice call, as the user sees it.
#[derive(Debug, PartialEq, Eq)]
pub struct CallUi {
    pub call_id: String,
    /// Human label for the other party (room name or caller id).
    pub peer: String,
    pub state: CallUiState,
}

#[derive(Debug, Clone, Copy, PartialEq, Eq, Structural)]
pub enum CallUiState {
    /// We placed a call and are waiting for the other side to answer.
    OutgoingRinging,
    /// Someone is calling us; waiting for accept/decline.
    IncomingRinging,
    /// Answered on both sides; media is negotiating.
    Connecting,
    /// Media is flowing.
    Connected,
}

/// What is said of the state of a call.
pub open spec fn call_state_text(state: CallUiState) -> Seq<char> {
    match state {
        CallUiState::OutgoingRinging => "Ringing…"@,
        CallUiState::IncomingRinging => "Incoming call"@,
        CallUiState::Connecting => "Connecting…"@,
        CallUiState::Connected => "In call"@,
    }
}

impl CallUiState {
    pub fn label(&self) -> (r: &'static str)
        ensures
            r@ == call_state_text(*self),
    {
        match self {
            CallUiState::OutgoingRinging => "Ringing…",
            CallUiState::IncomingRinging => "Incoming call",
            CallUiState::Connecting => "Connecting…",
            CallUiState::Connected => "In call",
        }
    }
}

/// The device verification on screen.
#[derive(Debug, PartialEq, Eq)]
pub struct VerificationPrompt {
    pub user_id: UserId,
    pub flow_id: String,
    pub stage: VerifyStage,
}

#[derive(Debug, PartialEq, Eq)]
pub enum VerifyStage {
    /// Incoming request, waiting for the user to accept or decline.
    Requested,
    /// Accepted; waiting for the SAS emojis to be negotiated.
    Accepted,
    /// Emojis on screen, waiting for the user to compare them.
    Emojis(Vec<SasEmoji>),
    /// User confirmed; waiting for the other side to do the same.
    Confirmed,
}

// ---------------------------------------------------------------------------
// Laws

/// A fresh session shows nothing and does nothing: no room is listed or open, nothing is
/// typed, nobody calls, the microphone and the sound are on, and both devices are the
/// system's own.
pub proof fn a_fresh_session_is_empty(s: SessionState)
    requires
        s.is_fresh(),
    ensures
        s.rooms@.len() == 0 && s.timeline@.len() == 0 && s.members@.len() == 0,
        s.selected_room is None && s.call is None && s.verification is None,
        s.message_draft@.len() == 0 && s.status is None && s.my_profile is None,
        !s.show_settings && !s.self_muted && !s.self_deafened,
        s.backup.status is None && s.backup.new_key is None && s.backup.message is None,
        s.backup.key_input@.len() == 0 && !s.backup.busy,
        s.selected_input@ == DEFAULT_DEVICE@ && s.selected_output@ == DEFAULT_DEVICE@,
{
}

/// A blank form holds nothing that was typed.
pub proof fn a_blank_form_is_empty(form: LoginForm)
    requires
        form.is_blank(),
    ensures
        form.homeserver@.len() == 0 && form.username@.len() == 0 && form.password@.len() == 0,
{
}

/// The states of a call read differently.
pub proof fn call_states_read_differently(a: CallUiState, b: CallUiState)
    requires
        a != b,
    ensures
        call_state_text(a) != call_state_text(b),
        call_state_text(CallUiState::OutgoingRinging) == "Ringing…"@,
        call_state_text(CallUiState::IncomingRinging) == "Incoming call"@,
        call_state_text(CallUiState::Connecting) == "Connecting…"@,
        call_state_text(CallUiState::Connected) == "In call"@,
{
    reveal_strlit("Ringing…");
    reveal_strlit("Incoming call");
    reveal_strlit("Connecting…");
    reveal_strlit("In call");
    assert("Ringing…"@.len() == 8 && "Incoming call"@.len() == 13);
    assert("Connecting…"@.len() == 11 && "In call"@.len() == 7);
}

} // verus!
