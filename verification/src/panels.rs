//! What each screen shows: its texts, its buttons and what they ask for.

use vstd::prelude::*;
use vstd::string::*;

use crate::client;
use crate::client::BackupStatus;
use crate::client::MemberInfo;
use crate::client::RoomSummary;
use crate::clock;
use crate::clock::LocalTime;
use crate::events::SasEmoji;
use crate::state;
use crate::state::App;
use crate::state::BackupUi;
use crate::state::CallUi;
use crate::state::CallUiState;
use crate::state::LoginForm;
use crate::state::Screen;
use crate::state::SessionState;
use crate::state::VerificationPrompt;
use crate::state::VerifyStage;
use crate::text;
use crate::theme;
use crate::timeline;
use crate::timeline::TimelineRow;
use crate::update;
use crate::widgets;
use crate::widgets::Avatar;
use crate::widgets::Control;
use crate::widgets::Line;
use crate::widgets::Press;
use crate::widgets::Tone;

verus! {

// ---------------------------------------------------------------------------
// Text fields

/// A text field; a secret one hides what is typed.
#[derive(Debug, PartialEq, Eq)]
pub struct Field {
    pub placeholder: String,
    pub value: String,
    pub secret: bool,
    /// What confirming the field asks for, if anything.
    pub submit: Option<Press>,
}

impl Field {
    pub open spec fn takes(
        self,
        placeholder: Seq<char>,
        value: String,
        secret: bool,
        submit: Option<Press>,
    ) -> bool {
        &&& self.placeholder@ == placeholder
        &&& self.value == value
        &&& self.secret == secret
        &&& self.submit == submit
    }
}

fn field(placeholder: &str, value: &String, secret: bool, submit: Option<Press>) -> (r: Field)
    ensures
        r.takes(placeholder@, *value, secret, submit),
{
    Field { placeholder: placeholder.to_owned(), value: value.clone(), secret, submit }
}

// ---------------------------------------------------------------------------
// Device verification

/// The banner of a device verification.
#[derive(Debug, PartialEq, Eq)]
pub struct Banner {
    pub heading: Line,
    pub emojis: Vec<EmojiCell>,
    pub controls: Vec<Control>,
}

/// An emoji to compare, above the word for it.
#[derive(Debug, PartialEq, Eq)]
pub struct EmojiCell {
    pub symbol: Line,
    pub word: Line,
}

impl EmojiCell {
    pub open spec fn depicts(self, emoji: SasEmoji) -> bool {
        &&& self.symbol.shows(emoji.symbol@, 28, Tone::Plain)
        &&& self.word.shows(emoji.description@, 11, Tone::Muted)
    }
}

/// The two buttons are these.
pub open spec fn offers_two(
    controls: Seq<Control>,
    yes: Seq<char>,
    yes_press: Press,
    no: Seq<char>,
    no_press: Press,
) -> bool {
    controls.len() == 2 && controls[0].offers(yes, yes_press) && controls[1].offers(no, no_press)
}

impl Banner {
    /// The banner of this verification.
    pub open spec fn announces(self, prompt: VerificationPrompt) -> bool {
        match prompt.stage {
            VerifyStage::Requested => {
                &&& self.heading.shows(
                    "Verification request from "@ + prompt.user_id@,
                    14,
                    Tone::Text,
                )
                &&& self.emojis@.len() == 0
                &&& offers_two(
                    self.controls@,
                    "Accept"@,
                    Press::AcceptVerification,
                    "Decline"@,
                    Press::CancelVerification,
                )
            },
            VerifyStage::Accepted => {
                &&& self.heading.shows(
                    "Verification accepted — waiting for the other device..."@,
                    14,
                    Tone::Text,
                )
                &&& self.emojis@.len() == 0
                &&& self.controls@.len() == 1
                &&& self.controls@[0].offers("Cancel"@, Press::CancelVerification)
            },
            VerifyStage::Emojis(emojis) => {
                &&& self.heading.shows(
                    "Compare these emojis with the other device:"@,
                    14,
                    Tone::Text,
                )
                &&& self.emojis@.len() == emojis@.len()
                &&& forall|i: int|
                    0 <= i < emojis@.len() ==> (#[trigger] self.emojis@[i]).depicts(emojis@[i])
                &&& offers_two(
                    self.controls@,
                    "They match"@,
                    Press::ConfirmVerification,
                    "They don't match"@,
                    Press::CancelVerification,
                )
            },
            VerifyStage::Confirmed => {
                &&& self.heading.shows(
                    "Waiting for the other side to confirm..."@,
                    14,
                    Tone::Text,
                )
                &&& self.emojis@.len() == 0
                &&& self.controls@.len() == 0
            },
        }
    }
}

fn two(yes: &str, yes_press: Press, no: &str, no_press: Press) -> (r: Vec<Control>)
    ensures
        offers_two(r@, yes@, yes_press, no@, no_press),
{
    let mut controls: Vec<Control> = Vec::new();
    controls.push(Control::of(yes, yes_press));
    controls.push(Control::of(no, no_press));
    controls
}

/// The banner of a device verification.
pub fn verification_banner(prompt: &VerificationPrompt) -> (r: Banner)
    ensures
        r.announces(*prompt),
{
    let mut cells: Vec<EmojiCell> = Vec::new();
    match &prompt.stage {
        VerifyStage::Requested => Banner {
            heading: Line::new(
                text::concat2("Verification request from ", prompt.user_id.as_str()),
                14,
                Tone::Text,
            ),
            emojis: cells,
            controls: two(
                "Accept",
                Press::AcceptVerification,
                "Decline",
                Press::CancelVerification,
            ),
        },
        VerifyStage::Accepted => {
            let mut controls: Vec<Control> = Vec::new();
            controls.push(Control::of("Cancel", Press::CancelVerification));
            Banner {
                heading: Line::of(
                    "Verification accepted — waiting for the other device...",
                    14,
                    Tone::Text,
                ),
                emojis: cells,
                controls,
            }
        },
        VerifyStage::Emojis(emojis) => {
            while cells.len() < emojis.len()
                invariant
                    cells.len() <= emojis.len(),
                    forall|i: int|
                        0 <= i < cells.len() ==> (#[trigger] cells@[i]).depicts(emojis@[i]),
                decreases emojis.len() - cells.len(),
            {
                let next: usize = cells.len();
                cells.push(
                    EmojiCell {
                        symbol: Line::of(emojis[next].symbol.as_str(), 28, Tone::Plain),
                        word: Line::of(emojis[next].description.as_str(), 11, Tone::Muted),
                    },
                );
            }
            Banner {
                heading: Line::of("Compare these emojis with the other device:", 14, Tone::Text),
                emojis: cells,
                controls: two(
                    "They match",
                    Press::ConfirmVerification,
                    "They don't match",
                    Press::CancelVerification,
                ),
            }
        },
        VerifyStage::Confirmed => Banner {
            heading: Line::of("Waiting for the other side to confirm...", 14, Tone::Text),
            emojis: cells,
            controls: Vec::new(),
        },
    }
}

// ---------------------------------------------------------------------------
// Secure Backup

/// The Secure Backup controls.
#[derive(Debug, PartialEq, Eq)]
pub struct BackupPanel {
    pub title: Line,
    pub status: Line,
    pub setup: Control,
    pub new_key: Option<KeyBox>,
    pub restore_hint: Line,
    pub key: Field,
    pub restore: Option<Control>,
    pub message: Option<Line>,
}

/// A fresh recovery key, below a warning.
#[derive(Debug, PartialEq, Eq)]
pub struct KeyBox {
    pub warning: Line,
    pub key: Line,
}

/// What is said of a backup's status.
pub open spec fn backup_text(status: Option<BackupStatus>) -> Seq<char> {
    match status {
        Some(BackupStatus::Enabled) => "Enabled — your message keys are backed up."@,
        Some(BackupStatus::Disabled) =>
            "Not set up. Enabling it stops message keys from being lost across sessions."@,
        Some(BackupStatus::Incomplete) =>
            "A backup exists, but this device is missing the keys. Restore with your recovery key below."@,
        Some(BackupStatus::Unknown) | None => "Checking backup status…"@,
    }
}

impl BackupPanel {
    /// The controls for this state of Secure Backup. While something runs, no button
    /// starts anything; the key field can be confirmed at any time.
    pub open spec fn controls(self, backup: BackupUi) -> bool {
        &&& self.title.shows("Secure Backup"@, 14, Tone::Muted)
        &&& self.status.shows(backup_text(backup.status), 13, Tone::Text)
        &&& if backup.busy {
            self.setup.is_idle("Working…"@)
        } else if backup.status == Some(BackupStatus::Enabled) {
            self.setup.offers("Reset Secure Backup"@, Press::SetupBackup)
        } else {
            self.setup.offers("Set up Secure Backup"@, Press::SetupBackup)
        }
        &&& match (self.new_key, backup.new_key) {
            (Some(shown), Some(key)) => {
                &&& shown.warning.shows(
                    "Recovery key — write this down, it will not be shown again:"@,
                    12,
                    Tone::Danger,
                )
                &&& shown.key.shows(key@, 15, Tone::Text)
            },
            (None, None) => true,
            _ => false,
        }
        &&& self.restore_hint.shows(
            "Have a recovery key? Restore your message keys:"@,
            12,
            Tone::Muted,
        )
        &&& self.key.takes(
            "Recovery key"@,
            backup.key_input,
            false,
            Some(Press::RestoreBackup),
        )
        &&& match self.restore {
            Some(restore) => !backup.busy && restore.offers("Restore"@, Press::RestoreBackup),
            None => backup.busy,
        }
        &&& widgets::shows_option(self.message, backup.message, 12, Tone::Accent)
    }
}

/// Secure Backup controls: status, set-up (shows the recovery key once), and
/// restore-with-recovery-key to recover previously-undecryptable messages.
pub fn backup_view(backup: &BackupUi) -> (r: BackupPanel)
    ensures
        r.controls(*backup),
{
    let status = match backup.status {
        Some(BackupStatus::Enabled) => "Enabled — your message keys are backed up.",
        Some(BackupStatus::Disabled) => {
            "Not set up. Enabling it stops message keys from being lost across sessions."
        },
        Some(BackupStatus::Incomplete) => {
            "A backup exists, but this device is missing the keys. Restore with your recovery key below."
        },
        Some(BackupStatus::Unknown) | None => "Checking backup status…",
    };
    let setup = if backup.busy {
        Control::idle("Working…")
    } else {
        match backup.status {
            Some(BackupStatus::Enabled) => Control::of("Reset Secure Backup", Press::SetupBackup),
            _ => Control::of("Set up Secure Backup", Press::SetupBackup),
        }
    };
    let new_key = match &backup.new_key {
        Some(key) => Some(
            KeyBox {
                warning: Line::of(
                    "Recovery key — write this down, it will not be shown again:",
                    12,
                    Tone::Danger,
                ),
                key: Line::of(key.as_str(), 15, Tone::Text),
            },
        ),
        None => None,
    };
    BackupPanel {
        title: Line::of("Secure Backup", 14, Tone::Muted),
        status: Line::of(status, 13, Tone::Text),
        setup,
        new_key,
        restore_hint: Line::of(
            "Have a recovery key? Restore your message keys:",
            12,
            Tone::Muted,
        ),
        key: field("Recovery key", &backup.key_input, false, Some(Press::RestoreBackup)),
        restore: if backup.busy {
            None
        } else {
            Some(Control::of("Restore", Press::RestoreBackup))
        },
        message: widgets::line_option(&backup.message, 12, Tone::Accent),
    }
}

// ---------------------------------------------------------------------------
// Settings

/// The microphone and speaker pickers.
#[derive(Debug, PartialEq, Eq)]
pub struct AudioPanel {
    pub title: Line,
    pub microphone: Picker,
    pub speaker: Picker,
}

/// A choice among devices.
#[derive(Debug, PartialEq, Eq)]
pub struct Picker {
    pub label: Line,
    pub options: Vec<String>,
    pub selected: String,
}

impl Picker {
    pub open spec fn picks(self, label: Seq<char>, options: Seq<String>, selected: String) -> bool {
        &&& self.label.shows(label, 13, Tone::Text)
        &&& self.options@ == options
        &&& self.selected == selected
    }
}

impl AudioPanel {
    /// The pickers of this session.
    pub open spec fn controls(self, session: SessionState) -> bool {
        &&& self.title.shows("Audio"@, 14, Tone::Muted)
        &&& self.microphone.picks(
            "Microphone"@,
            session.input_devices@,
            session.selected_input,
        )
        &&& self.speaker.picks("Speaker"@, session.output_devices@, session.selected_output)
    }
}

fn picker(label: &str, options: &Vec<String>, selected: &String) -> (r: Picker)
    ensures
        r.picks(label@, options@, *selected),
{
    let copy = options.clone();
    assert(copy@ =~= options@);
    Picker { label: Line::of(label, 13, Tone::Text), options: copy, selected: selected.clone() }
}

/// Microphone and speaker pickers for the settings screen.
pub fn audio_view(session: &SessionState) -> (r: AudioPanel)
    ensures
        r.controls(*session),
{
    AudioPanel {
        title: Line::of("Audio", 14, Tone::Muted),
        microphone: picker("Microphone", &session.input_devices, &session.selected_input),
        speaker: picker("Speaker", &session.output_devices, &session.selected_output),
    }
}

/// A theme to choose.
#[derive(Debug, PartialEq, Eq)]
pub struct ThemeEntry {
    pub marker: Line,
    pub label: Line,
    pub active: bool,
    pub press: Press,
}

impl ThemeEntry {
    /// The entry of this choice, while `current` is the theme choice.
    pub open spec fn offers(self, label: Seq<char>, choice: Seq<char>, current: Seq<char>) -> bool {
        &&& self.active == (current == choice)
        &&& if self.active {
            self.marker.shows("●"@, 13, Tone::Accent)
        } else {
            self.marker.shows("○"@, 13, Tone::Text)
        }
        &&& self.label.shows(label, 14, Tone::Plain)
        &&& self.press matches Press::ThemeChosen(pressed) && pressed@ == choice
    }
}

/// The settings screen.
#[derive(Debug, PartialEq, Eq)]
pub struct SettingsPanel {
    pub title: Line,
    pub close: Control,
    pub theme_title: Line,
    pub themes: Vec<ThemeEntry>,
    pub path_note: Line,
    pub audio: AudioPanel,
    pub backup: BackupPanel,
}

/// The themes to choose from: each preset by its name, then the palette file.
pub open spec fn offers_themes(entries: Seq<ThemeEntry>, current: Seq<char>) -> bool {
    &&& entries.len() == theme::preset_names().len() + 1
    &&& forall|i: int|
        0 <= i < theme::preset_names().len() ==> (#[trigger] entries[i]).offers(
            theme::preset_names()[i],
            theme::preset_names()[i],
            current,
        )
    &&& entries.last().offers("Custom (theme.toml)"@, "custom"@, current)
}

impl SettingsPanel {
    /// The settings of this session, with this theme choice and palette file.
    pub open spec fn controls(
        self,
        session: SessionState,
        current: Seq<char>,
        theme_path: Seq<char>,
    ) -> bool {
        &&& self.title.shows("Settings"@, 20, Tone::Text)
        &&& self.close.offers("Close"@, Press::ToggleSettings)
        &&& self.theme_title.shows("Theme"@, 14, Tone::Muted)
        &&& offers_themes(self.themes@, current)
        &&& self.path_note.shows("Custom colors are read from "@ + theme_path, 12, Tone::Muted)
        &&& self.audio.controls(session)
        &&& self.backup.controls(session.backup)
    }
}

fn theme_entry(label: &str, choice: &str, current: &str) -> (r: ThemeEntry)
    ensures
        r.offers(label@, choice@, current@),
{
    let active = text::same_text(current, choice);
    ThemeEntry {
        marker: if active {
            Line::of("●", 13, Tone::Accent)
        } else {
            Line::of("○", 13, Tone::Text)
        },
        label: Line::of(label, 14, Tone::Plain),
        active,
        press: Press::ThemeChosen(choice.to_owned()),
    }
}

/// The settings screen. `theme_path` is where the palette file lies.
pub fn settings_view(session: &SessionState, theme_choice: &str, theme_path: &str) -> (r:
    SettingsPanel)
    ensures
        r.controls(*session, theme_choice@, theme_path@),
{
    let presets = theme::presets();
    let mut themes: Vec<ThemeEntry> = Vec::new();
    while themes.len() < presets.len()
        invariant
            presets.len() == 3,
            themes.len() <= presets.len(),
            forall|i: int| 0 <= i < 3 ==> (#[trigger] presets@[i]).0@ == theme::preset_names()[i],
            forall|i: int|
                0 <= i < themes.len() ==> (#[trigger] themes@[i]).offers(
                    theme::preset_names()[i],
                    theme::preset_names()[i],
                    theme_choice@,
                ),
        decreases presets.len() - themes.len(),
    {
        let name = presets[themes.len()].0;
        assert(name@ == theme::preset_names()[themes.len() as int]);
        themes.push(theme_entry(name, name, theme_choice));
    }
    themes.push(theme_entry("Custom (theme.toml)", theme::CUSTOM, theme_choice));
    SettingsPanel {
        title: Line::of("Settings", 20, Tone::Text),
        close: Control::of("Close", Press::ToggleSettings),
        theme_title: Line::of("Theme", 14, Tone::Muted),
        themes,
        path_note: Line::new(
            text::concat2("Custom colors are read from ", theme_path),
            12,
            Tone::Muted,
        ),
        audio: audio_view(session),
        backup: backup_view(&session.backup),
    }
}

// ---------------------------------------------------------------------------
// Calls and members

/// The bar above the main panel during a call.
#[derive(Debug, PartialEq, Eq)]
pub struct CallBar {
    pub title: Line,
    pub controls: Vec<Control>,
}

impl CallBar {
    /// The bar of this call. Only an incoming call can be accepted; any call can be
    /// ended.
    pub open spec fn controls(self, call: CallUi) -> bool {
        &&& self.title.shows(
            "📞  "@ + call.peer@ + "  —  "@ + state::call_state_text(call.state),
            15,
            Tone::Text,
        )
        &&& if call.state == CallUiState::IncomingRinging {
            offers_two(
                self.controls@,
                "Accept"@,
                Press::AcceptCall,
                "Decline"@,
                Press::HangUp,
            )
        } else {
            self.controls@.len() == 1 && self.controls@[0].offers("Hang up"@, Press::HangUp)
        }
    }
}

/// The bar above the main panel during a call.
pub fn call_bar(call: &CallUi) -> (r: CallBar)
    ensures
        r.controls(*call),
{
    let mut controls: Vec<Control> = Vec::new();
    match call.state {
        CallUiState::IncomingRinging => {
            controls = two("Accept", Press::AcceptCall, "Decline", Press::HangUp);
        },
        _ => {
            controls.push(Control::of("Hang up", Press::HangUp));
        },
    }
    let peer = text::concat3("📞  ", call.peer.as_str(), "  —  ");
    CallBar {
        title: Line::new(text::concat2(peer.as_str(), call.state.label()), 15, Tone::Text),
        controls,
    }
}

/// The member list.
#[derive(Debug, PartialEq, Eq)]
pub struct MemberList {
    pub title: Line,
    pub rows: Vec<MemberRow>,
}

#[derive(Debug, PartialEq, Eq)]
pub struct MemberRow {
    pub avatar: Avatar,
    pub name: Line,
}

impl MemberRow {
    /// The row of this member; the user's own name stands out.
    pub open spec fn lists(self, member: MemberInfo) -> bool {
        &&& self.avatar.stands_for(member.display_name@)
        &&& self.name.shows(
            member.display_name@,
            14,
            if member.is_me {
                Tone::Accent
            } else {
                Tone::Text
            },
        )
    }
}

impl MemberList {
    /// The list of these members, in their order, headed by their number.
    pub open spec fn lists(self, members: Seq<MemberInfo>) -> bool {
        &&& self.title.shows("Members — "@ + text::decimal_text(members.len()), 12, Tone::Muted)
        &&& self.rows@.len() == members.len()
        &&& forall|i: int|
            0 <= i < members.len() ==> (#[trigger] self.rows@[i]).lists(members[i])
    }
}

/// Right-hand member list panel.
pub fn member_list_view(members: &Vec<MemberInfo>) -> (r: MemberList)
    ensures
        r.lists(members@),
{
    let mut rows: Vec<MemberRow> = Vec::new();
    while rows.len() < members.len()
        invariant
            rows.len() <= members.len(),
            forall|i: int| 0 <= i < rows.len() ==> (#[trigger] rows@[i]).lists(members@[i]),
        decreases members.len() - rows.len(),
    {
        let member = &members[rows.len()];
        rows.push(
            MemberRow {
                avatar: widgets::avatar(member.display_name.as_str()),
                name: Line::of(
                    member.display_name.as_str(),
                    14,
                    if member.is_me {
                        Tone::Accent
                    } else {
                        Tone::Text
                    },
                ),
            },
        );
    }
    let number = text::decimal(members.len() as u64);
    MemberList {
        title: Line::new(text::concat2("Members — ", number.as_str()), 12, Tone::Muted),
        rows,
    }
}

// ---------------------------------------------------------------------------
// The sidebar

/// A small icon button of the user panel.
#[derive(Debug, PartialEq, Eq)]
pub struct PanelButton {
    pub label: String,
    pub press: Press,
    pub tone: Tone,
}

impl PanelButton {
    /// An active one is tinted with the danger color (muted, deafened,
    /// disconnect).
    pub open spec fn offers(self, label: Seq<char>, press: Press, active: bool) -> bool {
        &&& self.label@ == label
        &&& self.press == press
        &&& self.tone == if active {
            Tone::Danger
        } else {
            Tone::Text
        }
    }
}

/// A small icon button of the user panel; `active` tints it with the danger color.
pub fn panel_button(label: &str, press: Press, active: bool) -> (r: PanelButton)
    ensures
        r.offers(label@, press, active),
{
    PanelButton {
        label: label.to_owned(),
        press,
        tone: if active {
            Tone::Danger
        } else {
            Tone::Text
        },
    }
}

/// The user panel: identity, microphone and deafen controls, and a disconnect
/// button while in a call.
#[derive(Debug, PartialEq, Eq)]
pub struct UserPanel {
    pub avatar: Avatar,
    pub name: Line,
    pub status: Line,
    pub controls: Vec<PanelButton>,
}

impl UserPanel {
    /// The user panel of this session.
    pub open spec fn controls(self, session: SessionState) -> bool {
        &&& match session.my_profile {
            Some(profile) => {
                &&& self.avatar.stands_for(profile.display_name@)
                &&& self.name.shows(profile.display_name@, 14, Tone::Text)
            },
            None => {
                &&& self.avatar.stands_for("?"@)
                &&& self.name.shows("…"@, 14, Tone::Text)
            },
        }
        &&& match session.call {
            Some(call) => self.status.shows(state::call_state_text(call.state), 11, Tone::Accent),
            None => self.status.shows("Not in a call"@, 11, Tone::Muted),
        }
        &&& self.controls@.len() == if session.call is Some {
            3int
        } else {
            2
        }
        &&& self.controls@[0].offers(
            if session.self_muted {
                "🔇"@
            } else {
                "🎙"@
            },
            Press::ToggleMute,
            session.self_muted,
        )
        &&& self.controls@[1].offers(
            if session.self_deafened {
                "🔇"@
            } else {
                "🎧"@
            },
            Press::ToggleDeafen,
            session.self_deafened,
        )
        &&& session.call is Some ==> self.controls@[2].offers("📵"@, Press::HangUp, true)
    }
}

/// The persistent bottom-left user panel.
pub fn user_panel_view(session: &SessionState) -> (r: UserPanel)
    ensures
        r.controls(*session),
{
    let mut controls: Vec<PanelButton> = Vec::new();
    controls.push(
        panel_button(
            if session.self_muted {
                "🔇"
            } else {
                "🎙"
            },
            Press::ToggleMute,
            session.self_muted,
        ),
    );
    controls.push(
        panel_button(
            if session.self_deafened {
                "🔇"
            } else {
                "🎧"
            },
            Press::ToggleDeafen,
            session.self_deafened,
        ),
    );
    let status = match &session.call {
        Some(call) => {
            controls.push(panel_button("📵", Press::HangUp, true));
            Line::of(call.state.label(), 11, Tone::Accent)
        },
        None => Line::of("Not in a call", 11, Tone::Muted),
    };
    match &session.my_profile {
        Some(profile) => UserPanel {
            avatar: widgets::avatar(profile.display_name.as_str()),
            name: Line::of(profile.display_name.as_str(), 14, Tone::Text),
            status,
            controls,
        },
        None => UserPanel {
            avatar: widgets::avatar("?"),
            name: Line::of("…", 14, Tone::Text),
            status,
            controls,
        },
    }
}

/// The button of a room in the sidebar.
#[derive(Debug, PartialEq, Eq)]
pub struct RoomButton {
    pub name: Line,
    pub badge: Option<Line>,
    pub selected: bool,
    pub press: Press,
}

impl RoomButton {
    /// The button of this room: its name, the number of unread notifications if
    /// there are any, and whether it is the open room.
    pub open spec fn opens(self, room: RoomSummary, selected: bool) -> bool {
        &&& self.name.shows(room.name@, 14, Tone::Plain)
        &&& match self.badge {
            Some(badge) => room.unread_notifications > 0 && badge.shows(
                text::decimal_text(room.unread_notifications as nat),
                11,
                Tone::AccentText,
            ),
            None => room.unread_notifications == 0,
        }
        &&& self.selected == selected
        &&& self.press == Press::RoomSelected(room.id)
    }
}

/// The button of a room in the sidebar.
pub fn room_button(room: &RoomSummary, selected: bool) -> (r: RoomButton)
    ensures
        r.opens(*room, selected),
{
    RoomButton {
        name: Line::of(room.name.as_str(), 14, Tone::Plain),
        badge: if room.unread_notifications > 0 {
            Some(Line::new(text::decimal(room.unread_notifications), 11, Tone::AccentText))
        } else {
            None
        },
        selected,
        press: Press::RoomSelected(room.id.clone()),
    }
}

/// The rooms of one kind, under a label.
#[derive(Debug, PartialEq, Eq)]
pub struct Section {
    pub label: Line,
    pub rooms: Vec<RoomButton>,
}

/// The direct chats, or the other rooms, in their order.
pub open spec fn of_kind(rooms: Seq<RoomSummary>, direct: bool) -> Seq<RoomSummary> {
    rooms.filter(|room: RoomSummary| room.is_direct == direct)
}

impl Section {
    /// The section of these rooms.
    pub open spec fn lists(
        self,
        label: Seq<char>,
        rooms: Seq<RoomSummary>,
        session: SessionState,
    ) -> bool {
        &&& self.label.shows(label, 12, Tone::Muted)
        &&& lists_rooms(self.rooms@, rooms, session)
    }
}

/// The buttons are those of these rooms, in their order.
pub open spec fn lists_rooms(
    buttons: Seq<RoomButton>,
    rooms: Seq<RoomSummary>,
    session: SessionState,
) -> bool {
    &&& buttons.len() == rooms.len()
    &&& forall|i: int|
        0 <= i < rooms.len() ==> (#[trigger] buttons[i]).opens(
            rooms[i],
            update::is_selected(session, rooms[i].id@),
        )
}

/// The sections: direct chats first, then the other rooms, each where there are
/// any.
pub open spec fn are_sections(sections: Seq<Section>, session: SessionState) -> bool {
    let directs = of_kind(session.rooms@, true);
    let rooms = of_kind(session.rooms@, false);
    let first = if directs.len() > 0 {
        1int
    } else {
        0
    };
    &&& sections.len() == first + if rooms.len() > 0 {
        1int
    } else {
        0
    }
    &&& directs.len() > 0 ==> sections[0].lists("Direct messages"@, directs, session)
    &&& rooms.len() > 0 ==> sections[first].lists("Rooms"@, rooms, session)
}

/// The sidebar.
#[derive(Debug, PartialEq, Eq)]
pub struct Sidebar {
    pub title: Line,
    pub settings: Control,
    pub sections: Vec<Section>,
    pub user: UserPanel,
    pub log_out: Control,
}

impl Sidebar {
    /// The sidebar of this session.
    pub open spec fn controls(self, session: SessionState) -> bool {
        &&& self.title.shows("Mesh"@, 18, Tone::Text)
        &&& self.settings.offers("⚙"@, Press::ToggleSettings)
        &&& are_sections(self.sections@, session)
        &&& self.user.controls(session)
        &&& self.log_out.offers("Log out"@, Press::LogOut)
    }
}

fn room_buttons(session: &SessionState, direct: bool) -> (r: Vec<RoomButton>)
    ensures
        lists_rooms(r@, of_kind(session.rooms@, direct), *session),
{
    let mut buttons: Vec<RoomButton> = Vec::new();
    let mut i: usize = 0;
    proof {
        reveal(Seq::filter);
        assert(session.rooms@.take(0) =~= Seq::empty());
    }
    while i < session.rooms.len()
        invariant
            i <= session.rooms.len(),
            lists_rooms(buttons@, of_kind(session.rooms@.take(i as int), direct), *session),
        decreases session.rooms.len() - i,
    {
        let room = &session.rooms[i];
        proof {
            reveal(Seq::filter);
            let taken = session.rooms@.take(i + 1);
            assert(taken.drop_last() =~= session.rooms@.take(i as int));
            assert(taken.last() == room);
        }
        if room.is_direct == direct {
            let selected = match &session.selected_room {
                Some(id) => text::same_text(id.as_str(), room.id.as_str()),
                None => false,
            };
            buttons.push(room_button(room, selected));
        }
        i += 1;
    }
    proof {
        assert(session.rooms@.take(session.rooms@.len() as int) =~= session.rooms@);
    }
    buttons
}

/// The sidebar: the rooms, the user panel and the way to the settings.
pub fn sidebar_view(session: &SessionState) -> (r: Sidebar)
    ensures
        r.controls(*session),
{
    let mut sections: Vec<Section> = Vec::new();
    let directs = room_buttons(session, true);
    if directs.len() > 0 {
        sections.push(
            Section { label: Line::of("Direct messages", 12, Tone::Muted), rooms: directs },
        );
    }
    let rooms = room_buttons(session, false);
    if rooms.len() > 0 {
        sections.push(Section { label: Line::of("Rooms", 12, Tone::Muted), rooms });
    }
    Sidebar {
        title: Line::of("Mesh", 18, Tone::Text),
        settings: Control::of("⚙", Press::ToggleSettings),
        sections,
        user: user_panel_view(session),
        log_out: Control::of("Log out", Press::LogOut),
    }
}

// ---------------------------------------------------------------------------
// The open room

/// The main panel of the open room.
#[derive(Debug, PartialEq, Eq)]
pub struct RoomPanel {
    pub header: Line,
    pub call: Option<Control>,
    pub topic: Option<Line>,
    pub banner: Option<Banner>,
    pub body: RoomBody,
    pub status: Option<Line>,
    pub draft: Field,
    pub send: Control,
}

#[derive(Debug, PartialEq, Eq)]
pub enum RoomBody {
    Timeline(Vec<TimelineRow>),
    /// No room is open.
    Hint(Line),
}

/// The open room, as the list has it.
pub open spec fn open_room(session: SessionState) -> Option<RoomSummary> {
    match session.selected_room {
        Some(id) => client::room_with(session.rooms@, id@),
        None => None,
    }
}

impl RoomPanel {
    /// The panel of this session's open room, for messages sent at these local
    /// times and read on this day.
    pub open spec fn shows(
        self,
        session: SessionState,
        times: Seq<Option<LocalTime>>,
        today: int,
    ) -> bool {
        &&& self.header.shows(
            match open_room(session) {
                Some(room) => room.name@,
                None => "Select a room"@,
            },
            20,
            Tone::Text,
        )
        &&& match self.call {
            Some(call) => {
                &&& session.selected_room is Some && session.call is None
                &&& call.offers("📞 Call"@, Press::PlaceCall)
            },
            None => session.selected_room is None || session.call is Some,
        }
        &&& widgets::shows_option(
            self.topic,
            match open_room(session) {
                Some(room) => room.topic,
                None => None,
            },
            12,
            Tone::Muted,
        )
        &&& match (self.banner, session.verification) {
            (Some(banner), Some(prompt)) => banner.announces(prompt),
            (None, None) => true,
            _ => false,
        }
        &&& match self.body {
            RoomBody::Timeline(rows) => {
                &&& session.selected_room is Some
                &&& timeline::is_timeline(rows@, session.timeline@, times, today)
            },
            RoomBody::Hint(hint) => {
                &&& session.selected_room is None
                &&& hint.shows(
                    "Pick a room from the sidebar to start chatting."@,
                    14,
                    Tone::Muted,
                )
            },
        }
        &&& widgets::shows_option(self.status, session.status, 13, Tone::Danger)
        &&& self.draft.takes("Message"@, session.message_draft, false, Some(Press::SendMessage))
        &&& self.send.offers("Send"@, Press::SendMessage)
    }

    /// The panel of this session's open room, in some time zone and on some day.
    pub open spec fn shows_locally(self, session: SessionState) -> bool {
        exists|times: Seq<Option<LocalTime>>, today: int|
            timeline::are_times(times, session.timeline@) && clock::is_day(today)
                && #[trigger] self.shows(session, times, today)
    }
}

/// The main panel of the open room, around the rows of its timeline.
fn room_panel(session: &SessionState, rows: Vec<TimelineRow>) -> (r: RoomPanel)
    ensures
        forall|times: Seq<Option<LocalTime>>, today: int|
            timeline::is_timeline(rows@, session.timeline@, times, today) ==> #[trigger] r.shows(
                *session,
                times,
                today,
            ),
{
    let room = match &session.selected_room {
        Some(id) => client::find_room(&session.rooms, id.as_str()),
        None => None,
    };
    let header = match room {
        Some(room) => Line::of(room.name.as_str(), 20, Tone::Text),
        None => Line::of("Select a room", 20, Tone::Text),
    };
    let topic = match room {
        Some(room) => widgets::line_option(&room.topic, 12, Tone::Muted),
        None => None,
    };
    let body = if session.selected_room.is_some() {
        RoomBody::Timeline(rows)
    } else {
        RoomBody::Hint(
            Line::of("Pick a room from the sidebar to start chatting.", 14, Tone::Muted),
        )
    };
    RoomPanel {
        header,
        call: if session.selected_room.is_some() && session.call.is_none() {
            Some(Control::of("📞 Call", Press::PlaceCall))
        } else {
            None
        },
        topic,
        banner: match &session.verification {
            Some(prompt) => Some(verification_banner(prompt)),
            None => None,
        },
        body,
        status: widgets::line_option(&session.status, 13, Tone::Danger),
        draft: field("Message", &session.message_draft, false, Some(Press::SendMessage)),
        send: Control::of("Send", Press::SendMessage),
    }
}

/// The main panel of the open room, for messages sent at these local times and
/// read on this day.
pub fn room_view_at(session: &SessionState, times: &Vec<Option<LocalTime>>, today: i32) -> (r:
    RoomPanel)
    requires
        times.len() == session.timeline.len(),
        forall|i: int|
            0 <= i < times.len() ==> ((#[trigger] times@[i]) matches Some(local) ==> local.wf()),
        clock::is_day(today as int),
    ensures
        r.shows(*session, times@, today as int),
{
    room_panel(session, timeline::timeline_rows(&session.timeline, times, today))
}

/// The main panel of the open room, as this machine's clock and time zone have it.
pub fn room_view(session: &SessionState) -> (r: RoomPanel)
    ensures
        r.shows_locally(*session),
{
    let rows = timeline::timeline_view(&session.timeline);
    let ghost (times, today) = choose|times: Seq<Option<LocalTime>>, today: int|
        timeline::are_times(times, session.timeline@) && clock::is_day(today)
            && #[trigger] timeline::is_timeline(rows@, session.timeline@, times, today);
    let panel = room_panel(session, rows);
    assert(panel.shows(*session, times, today));
    panel
}

// ---------------------------------------------------------------------------
// Whole screens

/// The login form.
#[derive(Debug, PartialEq, Eq)]
pub struct LoginPanel {
    pub title: Line,
    pub subtitle: Line,
    pub homeserver: Field,
    pub username: Field,
    pub password: Field,
    pub error: Option<Line>,
    pub submit: Control,
}

impl LoginPanel {
    /// The panel of this form; while a login runs it cannot be sent again.
    pub open spec fn takes(self, form: LoginForm, busy: bool) -> bool {
        &&& self.title.shows("Mesh"@, 32, Tone::Plain)
        &&& self.subtitle.shows("A lightweight Matrix client"@, 14, Tone::Plain)
        &&& self.homeserver.takes(
            "Homeserver (e.g. https://matrix.org)"@,
            form.homeserver,
            false,
            None,
        )
        &&& self.username.takes("Username"@, form.username, false, None)
        &&& self.password.takes("Password"@, form.password, true, Some(Press::LoginSubmitted))
        &&& widgets::shows_option(self.error, form.error, 13, Tone::Plain)
        &&& if busy {
            self.submit.is_idle("Logging in..."@)
        } else {
            self.submit.offers("Log in"@, Press::LoginSubmitted)
        }
    }
}

/// The login form.
pub fn login_view(form: &LoginForm, busy: bool) -> (r: LoginPanel)
    ensures
        r.takes(*form, busy),
{
    LoginPanel {
        title: Line::of("Mesh", 32, Tone::Plain),
        subtitle: Line::of("A lightweight Matrix client", 14, Tone::Plain),
        homeserver: field(
            "Homeserver (e.g. https://matrix.org)",
            &form.homeserver,
            false,
            None,
        ),
        username: field("Username", &form.username, false, None),
        password: field("Password", &form.password, true, Some(Press::LoginSubmitted)),
        error: widgets::line_option(&form.error, 13, Tone::Plain),
        submit: if busy {
            Control::idle("Logging in...")
        } else {
            Control::of("Log in", Press::LoginSubmitted)
        },
    }
}

/// The logged-in screen.
#[derive(Debug, PartialEq, Eq)]
pub struct SessionPanel {
    pub sidebar: Sidebar,
    pub call: Option<CallBar>,
    pub main: MainPanel,
    pub members: Option<MemberList>,
}

#[derive(Debug, PartialEq, Eq)]
pub enum MainPanel {
    Settings(SettingsPanel),
    Room(RoomPanel),
}

impl SessionPanel {
    /// The screen of this session. The members of the open room stand beside it
    /// where the window is wide enough.
    pub open spec fn shows(
        self,
        session: SessionState,
        theme_choice: Seq<char>,
        theme_path: Seq<char>,
        wide: bool,
    ) -> bool {
        &&& self.sidebar.controls(session)
        &&& match (self.call, session.call) {
            (Some(bar), Some(call)) => bar.controls(call),
            (None, None) => true,
            _ => false,
        }
        &&& match self.main {
            MainPanel::Settings(settings) => {
                &&& session.show_settings
                &&& settings.controls(session, theme_choice, theme_path)
            },
            MainPanel::Room(room) => !session.show_settings && room.shows_locally(session),
        }
        &&& match self.members {
            Some(list) => {
                &&& !session.show_settings && session.selected_room is Some && wide
                &&& list.lists(session.members@)
            },
            None => session.show_settings || session.selected_room is None || !wide,
        }
    }
}

/// The logged-in screen. `wide` says that the window has room for the member list.
pub fn session_view(
    session: &SessionState,
    theme_choice: &str,
    theme_path: &str,
    wide: bool,
) -> (r: SessionPanel)
    ensures
        r.shows(*session, theme_choice@, theme_path@, wide),
{
    SessionPanel {
        sidebar: sidebar_view(session),
        call: match &session.call {
            Some(call) => Some(call_bar(call)),
            None => None,
        },
        main: if session.show_settings {
            MainPanel::Settings(settings_view(session, theme_choice, theme_path))
        } else {
            MainPanel::Room(room_view(session))
        },
        members: if !session.show_settings && session.selected_room.is_some() && wide {
            Some(member_list_view(&session.members))
        } else {
            None
        },
    }
}

/// What is on screen.
#[derive(Debug, PartialEq, Eq)]
pub enum ScreenView {
    Notice(String),
    Login(LoginPanel),
    Session(SessionPanel),
}

impl ScreenView {
    /// What this frontend shows, in a window of this width.
    pub open spec fn shows(self, app: App, theme_path: Seq<char>, wide: bool) -> bool {
        match app.screen {
            Screen::Booting => self matches ScreenView::Notice(notice) && notice@
                == "Restoring session..."@,
            Screen::LoggedOut(form) => self matches ScreenView::Login(panel) && panel.takes(form, false),
            Screen::LoggingIn(form) => self matches ScreenView::Login(panel) && panel.takes(form, true),
            Screen::LoggedIn(session) => self matches ScreenView::Session(panel) && panel.shows(
                session,
                app.theme_choice@,
                theme_path,
                wide,
            ),
        }
    }
}

/// What is on screen.
pub fn view(app: &App, theme_path: &str, wide: bool) -> (r: ScreenView)
    ensures
        r.shows(*app, theme_path@, wide),
{
    match &app.screen {
        Screen::Booting => ScreenView::Notice("Restoring session...".to_owned()),
        Screen::LoggedOut(form) => ScreenView::Login(login_view(form, false)),
        Screen::LoggingIn(form) => ScreenView::Login(login_view(form, true)),
        Screen::LoggedIn(session) => ScreenView::Session(
            session_view(session, app.theme_choice.as_str(), theme_path, wide),
        ),
    }
}

// ---------------------------------------------------------------------------
// Laws

/// The two sections of the sidebar hold every room exactly once between them.
pub proof fn sections_hold_every_room_once(rooms: Seq<RoomSummary>)
    ensures
        of_kind(rooms, true).to_multiset().add(of_kind(rooms, false).to_multiset())
            == rooms.to_multiset(),
        forall|i: int| 0 <= i < of_kind(rooms, true).len() ==> of_kind(rooms, true)[i].is_direct,
        forall|i: int|
            0 <= i < of_kind(rooms, false).len() ==> !of_kind(rooms, false)[i].is_direct,
    decreases rooms.len(),
{
    reveal(Seq::filter);
    broadcast use vstd::seq_lib::group_to_multiset_ensures;

    if rooms.len() > 0 {
        let less = rooms.drop_last();
        sections_hold_every_room_once(less);
        assert(rooms =~= less.push(rooms.last()));
        let kind = rooms.last().is_direct;
        assert(of_kind(rooms, kind) =~= of_kind(less, kind).push(rooms.last()));
        assert(of_kind(rooms, !kind) =~= of_kind(less, !kind));
        assert(of_kind(rooms, true).to_multiset().add(of_kind(rooms, false).to_multiset())
            =~= rooms.to_multiset());
    } else {
        assert(of_kind(rooms, true).to_multiset().add(of_kind(rooms, false).to_multiset())
            =~= rooms.to_multiset());
    }
}

/// While Secure Backup works on something, none of its buttons starts anything.
pub proof fn a_busy_backup_has_no_button_to_press(panel: BackupPanel, backup: BackupUi)
    requires
        panel.controls(backup),
        backup.busy,
    ensures
        panel.setup.press is None,
        panel.restore is None,
{
}

/// While a login runs the form cannot be sent again by its button.
pub proof fn a_running_login_is_not_sent_again(panel: LoginPanel, form: LoginForm)
    requires
        panel.takes(form, true),
    ensures
        panel.submit.press is None,
{
}

/// The call button is offered exactly where pressing it places a call.
pub proof fn the_call_button_places_a_call(
    panel: RoomPanel,
    session: SessionState,
    times: Seq<Option<LocalTime>>,
    today: int,
    facts: update::SettingsFacts,
    custom: Option<theme::Palette>,
    after: SessionState,
    cmds: Seq<update::Command>,
)
    requires
        panel.shows(session, times, today),
        update::session_post(session, update::SessionMessage::PlaceCall, after, cmds),
    ensures
        panel.call is Some <==> cmds.len() > 0,
        panel.call matches Some(call) ==> call.press matches Some(press) && update::meant(
            press,
            facts,
            custom,
        ) == update::Message::Session(update::SessionMessage::PlaceCall),
{
}

/// Accepting is offered exactly where it does something.
pub proof fn accepting_is_offered_while_it_rings(
    bar: CallBar,
    call: CallUi,
    session: SessionState,
    after: SessionState,
    cmds: Seq<update::Command>,
)
    requires
        session.call == Some(call),
        bar.controls(call),
        update::session_post(session, update::SessionMessage::AcceptCall, after, cmds),
    ensures
        bar.controls@.len() == 2 <==> cmds.len() > 0,
        cmds.len() > 0 ==> bar.controls@[0].press == Some(Press::AcceptCall),
{
}

/// Choosing an entry of the theme list makes it the theme choice.
pub proof fn a_theme_entry_chooses_its_theme(
    entry: ThemeEntry,
    label: Seq<char>,
    choice: Seq<char>,
    facts: update::SettingsFacts,
    custom: Option<theme::Palette>,
    before: App,
    after: App,
    cmds: Seq<update::Command>,
)
    requires
        entry.offers(label, choice, before.theme_choice@),
        update::update_post(before, update::meant(entry.press, facts, custom), after, cmds),
    ensures
        after.theme_choice@ == choice,
        theme::is_choice(after.palette, choice, custom),
{
}

/// The button of a room opens that room.
pub proof fn a_room_button_opens_its_room(
    button: RoomButton,
    room: RoomSummary,
    selected: bool,
    facts: update::SettingsFacts,
    custom: Option<theme::Palette>,
    before: App,
    after: App,
    cmds: Seq<update::Command>,
)
    requires
        button.opens(room, selected),
        before.screen is LoggedIn,
        update::update_post(before, update::meant(button.press, facts, custom), after, cmds),
    ensures
        after.screen matches Screen::LoggedIn(session) && session.selected_room == Some(room.id),
{
}

/// Every call on screen can be ended from its bar.
pub proof fn every_call_can_be_ended(bar: CallBar, call: CallUi)
    requires
        bar.controls(call),
    ensures
        exists|i: int|
            0 <= i < bar.controls@.len() && (#[trigger] bar.controls@[i]).press == Some(
                Press::HangUp,
            ),
{
    let last = bar.controls@.len() - 1;
    assert(bar.controls@[last].press == Some(Press::HangUp));
}

/// No two themes are marked as the current one.
pub proof fn one_theme_is_marked(
    entries: Seq<ThemeEntry>,
    current: Seq<char>,
    i: int,
    j: int,
)
    requires
        offers_themes(entries, current),
        0 <= i < entries.len(),
        0 <= j < entries.len(),
        entries[i].active,
        entries[j].active,
    ensures
        i == j,
{
    reveal_strlit("custom");
    reveal_strlit("Catppuccin Mocha");
    reveal_strlit("Nord");
    reveal_strlit("Gruvbox Dark");
    let names = theme::preset_names();
    assert(names[0].len() == 16 && names[1].len() == 4 && names[2].len() == 12);
    assert("custom"@.len() == 6);
    assert(entries.last() == entries[3]);
    if i < 3 {
        assert(entries[i].offers(names[i], names[i], current));
    }
    if j < 3 {
        assert(entries[j].offers(names[j], names[j], current));
    }
}

/// The emojis that were negotiated are on the banner: read off in order, the symbols are
/// their symbols and the words their descriptions.
pub proof fn the_banner_shows_the_negotiated_emojis(
    banner: Banner,
    prompt: VerificationPrompt,
    emojis: Vec<SasEmoji>,
)
    requires
        banner.announces(prompt),
        prompt.stage == VerifyStage::Emojis(emojis),
    ensures
        banner.emojis@.map_values(|cell: EmojiCell| cell.symbol.content@) == emojis@.map_values(
            |emoji: SasEmoji| emoji.symbol@,
        ),
        banner.emojis@.map_values(|cell: EmojiCell| cell.word.content@) == emojis@.map_values(
            |emoji: SasEmoji| emoji.description@,
        ),
{
    let symbols = banner.emojis@.map_values(|cell: EmojiCell| cell.symbol.content@);
    let words = banner.emojis@.map_values(|cell: EmojiCell| cell.word.content@);
    assert forall|i: int| 0 <= i < emojis@.len() implies symbols[i] == emojis@[i].symbol@
        && words[i] == emojis@[i].description@ by {
        assert(banner.emojis@[i].depicts(emojis@[i]));
    }
    assert(symbols =~= emojis@.map_values(|emoji: SasEmoji| emoji.symbol@));
    assert(words =~= emojis@.map_values(|emoji: SasEmoji| emoji.description@));
}

/// Emojis that differ anywhere make banners that differ: two verifications with the same
/// banner have the same emojis, in number, symbol and description.
pub proof fn different_emojis_make_different_banners(
    banner: Banner,
    a: VerificationPrompt,
    b: VerificationPrompt,
    ours: Vec<SasEmoji>,
    theirs: Vec<SasEmoji>,
    i: int,
)
    requires
        banner.announces(a),
        banner.announces(b),
        a.stage == VerifyStage::Emojis(ours),
        b.stage == VerifyStage::Emojis(theirs),
    ensures
        ours@.len() == theirs@.len(),
        0 <= i < ours@.len() ==> ours@[i].symbol@ == theirs@[i].symbol@ && ours@[i].description@
            == theirs@[i].description@,
{
    if 0 <= i < ours@.len() {
        assert(banner.emojis@[i].depicts(ours@[i]));
        assert(banner.emojis@[i].depicts(theirs@[i]));
    }
}

/// A control with this label asks for this.
pub open spec fn asks(control: Control, label: Seq<char>, press: Press) -> bool {
    control.label@ == label && control.press == Some(press)
}

/// In every stage of a verification the banner offers what can be done: a request is taken
/// or declined, emojis match or do not, and what is under way can be cancelled. Only a
/// comparison shows emojis, and a request says who asks.
pub proof fn the_banner_offers_what_can_be_done(banner: Banner, prompt: VerificationPrompt)
    requires
        banner.announces(prompt),
    ensures
        prompt.stage is Requested ==> banner.heading.content@ == "Verification request from "@
            + prompt.user_id@ && banner.controls@.len() == 2 && asks(
            banner.controls@[0],
            "Accept"@,
            Press::AcceptVerification,
        ) && asks(banner.controls@[1], "Decline"@, Press::CancelVerification),
        prompt.stage is Accepted ==> banner.controls@.len() == 1 && asks(
            banner.controls@[0],
            "Cancel"@,
            Press::CancelVerification,
        ),
        prompt.stage is Emojis ==> banner.controls@.len() == 2 && asks(
            banner.controls@[0],
            "They match"@,
            Press::ConfirmVerification,
        ) && asks(banner.controls@[1], "They don't match"@, Press::CancelVerification),
        prompt.stage is Confirmed ==> banner.controls@.len() == 0,
        prompt.stage is Accepted ==> banner.heading.content@
            == "Verification accepted — waiting for the other device..."@,
        prompt.stage is Emojis ==> banner.heading.content@
            == "Compare these emojis with the other device:"@,
        prompt.stage is Confirmed ==> banner.heading.content@
            == "Waiting for the other side to confirm..."@,
        banner.heading.tone is Text,
        !(prompt.stage is Emojis) ==> banner.emojis@.len() == 0,
{
}

/// Saying that the emojis match confirms the verification on screen, and saying that they
/// do not cancels it: the command names its user and its flow.
pub proof fn the_answer_to_the_emojis_counts(
    banner: Banner,
    session: SessionState,
    prompt: VerificationPrompt,
    facts: update::SettingsFacts,
    custom: Option<theme::Palette>,
    yes: SessionState,
    no: SessionState,
    confirmed: Seq<update::Command>,
    cancelled: Seq<update::Command>,
)
    requires
        session.verification == Some(prompt),
        prompt.stage is Emojis,
        banner.announces(prompt),
        update::meant(banner.controls@[0].press->0, facts, custom)
            matches update::Message::Session(message) && update::session_post(
            session,
            message,
            yes,
            confirmed,
        ),
        update::meant(banner.controls@[1].press->0, facts, custom)
            matches update::Message::Session(message) && update::session_post(
            session,
            message,
            no,
            cancelled,
        ),
    ensures
        confirmed.len() == 1 && (confirmed[0] matches update::Command::Confirm(about)
            && about.user_id == prompt.user_id && about.flow_id == prompt.flow_id),
        yes.verification matches Some(now) && now.stage is Confirmed,
        cancelled.len() == 1 && (cancelled[0] matches update::Command::Cancel(about)
            && about.user_id == prompt.user_id && about.flow_id == prompt.flow_id),
        no.verification is None,
{
}

/// A field shows what was typed into it; only a secret one hides it.
pub proof fn a_field_shows_what_was_typed(
    field: Field,
    placeholder: Seq<char>,
    value: String,
    secret: bool,
    submit: Option<Press>,
)
    requires
        field.takes(placeholder, value, secret, submit),
    ensures
        field.placeholder@ == placeholder && field.value == value,
        field.secret == secret && field.submit == submit,
{
}

/// A fresh recovery key is shown as it is, and only where there is one; what was typed and
/// what is to be said are shown as they are.
pub proof fn the_backup_panel_shows_the_key(panel: BackupPanel, backup: BackupUi)
    requires
        panel.controls(backup),
    ensures
        panel.new_key is Some <==> backup.new_key is Some,
        panel.new_key matches Some(shown) ==> (backup.new_key matches Some(key)
            && shown.key.content@ == key@ && shown.warning.tone is Danger
            && shown.warning.content@
            == "Recovery key — write this down, it will not be shown again:"@),
        panel.title.content@ == "Secure Backup"@ && panel.restore_hint.content@
            == "Have a recovery key? Restore your message keys:"@,
        panel.key.placeholder@ == "Recovery key"@ && !panel.key.secret,
        backup.busy ==> panel.setup.label@ == "Working…"@,
        panel.key.value == backup.key_input && panel.key.submit == Some(Press::RestoreBackup),
        panel.message is Some <==> backup.message is Some,
        panel.message matches Some(line) ==> (backup.message matches Some(said) && line.content@
            == said@),
{
}

/// While nothing runs the backup can be set up and restored; where it is enabled, setting
/// it up is called resetting it.
pub proof fn an_idle_backup_can_be_set_up(panel: BackupPanel, backup: BackupUi)
    requires
        panel.controls(backup),
        !backup.busy,
    ensures
        panel.setup.press == Some(Press::SetupBackup),
        panel.restore matches Some(restore) && restore.press == Some(Press::RestoreBackup)
            && restore.label@ == "Restore"@,
        panel.setup.label@ == "Reset Secure Backup"@ <==> backup.status == Some(
            BackupStatus::Enabled,
        ),
{
    reveal_strlit("Reset Secure Backup");
    reveal_strlit("Set up Secure Backup");
    assert("Reset Secure Backup"@.len() != "Set up Secure Backup"@.len());
}

/// The states of the backup read differently; while the state is not known it is said to be
/// checked.
pub proof fn backup_states_read_differently(a: BackupStatus, b: BackupStatus)
    requires
        a != b,
    ensures
        backup_text(Some(a)) != backup_text(Some(b)),
        backup_text(None) == backup_text(Some(BackupStatus::Unknown)),
        backup_text(Some(BackupStatus::Enabled)) == "Enabled — your message keys are backed up."@,
        backup_text(Some(BackupStatus::Disabled))
            == "Not set up. Enabling it stops message keys from being lost across sessions."@,
        backup_text(Some(BackupStatus::Incomplete))
            == "A backup exists, but this device is missing the keys. Restore with your recovery key below."@,
        backup_text(None) == "Checking backup status…"@,
{
    reveal_strlit("Enabled — your message keys are backed up.");
    reveal_strlit("Not set up. Enabling it stops message keys from being lost across sessions.");
    reveal_strlit(
        "A backup exists, but this device is missing the keys. Restore with your recovery key below.",
    );
    reveal_strlit("Checking backup status…");
    assert("Enabled — your message keys are backed up."@.len() == 42);
    assert("Not set up. Enabling it stops message keys from being lost across sessions."@.len()
        == 75);
    assert(
    "A backup exists, but this device is missing the keys. Restore with your recovery key below."@.len()
        == 91);
    assert("Checking backup status…"@.len() == 23);
}

/// The panel says what the state of the backup is.
pub proof fn the_backup_panel_says_the_state(panel: BackupPanel, backup: BackupUi)
    requires
        panel.controls(backup),
    ensures
        panel.status.content@ == backup_text(backup.status),
{
}

/// Microphones are picked among the microphones and speakers among the speakers, and the
/// ones in use are marked.
pub proof fn the_pickers_offer_the_devices(panel: AudioPanel, session: SessionState)
    requires
        panel.controls(session),
    ensures
        panel.microphone.label.content@ == "Microphone"@ && panel.speaker.label.content@
            == "Speaker"@,
        panel.microphone.options@ == session.input_devices@,
        panel.microphone.selected == session.selected_input,
        panel.speaker.options@ == session.output_devices@,
        panel.speaker.selected == session.selected_output,
{
}

/// A theme is marked exactly if it is the current one, bears its name, and is what pressing
/// it chooses.
pub proof fn a_theme_entry_is_that_of_its_theme(
    entry: ThemeEntry,
    label: Seq<char>,
    choice: Seq<char>,
    current: Seq<char>,
)
    requires
        entry.offers(label, choice, current),
    ensures
        entry.active <==> choice == current,
        entry.marker.content@ == if entry.active {
            "●"@
        } else {
            "○"@
        },
        entry.label.content@ == label,
        entry.press matches Press::ThemeChosen(pressed) && pressed@ == choice,
{
}

/// Every preset can be chosen under its name, and the palette file at the end.
pub proof fn every_theme_can_be_chosen(
    panel: SettingsPanel,
    session: SessionState,
    current: Seq<char>,
    theme_path: Seq<char>,
    i: int,
)
    requires
        panel.controls(session, current, theme_path),
        0 <= i < theme::preset_names().len(),
    ensures
        panel.themes@.len() == theme::preset_names().len() + 1,
        panel.themes@[i].label.content@ == theme::preset_names()[i],
        panel.themes@[i].press matches Press::ThemeChosen(pressed) && pressed@
            == theme::preset_names()[i],
        panel.themes@[i].active <==> theme::preset_names()[i] == current,
        panel.themes@.last().press matches Press::ThemeChosen(pressed) && pressed@ == "custom"@,
        panel.themes@.last().active <==> current == "custom"@,
        panel.themes@.last().label.content@ == "Custom (theme.toml)"@,
{
    assert(panel.themes@[i].offers(theme::preset_names()[i], theme::preset_names()[i], current));
}

/// The settings are closed by their button, say where the palette file lies, and hold the
/// devices and the backup of the session.
pub proof fn the_settings_are_those_of_the_session(
    panel: SettingsPanel,
    session: SessionState,
    current: Seq<char>,
    theme_path: Seq<char>,
)
    requires
        panel.controls(session, current, theme_path),
    ensures
        panel.close.press == Some(Press::ToggleSettings) && panel.close.label@ == "Close"@,
        panel.title.content@ == "Settings"@ && panel.theme_title.content@ == "Theme"@
            && panel.audio.title.content@ == "Audio"@,
        panel.path_note.content@ == "Custom colors are read from "@ + theme_path,
        panel.audio.microphone.selected == session.selected_input,
        panel.audio.speaker.selected == session.selected_output,
        panel.backup.key.value == session.backup.key_input,
        panel.backup.new_key is Some <==> session.backup.new_key is Some,
{
}

/// The bar names the other party and says how the call stands. An incoming call can be
/// taken or declined, any other one hung up.
pub proof fn the_call_bar_names_the_call(bar: CallBar, call: CallUi)
    requires
        bar.controls(call),
    ensures
        bar.title.content@ == "📞  "@ + call.peer@ + "  —  "@ + state::call_state_text(call.state),
        call.state is IncomingRinging ==> bar.controls@.len() == 2 && asks(
            bar.controls@[0],
            "Accept"@,
            Press::AcceptCall,
        ) && asks(bar.controls@[1], "Decline"@, Press::HangUp),
        !(call.state is IncomingRinging) ==> bar.controls@.len() == 1 && asks(
            bar.controls@[0],
            "Hang up"@,
            Press::HangUp,
        ),
{
}

/// Every member is listed by name, in their order, with the avatar for the name; the user
/// stands out, and the heading counts them.
pub proof fn every_member_has_a_row(list: MemberList, members: Seq<MemberInfo>, i: int)
    requires
        list.lists(members),
        0 <= i < members.len(),
    ensures
        list.rows@.len() == members.len(),
        list.rows@[i].name.content@ == members[i].display_name@,
        list.rows@[i].name.tone is Accent <==> members[i].is_me,
        list.rows@[i].avatar.initial@ == widgets::initial_of(members[i].display_name@),
        list.rows@[i].avatar.color == widgets::color_of_name(members[i].display_name@),
        list.title.content@ == "Members — "@ + text::decimal_text(members.len()),
{
    assert(list.rows@[i].lists(members[i]));
}

/// The user panel bears the user's name and avatar and says how the call stands. Its
/// buttons toggle the microphone and the sound, are tinted while those are off, and hang up
/// where there is a call.
pub proof fn the_user_panel_is_that_of_the_user(panel: UserPanel, session: SessionState)
    requires
        panel.controls(session),
    ensures
        session.my_profile matches Some(profile) ==> panel.name.content@ == profile.display_name@
            && panel.avatar.initial@ == widgets::initial_of(profile.display_name@)
            && panel.avatar.color == widgets::color_of_name(profile.display_name@),
        session.my_profile is None ==> panel.name.content@ == "…"@ && panel.avatar.initial@
            == widgets::initial_of("?"@),
        session.call matches Some(call) ==> panel.status.content@ == state::call_state_text(
            call.state,
        ),
        session.call is None ==> panel.status.content@ == "Not in a call"@,
        panel.controls@[0].press is ToggleMute && panel.controls@[1].press is ToggleDeafen,
        panel.controls@[0].tone is Danger <==> session.self_muted,
        panel.controls@[1].tone is Danger <==> session.self_deafened,
        session.call is Some ==> panel.controls@.len() == 3 && panel.controls@[2].press is HangUp
            && panel.controls@[2].label@ == "📵"@,
        session.call is None ==> panel.controls@.len() == 2,
{
}

/// The crossed-out speaker stands for what is off: the microphone and the sound have it
/// exactly while they are.
pub proof fn what_is_off_is_crossed_out(panel: UserPanel, session: SessionState)
    requires
        panel.controls(session),
    ensures
        panel.controls@[0].label@ == "🔇"@ <==> session.self_muted,
        panel.controls@[1].label@ == "🔇"@ <==> session.self_deafened,
{
    reveal_strlit("🔇");
    reveal_strlit("🎙");
    reveal_strlit("🎧");
    assert("🔇"@[0] != "🎙"@[0]);
    assert("🔇"@[0] != "🎧"@[0]);
}

/// A panel button bears its label, asks for what it is for, and is tinted while active.
pub proof fn a_panel_button_asks_for_what_it_is_for(
    button: PanelButton,
    label: Seq<char>,
    press: Press,
    active: bool,
)
    requires
        button.offers(label, press, active),
    ensures
        button.label@ == label && button.press == press,
        button.tone is Danger <==> active,
{
}

/// A room's button bears its name and opens it. Unread notifications are counted on it,
/// and there is no badge where there are none.
pub proof fn a_room_button_counts_the_unread(button: RoomButton, room: RoomSummary, selected: bool)
    requires
        button.opens(room, selected),
    ensures
        button.name.content@ == room.name@,
        button.press == Press::RoomSelected(room.id),
        button.selected == selected,
        button.badge is Some <==> room.unread_notifications > 0,
        button.badge matches Some(badge) ==> text::number(badge.content@)
            == room.unread_notifications,
{
    text::a_decimal_number_reads_back(room.unread_notifications as nat);
}

/// Every listed room has its button in the sidebar, with its name and its unread
/// notifications, in the section for its kind: direct chats apart from the other rooms. It
/// is marked exactly if it is the open one.
pub proof fn every_room_has_its_button(sidebar: Sidebar, session: SessionState, i: int)
    requires
        sidebar.controls(session),
        0 <= i < session.rooms@.len(),
    ensures
        exists|n: int, k: int|
            0 <= n < sidebar.sections@.len() && 0 <= k < sidebar.sections@[n].rooms@.len() && {
                let section = sidebar.sections@[n];
                let button = #[trigger] sidebar.sections@[n].rooms@[k];
                &&& section.label.content@ == if session.rooms@[i].is_direct {
                    "Direct messages"@
                } else {
                    "Rooms"@
                }
                &&& button.press == Press::RoomSelected(session.rooms@[i].id)
                &&& button.name.content@ == session.rooms@[i].name@
                &&& button.badge is Some <==> session.rooms@[i].unread_notifications > 0
                &&& button.badge matches Some(badge) ==> text::number(badge.content@)
                    == session.rooms@[i].unread_notifications
                &&& button.selected <==> (session.selected_room matches Some(open) && open@
                    == session.rooms@[i].id@)
            },
{
    let room = session.rooms@[i];
    let kind = |r: RoomSummary| r.is_direct == room.is_direct;
    let of = of_kind(session.rooms@, room.is_direct);
    assert(of == session.rooms@.filter(kind)) by {
        assert(kind =~= |r: RoomSummary| r.is_direct == room.is_direct);
    }
    session.rooms@.lemma_filter_contains(kind, i);
    let k = choose|k: int| 0 <= k < of.len() && of[k] == room;
    let n = if room.is_direct || of_kind(session.rooms@, true).len() == 0 {
        0int
    } else {
        1
    };
    let section = sidebar.sections@[n];
    assert(lists_rooms(section.rooms@, of, session));
    assert(section.rooms@[k].opens(of[k], update::is_selected(session, of[k].id@)));
    a_room_button_counts_the_unread(
        section.rooms@[k],
        room,
        update::is_selected(session, room.id@),
    );
    assert(sidebar.sections@[n].rooms@[k].press == Press::RoomSelected(room.id));
}

/// Every button of the sidebar is that of a listed room, and a section is there only where
/// it has rooms: direct chats first.
pub proof fn every_button_is_that_of_a_room(
    sidebar: Sidebar,
    session: SessionState,
    n: int,
    k: int,
)
    requires
        sidebar.controls(session),
        0 <= n < sidebar.sections@.len(),
        0 <= k < sidebar.sections@[n].rooms@.len(),
    ensures
        exists|i: int|
            0 <= i < session.rooms@.len() && sidebar.sections@[n].rooms@[k].press
                == Press::RoomSelected((#[trigger] session.rooms@[i]).id),
        sidebar.sections@.len() <= 2,
        n == 1 ==> sidebar.sections@[0].label.content@ == "Direct messages"@
            && sidebar.sections@[1].label.content@ == "Rooms"@,
        sidebar.settings.press == Some(Press::ToggleSettings) && sidebar.settings.label@ == "⚙"@,
        sidebar.log_out.press == Some(Press::LogOut) && sidebar.log_out.label@ == "Log out"@,
        sidebar.title.content@ == "Mesh"@,
{
    let directs = of_kind(session.rooms@, true);
    let direct = n == 0 && directs.len() > 0;
    let kind = |r: RoomSummary| r.is_direct == direct;
    let of = of_kind(session.rooms@, direct);
    assert(of == session.rooms@.filter(kind)) by {
        assert(kind =~= |r: RoomSummary| r.is_direct == direct);
    }
    let section = sidebar.sections@[n];
    assert(lists_rooms(section.rooms@, of, session));
    assert(section.rooms@[k].opens(of[k], update::is_selected(session, of[k].id@)));
    assert(of.contains(of[k]));
    session.rooms@.lemma_filter_contains_rev(kind, of[k]);
    let i = choose|i: int| 0 <= i < session.rooms@.len() && session.rooms@[i] == of[k];
    assert(section.rooms@[k].press == Press::RoomSelected(session.rooms@[i].id));
}

/// The panel of the open room is headed by its name and topic, as the list of rooms has
/// them under its id.
pub proof fn the_open_room_is_headed_by_its_name(
    panel: RoomPanel,
    session: SessionState,
    times: Seq<Option<LocalTime>>,
    today: int,
    i: int,
)
    requires
        panel.shows(session, times, today),
        0 <= i < session.rooms@.len(),
        session.selected_room matches Some(open) && open@ == session.rooms@[i].id@,
        forall|k: int| 0 <= k < i ==> (#[trigger] session.rooms@[k]).id@ != session.rooms@[i].id@,
    ensures
        panel.header.content@ == session.rooms@[i].name@,
        panel.topic is Some <==> session.rooms@[i].topic is Some,
        panel.topic matches Some(line) ==> (session.rooms@[i].topic matches Some(topic)
            && line.content@ == topic@),
{
    client::the_first_room_is_found(session.rooms@, i);
}

/// The panel shows what was typed and what is to be said, sends what was typed, and has
/// the verification on screen in its banner. It holds the messages of the session where a
/// room is open, and asks to pick one where none is.
pub proof fn the_room_panel_is_that_of_the_session(
    panel: RoomPanel,
    session: SessionState,
    times: Seq<Option<LocalTime>>,
    today: int,
)
    requires
        panel.shows(session, times, today),
    ensures
        panel.draft.value == session.message_draft && panel.draft.submit == Some(
            Press::SendMessage,
        ) && !panel.draft.secret,
        panel.send.press == Some(Press::SendMessage) && panel.send.label@ == "Send"@,
        session.selected_room is None ==> panel.header.content@ == "Select a room"@,
        panel.body matches RoomBody::Hint(hint) ==> hint.content@
            == "Pick a room from the sidebar to start chatting."@,
        panel.status is Some <==> session.status is Some,
        panel.status matches Some(line) ==> (session.status matches Some(said) && line.content@
            == said@ && line.tone is Danger),
        panel.banner is Some <==> session.verification is Some,
        panel.banner matches Some(banner) ==> (session.verification matches Some(prompt)
            && banner.announces(prompt)),
        panel.body is Timeline <==> session.selected_room is Some,
        panel.body matches RoomBody::Timeline(rows) ==> timeline::bodies(
            rows@.map_values(|row: TimelineRow| row.says()),
        ) == session.timeline@.map_values(|m: client::TimelineMessage| m.body@),
        panel.call is Some <==> session.selected_room is Some && session.call is None,
        panel.call matches Some(call) ==> call.press == Some(Press::PlaceCall) && call.label@
            == "📞 Call"@,
        panel.draft.placeholder@ == "Message"@,
{
    if let RoomBody::Timeline(rows) = panel.body {
        timeline::a_timeline_shows_its_messages(rows@, session.timeline@, times, today);
    }
}

/// The login form shows what was typed, hides the password and nothing else, says what went
/// wrong, and can be sent while no login runs.
pub proof fn the_login_form_shows_what_was_typed(panel: LoginPanel, form: LoginForm, busy: bool)
    requires
        panel.takes(form, busy),
    ensures
        panel.homeserver.value == form.homeserver && !panel.homeserver.secret,
        panel.username.value == form.username && !panel.username.secret,
        panel.password.value == form.password && panel.password.secret,
        panel.password.submit == Some(Press::LoginSubmitted),
        panel.error is Some <==> form.error is Some,
        panel.error matches Some(line) ==> (form.error matches Some(said) && line.content@
            == said@),
        !busy ==> panel.submit.press == Some(Press::LoginSubmitted) && panel.submit.label@
            == "Log in"@,
        busy ==> panel.submit.press is None && panel.submit.label@ == "Logging in..."@,
        panel.homeserver.placeholder@ == "Homeserver (e.g. https://matrix.org)"@,
        panel.title.content@ == "Mesh"@ && panel.subtitle.content@
            == "A lightweight Matrix client"@,
        panel.username.placeholder@ == "Username"@ && panel.password.placeholder@ == "Password"@,
{
}

/// The logged-in screen has the bar of the call there is, the settings or the room, and
/// beside an open room its members where the window is wide.
pub proof fn the_screen_is_that_of_the_session(
    panel: SessionPanel,
    session: SessionState,
    theme_choice: Seq<char>,
    theme_path: Seq<char>,
    wide: bool,
)
    requires
        panel.shows(session, theme_choice, theme_path, wide),
    ensures
        panel.call is Some <==> session.call is Some,
        panel.call matches Some(bar) ==> (session.call matches Some(call) && bar.controls(call)),
        panel.main is Settings <==> session.show_settings,
        panel.members is Some <==> wide && session.selected_room is Some && !session.show_settings,
        panel.members matches Some(list) ==> list.rows@.len() == session.members@.len(),
        panel.sidebar.controls(session),
        panel.sidebar.log_out.press == Some(Press::LogOut) && panel.sidebar.settings.press == Some(
            Press::ToggleSettings,
        ),
        panel.main matches MainPanel::Room(room) ==> room.draft.value == session.message_draft,
        panel.main matches MainPanel::Settings(settings) ==> settings.close.press == Some(
            Press::ToggleSettings,
        ) && settings.path_note.content@ == "Custom colors are read from "@ + theme_path
            && settings.backup.key.value == session.backup.key_input
            && settings.audio.microphone.selected == session.selected_input
            && settings.themes@.len() == theme::preset_names().len() + 1 && (
        settings.themes@.last().active <==> theme_choice == "custom"@),
{
}

/// The screen is the one the frontend is on: a notice while it restores, the form while it
/// is logged out or logging in, and the session.
pub proof fn the_view_is_that_of_the_screen(
    view: ScreenView,
    app: App,
    theme_path: Seq<char>,
    wide: bool,
)
    requires
        view.shows(app, theme_path, wide),
    ensures
        view is Notice <==> app.screen is Booting,
        view matches ScreenView::Notice(notice) ==> notice@ == "Restoring session..."@,
        view is Login <==> app.screen is LoggedOut || app.screen is LoggingIn,
        view is Session <==> app.screen is LoggedIn,
        view matches ScreenView::Login(panel) ==> (panel.submit.press is None <==> app.screen
            is LoggingIn),
        app.screen matches Screen::LoggedOut(form) ==> (view matches ScreenView::Login(panel)
            && panel.username.value == form.username && panel.homeserver.value == form.homeserver
            && panel.password.value == form.password),
        app.screen matches Screen::LoggingIn(form) ==> (view matches ScreenView::Login(panel)
            && panel.username.value == form.username && panel.homeserver.value == form.homeserver
            && panel.password.value == form.password),
        app.screen matches Screen::LoggedIn(session) ==> (view matches ScreenView::Session(panel)
            && panel.shows(session, app.theme_choice@, theme_path, wide)),
{
}

/// The sidebar holds the user's own panel: the name, the microphone and the sound.
pub proof fn the_sidebar_holds_the_user_panel(sidebar: Sidebar, session: SessionState)
    requires
        sidebar.controls(session),
    ensures
        session.my_profile matches Some(profile) ==> sidebar.user.name.content@
            == profile.display_name@,
        sidebar.user.controls@.len() >= 2,
        sidebar.user.controls@[0].press is ToggleMute && sidebar.user.controls@[1].press
            is ToggleDeafen,
        sidebar.user.controls@[0].tone is Danger <==> session.self_muted,
        sidebar.user.controls@[1].tone is Danger <==> session.self_deafened,
{
}

/// On screen the messages stand at the times they were sent at, as some time zone has them,
/// and the days are named as seen from some day.
pub proof fn the_open_room_is_shown_in_local_time(panel: RoomPanel, session: SessionState)
    requires
        panel.shows_locally(session),
        forall|i: int|
            0 <= i < session.timeline@.len() ==> (#[trigger] session.timeline@[i]).timestamp_ms
                < 1_000_000 * clock::DAY_MS,
    ensures
        panel.body matches RoomBody::Timeline(rows) ==> exists|
            times: Seq<Option<LocalTime>>,
            today: int,
        |
            #[trigger] timeline::is_timeline(rows@, session.timeline@, times, today) && times.len()
                == session.timeline@.len() && (forall|i: int|
                0 <= i < times.len() ==> (#[trigger] times[i] matches Some(local)
                    && session.timeline@[i].timestamp_ms as int / 60000 - 1440 <= (local.day
                    - clock::EPOCH_DAY) * 1440 + local.hour * 60 + local.minute
                    <= session.timeline@[i].timestamp_ms as int / 60000 + 1440)),
        panel.draft.value == session.message_draft,
{
    let (times, today) = choose|times: Seq<Option<LocalTime>>, today: int|
        timeline::are_times(times, session.timeline@) && clock::is_day(today)
            && #[trigger] panel.shows(session, times, today);
    if let RoomBody::Timeline(rows) = panel.body {
        assert forall|i: int| 0 <= i < times.len() implies (#[trigger] times[i] matches Some(local)
            && session.timeline@[i].timestamp_ms as int / 60000 - 1440 <= (local.day
            - clock::EPOCH_DAY) * 1440 + local.hour * 60 + local.minute
            <= session.timeline@[i].timestamp_ms as int / 60000 + 1440) by {
            assert(session.timeline@[i].timestamp_ms < 1_000_000 * clock::DAY_MS);
            timeline::messages_are_shown_at_their_time(times, session.timeline@, i);
        }
        assert(timeline::is_timeline(rows@, session.timeline@, times, today));
    }
}

} // verus!
