use mesh::client::BackupStatus;
use mesh::client::MemberInfo;
use mesh::client::MyProfile;
use mesh::client::RoomSummary;
use mesh::client::TimelineMessage;
use mesh::events::MeshUpdate;
use mesh::events::SasEmoji;
use mesh::ids::UserId;
use mesh::state::App;
use mesh::state::CallUi;
use mesh::state::CallUiState;
use mesh::state::LoginForm;
use mesh::state::Screen;
use mesh::state::SessionState;
use mesh::state::VerificationPrompt;
use mesh::state::VerifyStage;
use mesh::state::DEFAULT_DEVICE;
use mesh::theme::save_choice;
use mesh::theme::Palette;
use mesh::update::boot;
use mesh::update::message_of;
use mesh::update::update;
use mesh::update::Command;
use mesh::update::Message;
use mesh::update::SessionMessage;
use mesh::update::SettingsFacts;
use mesh::update::VerificationTarget;
use mesh::update::TIMELINE_LIMIT;
use mesh::widgets::Press;

fn user(name: &str) -> UserId {
    UserId::parse(&format!("@{name}:example.org")).unwrap()
}

fn owned(s: &str) -> String {
    s.to_owned()
}

fn room(id: &str, name: &str) -> RoomSummary {
    RoomSummary {
        id: owned(id),
        name: owned(name),
        topic: None,
        unread_notifications: 0,
        is_direct: false,
        last_activity_ms: None,
    }
}

fn line(body: &str) -> TimelineMessage {
    TimelineMessage {
        sender: user("bob"),
        sender_name: owned("Bob"),
        body: owned(body),
        timestamp_ms: 0,
    }
}

fn in_room(id: &str) -> SessionState {
    let mut s = SessionState::new();
    s.selected_room = Some(owned(id));
    s
}

fn facts() -> SettingsFacts {
    SettingsFacts {
        backup: BackupStatus::Incomplete,
        input_devices: vec![owned("Mic")],
        output_devices: vec![],
    }
}

fn prompt(flow: &str) -> VerificationPrompt {
    VerificationPrompt { user_id: user("bob"), flow_id: owned(flow), stage: VerifyStage::Requested }
}

fn target(flow: &str) -> VerificationTarget {
    VerificationTarget { user_id: user("bob"), flow_id: owned(flow) }
}

fn call(id: &str, state: CallUiState) -> CallUi {
    CallUi { call_id: owned(id), peer: owned("bob"), state }
}

fn loads(id: &str) -> Vec<Command> {
    vec![
        Command::LoadTimeline { room_id: owned(id), limit: TIMELINE_LIMIT },
        Command::LoadMembers { room_id: owned(id) },
    ]
}

fn typed() -> LoginForm {
    LoginForm {
        homeserver: owned("https://matrix.org"),
        username: owned("alice"),
        password: owned("pw"),
        error: None,
    }
}

fn logged_out() -> App {
    boot(None, None, false).0
}

fn logged_in() -> App {
    let mut app = logged_out();
    update(&mut app, Message::RestoreFinished(Ok(())));
    app
}

#[test]
fn booting_restores_a_saved_session() {
    let (app, cmds) = boot(Some(save_choice("Nord")), None, true);
    assert_eq!(app.screen, Screen::Booting);
    assert_eq!(cmds, vec![Command::RestoreSession]);
    assert_eq!(app.theme_choice, "Nord");
    assert_eq!(app.palette.background, "#2e3440");
    assert_eq!(app.widget_theme, app.palette.to_iced_theme());
}

#[test]
fn booting_without_a_session_asks_for_a_login() {
    let (app, cmds) = boot(None, None, false);
    assert_eq!(app.screen, Screen::LoggedOut(LoginForm::default()));
    assert_eq!(cmds, vec![]);
    assert_eq!(app.theme_choice, "custom");
    assert_eq!(app.palette, Palette::default());
}

#[test]
fn entering_a_session_loads_everything() {
    let mut app = boot(None, None, true).0;
    let cmds = update(&mut app, Message::RestoreFinished(Ok(())));
    assert_eq!(
        cmds,
        vec![
            Command::LoadRooms,
            Command::LoadProfile,
            Command::EnsureBackup,
            Command::WatchUpdates
        ]
    );
    assert_eq!(app.screen, Screen::LoggedIn(SessionState::new()));
    assert_eq!(SessionState::new().selected_input, DEFAULT_DEVICE);
}

#[test]
fn an_expired_session_says_so() {
    let mut app = boot(None, None, true).0;
    let cmds = update(&mut app, Message::RestoreFinished(Err(owned("401"))));
    assert_eq!(cmds, vec![]);
    match app.screen {
        Screen::LoggedOut(form) => assert_eq!(
            form.error.unwrap(),
            "Session expired, please log in again (401)"
        ),
        other => panic!("{other:?}"),
    }
}

#[test]
fn a_login_is_typed_and_sent() {
    let mut app = logged_out();
    update(&mut app, Message::HomeserverChanged(owned("https://matrix.org")));
    update(&mut app, Message::UsernameChanged(owned("alice")));
    update(&mut app, Message::PasswordChanged(owned("pw")));
    let cmds = update(&mut app, Message::LoginSubmitted);
    assert_eq!(
        cmds,
        vec![Command::LogIn {
            homeserver: owned("https://matrix.org"),
            username: owned("alice"),
            password: owned("pw"),
        }]
    );
    assert_eq!(app.screen, Screen::LoggingIn(typed()));
    update(&mut app, Message::UsernameChanged(owned("eve")));
    assert_eq!(update(&mut app, Message::LoginSubmitted), vec![]);
    assert_eq!(app.screen, Screen::LoggingIn(typed()));
}

#[test]
fn a_failed_login_keeps_what_was_typed() {
    let mut app = logged_out();
    app.screen = Screen::LoggingIn(typed());
    update(&mut app, Message::LoginFinished(Err(owned("wrong password"))));
    let mut form = typed();
    form.error = Some(owned("wrong password"));
    assert_eq!(app.screen, Screen::LoggedOut(form));
    app.screen = Screen::Booting;
    update(&mut app, Message::LoginFinished(Err(owned("late"))));
    let form = LoginForm { error: Some(owned("late")), ..LoginForm::default() };
    assert_eq!(app.screen, Screen::LoggedOut(form));
}

#[test]
fn a_login_enters_the_session() {
    let mut app = logged_out();
    app.screen = Screen::LoggingIn(typed());
    assert_eq!(update(&mut app, Message::LoginFinished(Ok(()))).len(), 4);
    assert_eq!(app.screen, Screen::LoggedIn(SessionState::new()));
}

#[test]
fn a_theme_is_chosen_and_persisted() {
    let mut app = logged_in();
    let cmds = update(&mut app, Message::ThemeChosen { choice: owned("Gruvbox Dark"), custom: None });
    assert_eq!(cmds, vec![Command::SaveChoice(save_choice("Gruvbox Dark"))]);
    assert_eq!(app.theme_choice, "Gruvbox Dark");
    assert_eq!(app.palette.background, "#282828");
    assert_eq!(app.widget_theme, app.palette.to_iced_theme());
    let (again, _) = boot(Some(save_choice("Gruvbox Dark")), None, false);
    assert_eq!(again.theme_choice, app.theme_choice);
    assert_eq!(again.palette, app.palette);
}

#[test]
fn logging_out_forgets_the_session() {
    let mut app = logged_in();
    assert_eq!(update(&mut app, Message::LogOut), vec![Command::ForgetSession]);
    assert_eq!(app.screen, Screen::LoggedOut(LoginForm::default()));
    app.screen = Screen::LoggingIn(typed());
    assert_eq!(update(&mut app, Message::LogOut), vec![]);
    assert_eq!(app.screen, Screen::LoggedOut(LoginForm::default()));
}

#[test]
fn session_messages_do_nothing_without_a_session() {
    let mut app = logged_out();
    assert_eq!(update(&mut app, Message::Session(SessionMessage::HangUp)), vec![]);
    assert_eq!(app.screen, Screen::LoggedOut(LoginForm::default()));
    let mut app = logged_in();
    assert_eq!(
        update(&mut app, Message::Session(SessionMessage::HangUp)),
        vec![Command::HangUp]
    );
}

#[test]
fn a_tick_moves_the_background() {
    let mut app = logged_out();
    assert_eq!(update(&mut app, Message::Tick), vec![Command::AdvanceRain]);
}

#[test]
fn opening_a_room_loads_it() {
    let mut s = in_room("!old:x");
    s.timeline = vec![line("old")];
    s.status = Some(owned("note"));
    s.show_settings = true;
    assert_eq!(s.handle(SessionMessage::RoomSelected(owned("!a:x"))), loads("!a:x"));
    assert_eq!(s, in_room("!a:x"));
    assert_eq!(TIMELINE_LIMIT, 50);
    s.handle(SessionMessage::TimelineLoaded(owned("!a:x"), Ok(vec![line("hi")])));
    assert_eq!(s.timeline, vec![line("hi")]);
    s.handle(SessionMessage::TimelineLoaded(owned("!a:x"), Err(owned("503"))));
    assert_eq!(s.status.as_deref(), Some("Failed to load messages: 503"));
    assert_eq!(s.timeline, vec![line("hi")]);
}

#[test]
fn loads_for_another_room_are_ignored() {
    let mut s = in_room("!a:x");
    s.handle(SessionMessage::TimelineLoaded(owned("!b:x"), Ok(vec![line("hi")])));
    s.handle(SessionMessage::TimelineLoaded(owned("!b:x"), Err(owned("503"))));
    let me = MemberInfo { user_id: user("me"), display_name: owned("Me"), is_me: true };
    s.handle(SessionMessage::MembersLoaded(owned("!b:x"), vec![me]));
    assert_eq!(s, in_room("!a:x"));
    let me = MemberInfo { user_id: user("me"), display_name: owned("Me"), is_me: true };
    s.handle(SessionMessage::MembersLoaded(owned("!a:x"), vec![me]));
    assert_eq!(s.members.len(), 1);
}

#[test]
fn rooms_and_profile_are_taken_in() {
    let mut s = SessionState::new();
    s.handle(SessionMessage::RoomsLoaded(vec![room("!a:x", "A")]));
    assert_eq!(s.rooms[0].name, "A");
    let profile = MyProfile { user_id: user("me"), display_name: owned("Me") };
    s.handle(SessionMessage::ProfileLoaded(profile));
    assert_eq!(s.my_profile.unwrap().display_name, "Me");
}

#[test]
fn changed_rooms_are_reloaded() {
    let mut s = in_room("!a:x");
    let other = MeshUpdate::RoomsChanged(vec![owned("!b:x")]);
    assert_eq!(s.pushed(other), vec![Command::LoadRooms]);
    let open = MeshUpdate::RoomsChanged(vec![owned("!b:x"), owned("!a:x")]);
    let mut want = vec![Command::LoadRooms];
    want.extend(loads("!a:x"));
    assert_eq!(s.pushed(open), want);
    let all = MeshUpdate::RoomsChanged(vec![]);
    assert_eq!(SessionState::new().pushed(all), vec![Command::LoadRooms]);
}

#[test]
fn a_message_is_sent_as_typed() {
    let mut s = in_room("!a:x");
    s.handle(SessionMessage::DraftChanged(owned(" **hi** ")));
    let cmds = s.handle(SessionMessage::SendMessage);
    assert_eq!(cmds, vec![Command::Send { room_id: owned("!a:x"), body: owned(" **hi** ") }]);
    assert_eq!(s.message_draft, "");
}

#[test]
fn blank_drafts_and_drafts_without_a_room_stay() {
    let mut s = in_room("!a:x");
    s.message_draft = owned(" \n ");
    assert_eq!(s.handle(SessionMessage::SendMessage), vec![]);
    assert_eq!(s.message_draft, " \n ");
    let mut s = SessionState::new();
    s.message_draft = owned("hi");
    assert_eq!(s.handle(SessionMessage::SendMessage), vec![]);
    assert_eq!(s.message_draft, "hi");
}

#[test]
fn the_outcome_of_sending_is_shown() {
    let mut s = SessionState::new();
    s.handle(SessionMessage::MessageSent(Err(owned("offline"))));
    assert_eq!(s.status.as_deref(), Some("Failed to send: offline"));
    s.handle(SessionMessage::MessageSent(Ok(())));
    assert_eq!(s.status, None);
}

#[test]
fn a_verification_runs_its_course() {
    let mut s = SessionState::new();
    s.pushed(MeshUpdate::VerificationRequested { user_id: user("bob"), flow_id: owned("f") });
    assert_eq!(s.verification, Some(prompt("f")));
    assert_eq!(s.handle(SessionMessage::AcceptVerification), vec![Command::Accept(target("f"))]);
    assert_eq!(s.verification.as_ref().unwrap().stage, VerifyStage::Accepted);
    let emojis = vec![SasEmoji { symbol: owned("🐶"), description: owned("Dog") }];
    s.pushed(MeshUpdate::VerificationEmojis { flow_id: owned("f"), emojis: emojis.clone() });
    assert_eq!(s.verification.as_ref().unwrap().stage, VerifyStage::Emojis(emojis));
    assert_eq!(s.handle(SessionMessage::ConfirmVerification), vec![Command::Confirm(target("f"))]);
    assert_eq!(s.verification.as_ref().unwrap().stage, VerifyStage::Confirmed);
    s.pushed(MeshUpdate::VerificationDone { flow_id: owned("f") });
    assert_eq!(s.verification, None);
    assert_eq!(s.status.as_deref(), Some("Device verified successfully."));
}

#[test]
fn a_verification_can_be_cancelled() {
    let mut s = SessionState::new();
    assert_eq!(s.handle(SessionMessage::CancelVerification), vec![]);
    assert_eq!(s.handle(SessionMessage::AcceptVerification), vec![]);
    assert_eq!(s.handle(SessionMessage::ConfirmVerification), vec![]);
    s.verification = Some(prompt("f"));
    assert_eq!(s.handle(SessionMessage::CancelVerification), vec![Command::Cancel(target("f"))]);
    assert_eq!(s.verification, None);
    s.verification = Some(prompt("f"));
    s.pushed(MeshUpdate::VerificationCancelled { flow_id: owned("f"), reason: owned("timeout") });
    assert_eq!(s.verification, None);
    assert_eq!(s.status.as_deref(), Some("Verification cancelled: timeout"));
    s.verification = Some(prompt("f"));
    s.handle(SessionMessage::VerificationActionFinished(Ok(())));
    assert_eq!(s.verification, Some(prompt("f")));
    s.handle(SessionMessage::VerificationActionFinished(Err(owned("gone"))));
    assert_eq!(s.verification, None);
    assert_eq!(s.status.as_deref(), Some("Verification failed: gone"));
}

#[test]
fn another_verification_is_left_alone() {
    let mut s = SessionState::new();
    s.verification = Some(prompt("f"));
    s.pushed(MeshUpdate::VerificationEmojis { flow_id: owned("g"), emojis: vec![] });
    s.pushed(MeshUpdate::VerificationDone { flow_id: owned("g") });
    s.pushed(MeshUpdate::VerificationCancelled { flow_id: owned("g"), reason: owned("x") });
    assert_eq!(s.verification, Some(prompt("f")));
    assert_eq!(s.status, None);
}

#[test]
fn an_incoming_call_rings() {
    let mut s = SessionState::new();
    let ring = |id: &str| MeshUpdate::IncomingCall {
        call_id: owned(id),
        room_id: owned("!a:x"),
        caller: user("bob"),
    };
    assert_eq!(s.handle(SessionMessage::AcceptCall), vec![]);
    s.pushed(ring("one"));
    assert_eq!(s.call, Some(call("one", CallUiState::IncomingRinging)));
    s.pushed(ring("two"));
    assert_eq!(s.call.as_ref().unwrap().call_id, "one");
    assert_eq!(s.handle(SessionMessage::AcceptCall), vec![Command::AcceptCall]);
    s.pushed(MeshUpdate::CallConnected { call_id: owned("one") });
    assert_eq!(s.handle(SessionMessage::AcceptCall), vec![]);
}

#[test]
fn a_call_is_placed_in_the_open_room() {
    let mut s = SessionState::new();
    assert_eq!(s.handle(SessionMessage::PlaceCall), vec![]);
    s.rooms = vec![room("!a:x", "Alice"), room("!b:x", "Bob")];
    s.selected_room = Some(owned("!b:x"));
    let cmds = s.handle(SessionMessage::PlaceCall);
    assert_eq!(cmds, vec![Command::PlaceCall { room_id: owned("!b:x") }]);
    let ui = s.call.as_ref().unwrap();
    assert_eq!((ui.peer.as_str(), ui.call_id.as_str()), ("Bob", ""));
    assert_eq!(ui.state, CallUiState::OutgoingRinging);
    assert_eq!(s.handle(SessionMessage::PlaceCall), vec![]);
    let mut s = in_room("!z:x");
    s.handle(SessionMessage::PlaceCall);
    assert_eq!(s.call.unwrap().peer, "call");
}

#[test]
fn a_call_goes_through_its_states() {
    let mut s = SessionState::new();
    s.call = Some(call("c", CallUiState::IncomingRinging));
    s.self_muted = true;
    let cmds = s.pushed(MeshUpdate::CallConnecting { call_id: owned("c") });
    assert_eq!(cmds, vec![Command::CarryAudioState { muted: true, deafened: false }]);
    assert_eq!(s.call.as_ref().unwrap().state, CallUiState::Connecting);
    s.pushed(MeshUpdate::CallConnected { call_id: owned("other") });
    assert_eq!(s.call.as_ref().unwrap().state, CallUiState::Connecting);
    s.pushed(MeshUpdate::CallConnected { call_id: owned("c") });
    assert_eq!(s.call.as_ref().unwrap().state, CallUiState::Connected);
    s.pushed(MeshUpdate::CallEnded { call_id: owned("other"), reason: owned("x") });
    assert!(s.call.is_some());
    s.pushed(MeshUpdate::CallEnded { call_id: owned("c"), reason: owned("hung up") });
    assert_eq!(s.call, None);
    assert_eq!(s.status.as_deref(), Some("Call ended: hung up"));
}

#[test]
fn a_placed_call_is_followed_to_its_end() {
    let mut s = in_room("!a:x");
    s.handle(SessionMessage::PlaceCall);
    s.pushed(MeshUpdate::CallConnected { call_id: owned("c") });
    assert_eq!(s.call.as_ref().unwrap().state, CallUiState::OutgoingRinging);
    s.pushed(MeshUpdate::CallConnecting { call_id: owned("c") });
    let ui = s.call.as_ref().unwrap();
    assert_eq!((ui.call_id.as_str(), ui.state), ("c", CallUiState::Connecting));
    s.pushed(MeshUpdate::CallConnecting { call_id: owned("other") });
    assert_eq!(s.call.as_ref().unwrap().call_id, "c");
    s.pushed(MeshUpdate::CallConnected { call_id: owned("c") });
    assert_eq!(s.call.as_ref().unwrap().state, CallUiState::Connected);
    s.pushed(MeshUpdate::CallEnded { call_id: owned("c"), reason: owned("hung up") });
    assert_eq!(s.call, None);
    assert_eq!(s.status.as_deref(), Some("Call ended: hung up"));
}

#[test]
fn a_recovery_key_is_shown_one_time() {
    let mut s = SessionState::new();
    s.handle(SessionMessage::EnsureBackupFinished(Ok(Some(owned("key")))));
    s.handle(SessionMessage::RoomSelected(owned("!a:x")));
    assert_eq!(s.backup.new_key.as_deref(), Some("key"));
    s.handle(SessionMessage::ToggleSettings(facts()));
    assert_eq!(s.backup.new_key.as_deref(), Some("key"));
    s.handle(SessionMessage::ToggleSettings(facts()));
    assert_eq!(s.backup.new_key, None);
    s.handle(SessionMessage::ToggleSettings(facts()));
    s.handle(SessionMessage::BackupSetupFinished(Ok(owned("new")), BackupStatus::Enabled));
    assert_eq!(s.backup.new_key.as_deref(), Some("new"));
    s.handle(SessionMessage::RoomSelected(owned("!b:x")));
    assert!(!s.show_settings);
    assert_eq!(s.backup.new_key, None);
}

#[test]
fn every_button_has_its_message() {
    let meant = |press| message_of(press, facts(), None);
    let session = |message| Message::Session(message);
    assert_eq!(meant(Press::LoginSubmitted), Message::LoginSubmitted);
    assert_eq!(
        meant(Press::RoomSelected(owned("!a:x"))),
        session(SessionMessage::RoomSelected(owned("!a:x")))
    );
    assert_eq!(meant(Press::SendMessage), session(SessionMessage::SendMessage));
    assert_eq!(meant(Press::AcceptVerification), session(SessionMessage::AcceptVerification));
    assert_eq!(meant(Press::ConfirmVerification), session(SessionMessage::ConfirmVerification));
    assert_eq!(meant(Press::CancelVerification), session(SessionMessage::CancelVerification));
    assert_eq!(meant(Press::ToggleSettings), session(SessionMessage::ToggleSettings(facts())));
    assert_eq!(
        message_of(Press::ThemeChosen(owned("custom")), facts(), Some(Palette::default())),
        Message::ThemeChosen { choice: owned("custom"), custom: Some(Palette::default()) }
    );
    assert_eq!(meant(Press::LogOut), Message::LogOut);
    assert_eq!(meant(Press::PlaceCall), session(SessionMessage::PlaceCall));
    assert_eq!(meant(Press::AcceptCall), session(SessionMessage::AcceptCall));
    assert_eq!(meant(Press::HangUp), session(SessionMessage::HangUp));
    assert_eq!(meant(Press::ToggleMute), session(SessionMessage::ToggleMute));
    assert_eq!(meant(Press::ToggleDeafen), session(SessionMessage::ToggleDeafen));
    assert_eq!(meant(Press::SetupBackup), session(SessionMessage::SetupBackup));
    assert_eq!(meant(Press::RestoreBackup), session(SessionMessage::RestoreBackup));
}

#[test]
fn a_call_can_be_ended_or_fail() {
    let mut s = SessionState::new();
    s.call = Some(call("c", CallUiState::Connected));
    assert_eq!(s.handle(SessionMessage::HangUp), vec![Command::HangUp]);
    assert_eq!(s.call, None);
    s.call = Some(call("c", CallUiState::Connected));
    s.handle(SessionMessage::CallActionFinished(Ok(())));
    assert!(s.call.is_some());
    s.handle(SessionMessage::CallActionFinished(Err(owned("no microphone"))));
    assert_eq!(s.call, None);
    assert_eq!(s.status.as_deref(), Some("Call failed: no microphone"));
}

#[test]
fn muting_and_deafening() {
    let mut s = SessionState::new();
    assert_eq!(s.handle(SessionMessage::ToggleMute), vec![Command::SetMuted(true)]);
    assert_eq!(s.handle(SessionMessage::ToggleMute), vec![Command::SetMuted(false)]);
    assert_eq!(s, SessionState::new());
    assert_eq!(s.handle(SessionMessage::ToggleDeafen), vec![Command::SetDeafened(true)]);
    assert!(s.self_muted && s.self_deafened);
    s.handle(SessionMessage::ToggleMute);
    assert!(!s.self_muted && s.self_deafened);
    assert_eq!(s.handle(SessionMessage::ToggleDeafen), vec![Command::SetDeafened(false)]);
    assert_eq!(s, SessionState::new());
}

#[test]
fn settings_show_fresh_facts() {
    let mut s = SessionState::new();
    assert_eq!(s.handle(SessionMessage::ToggleSettings(facts())), vec![]);
    assert!(s.show_settings);
    assert_eq!(s.backup.status, Some(BackupStatus::Incomplete));
    assert_eq!(s.input_devices, vec!["(System default)", "Mic"]);
    assert_eq!(s.output_devices, vec!["(System default)"]);
    let mut later = facts();
    later.backup = BackupStatus::Enabled;
    s.handle(SessionMessage::ToggleSettings(later));
    assert!(!s.show_settings);
    assert_eq!(s.backup.status, Some(BackupStatus::Incomplete));
}

#[test]
fn devices_are_applied() {
    let mut s = SessionState::new();
    let cmds = s.handle(SessionMessage::InputDeviceSelected(owned("Mic")));
    assert_eq!(cmds, vec![Command::SetAudioDevices { input: Some(owned("Mic")), output: None }]);
    let cmds = s.handle(SessionMessage::OutputDeviceSelected(owned("Speaker")));
    assert_eq!(
        cmds,
        vec![Command::SetAudioDevices {
            input: Some(owned("Mic")),
            output: Some(owned("Speaker")),
        }]
    );
    let cmds = s.handle(SessionMessage::InputDeviceSelected(owned(DEFAULT_DEVICE)));
    assert_eq!(
        cmds,
        vec![Command::SetAudioDevices { input: None, output: Some(owned("Speaker")) }]
    );
}

#[test]
fn a_backup_is_set_up() {
    let mut s = SessionState::new();
    assert_eq!(s.handle(SessionMessage::SetupBackup), vec![Command::EnableBackup]);
    assert!(s.backup.busy);
    assert_eq!(s.backup.message.as_deref(), Some("Setting up Secure Backup…"));
    s.handle(SessionMessage::BackupSetupFinished(Err(owned("quota")), BackupStatus::Unknown));
    assert!(!s.backup.busy);
    assert_eq!(s.backup.message.as_deref(), Some("Setup failed: quota"));
    assert_eq!(s.backup.status, None);
    s.handle(SessionMessage::BackupSetupFinished(Ok(owned("key")), BackupStatus::Enabled));
    assert_eq!(s.backup.new_key.as_deref(), Some("key"));
    assert_eq!(s.backup.status, Some(BackupStatus::Enabled));
    assert_eq!(
        s.backup.message.as_deref(),
        Some("Secure Backup enabled. Save the recovery key below — it will not be shown again.")
    );
}

#[test]
fn a_backup_is_restored() {
    let mut s = in_room("!a:x");
    assert_eq!(s.handle(SessionMessage::RestoreBackup), vec![]);
    s.handle(SessionMessage::RecoveryKeyInput(owned("  Es T1 \n")));
    let cmds = s.handle(SessionMessage::RestoreBackup);
    assert_eq!(cmds, vec![Command::RestoreBackup { recovery_key: owned("Es T1") }]);
    assert!(s.backup.busy);
    assert_eq!(s.backup.message.as_deref(), Some("Restoring from backup…"));
    let cmds = s.handle(SessionMessage::BackupRestoreFinished(
        Err(owned("bad key")),
        BackupStatus::Unknown,
    ));
    assert_eq!(cmds, vec![]);
    assert_eq!(s.backup.message.as_deref(), Some("Restore failed: bad key"));
    assert_eq!(s.backup.key_input, "  Es T1 \n");
    let cmds = s.handle(SessionMessage::BackupRestoreFinished(Ok(()), BackupStatus::Enabled));
    assert_eq!(
        cmds,
        vec![Command::LoadTimeline { room_id: owned("!a:x"), limit: TIMELINE_LIMIT }]
    );
    assert_eq!(s.backup.key_input, "");
    assert_eq!(s.backup.status, Some(BackupStatus::Enabled));
    assert!(s.backup.message.unwrap().starts_with("Restored from backup."));
}

#[test]
fn an_automatic_backup_surfaces_its_key() {
    let mut s = SessionState::new();
    s.handle(SessionMessage::EnsureBackupFinished(Err(owned("offline"))));
    assert_eq!(s, SessionState::new());
    s.handle(SessionMessage::EnsureBackupFinished(Ok(None)));
    assert_eq!(s.backup.status, Some(BackupStatus::Enabled));
    assert_eq!(s.status, None);
    s.handle(SessionMessage::EnsureBackupFinished(Ok(Some(owned("key")))));
    assert_eq!(s.backup.new_key.as_deref(), Some("key"));
    assert_eq!(
        s.status.as_deref(),
        Some("Secure Backup enabled — open Settings to save your recovery key.")
    );
    assert_eq!(
        s.backup.message.as_deref(),
        Some("Secure Backup was enabled automatically. Open Settings to view and save your recovery key.")
    );
}
