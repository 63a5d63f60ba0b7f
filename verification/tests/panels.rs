use mesh::client::BackupStatus;
use mesh::client::MemberInfo;
use mesh::client::MyProfile;
use mesh::client::RoomSummary;
use mesh::client::TimelineMessage;
use mesh::clock::LocalTime;
use mesh::clock::EPOCH_DAY;
use mesh::events::SasEmoji;
use mesh::ids::UserId;
use mesh::panels::backup_view;
use mesh::panels::call_bar;
use mesh::panels::login_view;
use mesh::panels::member_list_view;
use mesh::panels::panel_button;
use mesh::panels::room_button;
use mesh::panels::room_view;
use mesh::panels::room_view_at;
use mesh::panels::session_view;
use mesh::panels::settings_view;
use mesh::panels::sidebar_view;
use mesh::panels::user_panel_view;
use mesh::panels::verification_banner;
use mesh::panels::view;
use mesh::panels::MainPanel;
use mesh::panels::RoomBody;
use mesh::panels::ScreenView;
use mesh::state::App;
use mesh::state::BackupUi;
use mesh::state::CallUi;
use mesh::state::CallUiState;
use mesh::state::LoginForm;
use mesh::state::Screen;
use mesh::state::SessionState;
use mesh::state::VerificationPrompt;
use mesh::state::VerifyStage;
use mesh::theme::Color;
use mesh::theme::Palette;
use mesh::timeline::TimelineRow;
use mesh::update::boot;
use mesh::widgets::avatar;
use mesh::widgets::avatar_color;
use mesh::widgets::Control;
use mesh::widgets::Line;
use mesh::widgets::Press;
use mesh::widgets::Tone;

fn owned(s: &str) -> String {
    s.to_owned()
}

fn user(name: &str) -> UserId {
    UserId::parse(&format!("@{name}:example.org")).unwrap()
}

fn room(id: &str, name: &str, is_direct: bool, unread: u64) -> RoomSummary {
    RoomSummary {
        id: owned(id),
        name: owned(name),
        topic: Some(format!("about {name}")),
        unread_notifications: unread,
        is_direct,
        last_activity_ms: None,
    }
}

fn text(content: &str, size: u16, tone: Tone) -> Line {
    Line::new(owned(content), size, tone)
}

fn button(label: &str, press: Press) -> Control {
    Control { label: owned(label), press: Some(press) }
}

fn prompt(stage: VerifyStage) -> VerificationPrompt {
    VerificationPrompt { user_id: user("bob"), flow_id: owned("f"), stage }
}

#[test]
fn a_tone_is_a_color_of_the_palette() {
    let palette = Palette::default();
    assert_eq!(Tone::Plain.color(&palette), None);
    assert_eq!(Tone::Text.color(&palette), Some(palette.text()));
    assert_eq!(Tone::Muted.color(&palette), Some(palette.text_muted()));
    assert_eq!(Tone::Accent.color(&palette), Some(palette.accent()));
    assert_eq!(Tone::AccentText.color(&palette), Some(palette.accent_text()));
    assert_eq!(Tone::Danger.color(&palette), Some(palette.danger()));
}

#[test]
fn an_avatar_has_an_initial_and_a_color() {
    assert_eq!(avatar("alice").initial, "A");
    assert_eq!(avatar("  7up").initial, "7");
    assert_eq!(avatar("-- é").initial, "É");
    assert_eq!(avatar("ß").initial, "SS");
    assert_eq!(avatar("…").initial, "?");
    assert_eq!(avatar("").initial, "?");
    assert_eq!(avatar_color(""), Color { r: 88, g: 101, b: 242 });
    assert_eq!(avatar_color("a"), Color { r: 87, g: 171, b: 111 });
    assert_eq!(avatar_color("ab"), Color { r: 237, g: 102, b: 105 });
    assert_eq!(avatar_color("é"), Color { r: 155, g: 120, b: 205 });
}

#[test]
fn a_verification_request_can_be_taken_up() {
    let banner = verification_banner(&prompt(VerifyStage::Requested));
    assert_eq!(
        banner.heading,
        text("Verification request from @bob:example.org", 14, Tone::Text)
    );
    assert_eq!(
        banner.controls,
        vec![
            button("Accept", Press::AcceptVerification),
            button("Decline", Press::CancelVerification)
        ]
    );
}

#[test]
fn emojis_are_compared_in_order() {
    let emojis = vec![
        SasEmoji { symbol: owned("🐶"), description: owned("Dog") },
        SasEmoji { symbol: owned("🔑"), description: owned("Key") },
    ];
    let banner = verification_banner(&prompt(VerifyStage::Emojis(emojis)));
    assert_eq!(banner.emojis.len(), 2);
    assert_eq!(banner.emojis[0].symbol, text("🐶", 28, Tone::Plain));
    assert_eq!(banner.emojis[1].word, text("Key", 11, Tone::Muted));
    assert_eq!(
        banner.controls,
        vec![
            button("They match", Press::ConfirmVerification),
            button("They don't match", Press::CancelVerification)
        ]
    );
}

#[test]
fn a_verification_waits_for_the_other_side() {
    let banner = verification_banner(&prompt(VerifyStage::Accepted));
    assert_eq!(banner.controls, vec![button("Cancel", Press::CancelVerification)]);
    let banner = verification_banner(&prompt(VerifyStage::Confirmed));
    assert_eq!(
        banner.heading,
        text("Waiting for the other side to confirm...", 14, Tone::Text)
    );
    assert!(banner.controls.is_empty() && banner.emojis.is_empty());
}

#[test]
fn the_backup_controls_follow_its_state() {
    let panel = backup_view(&BackupUi::default());
    assert_eq!(panel.status, text("Checking backup status…", 13, Tone::Text));
    assert_eq!(panel.setup, button("Set up Secure Backup", Press::SetupBackup));
    assert_eq!(panel.restore, Some(button("Restore", Press::RestoreBackup)));
    assert!(panel.new_key.is_none() && panel.message.is_none());

    let backup = BackupUi {
        status: Some(BackupStatus::Enabled),
        new_key: Some(owned("EsT")),
        key_input: owned("typing"),
        busy: false,
        message: Some(owned("note")),
    };
    let panel = backup_view(&backup);
    assert_eq!(panel.setup, button("Reset Secure Backup", Press::SetupBackup));
    assert_eq!(panel.new_key.unwrap().key, text("EsT", 15, Tone::Text));
    assert_eq!(panel.key.value, "typing");
    assert_eq!(panel.key.placeholder, "Recovery key");
    assert_eq!(panel.key.submit, Some(Press::RestoreBackup));
    assert_eq!(panel.message, Some(text("note", 12, Tone::Accent)));
}

#[test]
fn a_busy_backup_waits() {
    let backup = BackupUi { busy: true, ..BackupUi::default() };
    let panel = backup_view(&backup);
    assert_eq!(panel.setup, Control { label: owned("Working…"), press: None });
    assert_eq!(panel.restore, None);
}

#[test]
fn each_backup_status_has_its_words() {
    let words = |status| {
        let backup = BackupUi { status: Some(status), ..BackupUi::default() };
        backup_view(&backup).status.content
    };
    assert_eq!(words(BackupStatus::Enabled), "Enabled — your message keys are backed up.");
    assert!(words(BackupStatus::Disabled).starts_with("Not set up."));
    assert!(words(BackupStatus::Incomplete).starts_with("A backup exists"));
    assert_eq!(words(BackupStatus::Unknown), "Checking backup status…");
}

#[test]
fn settings_list_the_themes() {
    let mut session = SessionState::new();
    session.input_devices = vec![owned("(System default)"), owned("Mic")];
    session.selected_input = owned("Mic");
    let panel = settings_view(&session, "Nord", "/cfg/theme.toml");
    let labels: Vec<(&str, &str, bool)> = panel
        .themes
        .iter()
        .map(|t| (t.marker.content.as_str(), t.label.content.as_str(), t.active))
        .collect();
    assert_eq!(
        labels,
        vec![
            ("○", "Catppuccin Mocha", false),
            ("●", "Nord", true),
            ("○", "Gruvbox Dark", false),
            ("○", "Custom (theme.toml)", false),
        ]
    );
    assert_eq!(panel.themes[3].press, Press::ThemeChosen(owned("custom")));
    assert_eq!(panel.path_note.content, "Custom colors are read from /cfg/theme.toml");
    assert_eq!(panel.close, button("Close", Press::ToggleSettings));
    assert_eq!(panel.audio.microphone.options, vec!["(System default)", "Mic"]);
    assert_eq!(panel.audio.microphone.selected, "Mic");
    assert_eq!(panel.audio.speaker.selected, "(System default)");
    assert!(settings_view(&session, "custom", "x").themes[3].active);
}

fn call(state: CallUiState) -> CallUi {
    CallUi { call_id: owned("c"), peer: owned("Bob"), state }
}

#[test]
fn the_call_bar_offers_what_fits() {
    let bar = call_bar(&call(CallUiState::IncomingRinging));
    assert_eq!(bar.title, text("📞  Bob  —  Incoming call", 15, Tone::Text));
    assert_eq!(
        bar.controls,
        vec![button("Accept", Press::AcceptCall), button("Decline", Press::HangUp)]
    );
    for (state, label) in [
        (CallUiState::OutgoingRinging, "Ringing…"),
        (CallUiState::Connecting, "Connecting…"),
        (CallUiState::Connected, "In call"),
    ] {
        let bar = call_bar(&call(state));
        assert_eq!(bar.title.content, format!("📞  Bob  —  {label}"));
        assert_eq!(bar.controls, vec![button("Hang up", Press::HangUp)]);
    }
}

#[test]
fn the_member_list_marks_the_user() {
    let members = vec![
        MemberInfo { user_id: user("bob"), display_name: owned("Bob"), is_me: false },
        MemberInfo { user_id: user("me"), display_name: owned("Me"), is_me: true },
    ];
    let list = member_list_view(&members);
    assert_eq!(list.title, text("Members — 2", 12, Tone::Muted));
    assert_eq!(list.rows[0].name, text("Bob", 14, Tone::Text));
    assert_eq!(list.rows[1].name, text("Me", 14, Tone::Accent));
    assert_eq!(list.rows[1].avatar, avatar("Me"));
    assert_eq!(member_list_view(&vec![]).title.content, "Members — 0");
}

#[test]
fn an_active_panel_button_is_tinted() {
    assert_eq!(panel_button("x", Press::HangUp, true).tone, Tone::Danger);
    assert_eq!(panel_button("x", Press::HangUp, false).tone, Tone::Text);
}

#[test]
fn the_user_panel_shows_who_and_how() {
    let mut session = SessionState::new();
    let panel = user_panel_view(&session);
    assert_eq!(panel.name, text("…", 14, Tone::Text));
    assert_eq!(panel.avatar.initial, "?");
    assert_eq!(panel.status, text("Not in a call", 11, Tone::Muted));
    let labels: Vec<&str> = panel.controls.iter().map(|c| c.label.as_str()).collect();
    assert_eq!(labels, vec!["🎙", "🎧"]);

    session.my_profile = Some(MyProfile { user_id: user("me"), display_name: owned("me") });
    session.self_muted = true;
    session.self_deafened = true;
    session.call = Some(call(CallUiState::Connected));
    let panel = user_panel_view(&session);
    assert_eq!(panel.name.content, "me");
    assert_eq!(panel.avatar.initial, "M");
    assert_eq!(panel.status, text("In call", 11, Tone::Accent));
    let labels: Vec<&str> = panel.controls.iter().map(|c| c.label.as_str()).collect();
    assert_eq!(labels, vec!["🔇", "🔇", "📵"]);
    assert!(panel.controls.iter().all(|c| c.tone == Tone::Danger));
    assert_eq!(panel.controls[2].press, Press::HangUp);
}

#[test]
fn a_room_button_has_a_badge_for_unread() {
    let quiet = room_button(&room("!a:x", "A", false, 0), false);
    assert_eq!(quiet.badge, None);
    let loud = room_button(&room("!a:x", "A", false, 12), true);
    assert_eq!(loud.badge, Some(text("12", 11, Tone::AccentText)));
    assert!(loud.selected);
    assert_eq!(loud.press, Press::RoomSelected(owned("!a:x")));
}

#[test]
fn the_sidebar_splits_the_rooms() {
    let mut session = SessionState::new();
    assert!(sidebar_view(&session).sections.is_empty());
    session.rooms = vec![
        room("!a:x", "General", false, 0),
        room("!b:x", "Bob", true, 1),
        room("!c:x", "Random", false, 0),
        room("!d:x", "Ann", true, 0),
    ];
    session.selected_room = Some(owned("!c:x"));
    let sidebar = sidebar_view(&session);
    let outline: Vec<(&str, Vec<&str>)> = sidebar
        .sections
        .iter()
        .map(|s| {
            let names = s.rooms.iter().map(|r| r.name.content.as_str()).collect();
            (s.label.content.as_str(), names)
        })
        .collect();
    assert_eq!(
        outline,
        vec![("Direct messages", vec!["Bob", "Ann"]), ("Rooms", vec!["General", "Random"])]
    );
    assert!(!sidebar.sections[1].rooms[0].selected);
    assert!(sidebar.sections[1].rooms[1].selected);
    assert_eq!(sidebar.log_out, button("Log out", Press::LogOut));
    session.rooms = vec![room("!a:x", "General", false, 0)];
    assert_eq!(sidebar_view(&session).sections[0].label.content, "Rooms");
}

fn message(body: &str) -> TimelineMessage {
    TimelineMessage {
        sender: user("bob"),
        sender_name: owned("Bob"),
        body: owned(body),
        timestamp_ms: 0,
    }
}

#[test]
fn without_an_open_room_there_is_a_hint() {
    let panel = room_view(&SessionState::new());
    assert_eq!(panel.header, text("Select a room", 20, Tone::Text));
    assert_eq!(panel.call, None);
    assert_eq!(
        panel.body,
        RoomBody::Hint(text(
            "Pick a room from the sidebar to start chatting.",
            14,
            Tone::Muted
        ))
    );
}

#[test]
fn the_open_room_is_shown() {
    let mut session = SessionState::new();
    session.rooms = vec![room("!a:x", "Alpha", false, 0)];
    session.selected_room = Some(owned("!a:x"));
    session.timeline = vec![message("hi")];
    session.message_draft = owned("dra");
    session.status = Some(owned("oops"));
    session.verification = Some(prompt(VerifyStage::Requested));
    let times = vec![Some(LocalTime { day: EPOCH_DAY, hour: 1, minute: 2 })];
    let panel = room_view_at(&session, &times, EPOCH_DAY);
    assert_eq!(panel.header.content, "Alpha");
    assert_eq!(panel.topic, Some(text("about Alpha", 12, Tone::Muted)));
    assert_eq!(panel.call, Some(button("📞 Call", Press::PlaceCall)));
    assert!(panel.banner.is_some());
    assert_eq!(panel.status, Some(text("oops", 13, Tone::Danger)));
    assert_eq!(panel.draft.value, "dra");
    assert_eq!(panel.draft.placeholder, "Message");
    assert_eq!(panel.draft.submit, Some(Press::SendMessage));
    assert_eq!(panel.send, button("Send", Press::SendMessage));
    match panel.body {
        RoomBody::Timeline(rows) => {
            assert_eq!(rows.len(), 2);
            assert_eq!(rows[0], TimelineRow::Day(text("Today", 12, Tone::Muted)));
        }
        other => panic!("{other:?}"),
    }
    session.call = Some(call(CallUiState::Connected));
    assert_eq!(room_view(&session).call, None);
    session.selected_room = Some(owned("!gone:x"));
    let panel = room_view(&session);
    assert_eq!(panel.header.content, "Select a room");
    assert_eq!(panel.topic, None);
}

#[test]
fn the_login_form_is_shown() {
    let form = LoginForm {
        homeserver: owned("https://matrix.org"),
        username: owned("alice"),
        password: owned("pw"),
        error: Some(owned("no")),
    };
    let panel = login_view(&form, false);
    assert_eq!(panel.homeserver.value, "https://matrix.org");
    assert_eq!(panel.username.placeholder, "Username");
    assert!(panel.password.secret && !panel.username.secret);
    assert_eq!(panel.password.submit, Some(Press::LoginSubmitted));
    assert_eq!(panel.error, Some(text("no", 13, Tone::Plain)));
    assert_eq!(panel.submit, button("Log in", Press::LoginSubmitted));
    let busy = login_view(&form, true);
    assert_eq!(busy.submit, Control { label: owned("Logging in..."), press: None });
}

#[test]
fn the_session_screen_has_its_panes() {
    let mut session = SessionState::new();
    let panel = session_view(&session, "Nord", "p", true);
    assert!(matches!(panel.main, MainPanel::Room(_)));
    assert!(panel.call.is_none() && panel.members.is_none());
    session.selected_room = Some(owned("!a:x"));
    assert!(session_view(&session, "Nord", "p", true).members.is_some());
    assert!(session_view(&session, "Nord", "p", false).members.is_none());
    session.show_settings = true;
    session.call = Some(call(CallUiState::Connected));
    let panel = session_view(&session, "Nord", "p", true);
    assert!(matches!(panel.main, MainPanel::Settings(_)));
    assert!(panel.call.is_some() && panel.members.is_none());
}

#[test]
fn every_screen_has_a_view() {
    let mut app: App = boot(None, None, true).0;
    assert_eq!(view(&app, "p", true), ScreenView::Notice(owned("Restoring session...")));
    app.screen = Screen::LoggedOut(LoginForm::default());
    match view(&app, "p", true) {
        ScreenView::Login(panel) => assert!(panel.submit.press.is_some()),
        other => panic!("{other:?}"),
    }
    app.screen = Screen::LoggingIn(LoginForm::default());
    match view(&app, "p", true) {
        ScreenView::Login(panel) => assert!(panel.submit.press.is_none()),
        other => panic!("{other:?}"),
    }
    app.screen = Screen::LoggedIn(SessionState::new());
    assert!(matches!(view(&app, "p", true), ScreenView::Session(_)));
}
