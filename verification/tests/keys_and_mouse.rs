use simplex_tui::client::ChatDeleteMode;
use simplex_tui::command::SimplexCommand;
use simplex_tui::keys::{Key, KeyCode};
use simplex_tui::model::{
    Attachment, AttachmentKind, ChatDeletionSettings, ChatFeatures, ChatRef, ChatSummary, Message, ServerEntry,
    ServerProtocol, User,
};
use simplex_tui::mouse::{HitAreas, MouseKind, Rect};
use simplex_tui::prefs::Preferences;
use simplex_tui::state::{
    AppEvent, AppState, ChatDeleteConfirmation, ChatDeletionDialog, InputMode, Section, StartupState,
};

fn app() -> AppState {
    AppState::new(Preferences::default())
}

fn press(code: KeyCode) -> Key {
    Key { code, shift: false, alt: false, control: false }
}

fn typed(c: char) -> Key {
    press(KeyCode::Char(c))
}

fn rect(x: u16, y: u16, width: u16, height: u16) -> Rect {
    Rect { x, y, width, height }
}

fn areas(area: Rect) -> HitAreas {
    let nowhere = rect(0, 0, 0, 0);
    HitAreas {
        area,
        composer: nowhere,
        send: nowhere,
        jump_to_latest: nowhere,
        delete_cancel: nowhere,
        delete_ok: nowhere,
        chat_deletion_close: nowhere,
        chat_deletion_change: nowhere,
        download_cancel_no: nowhere,
        download_cancel_yes: nowhere,
        messages: Vec::new(),
        reactions: Vec::new(),
        chat_settings: Vec::new(),
    }
}

fn chat(r: &str, name: &str) -> ChatSummary {
    ChatSummary { chat_ref: ChatRef(r.into()), display_name: name.into(), unread_count: 0 }
}

fn user(id: i64, name: &str) -> User {
    User { id, display_name: name.into(), notifications: true, active: true }
}

#[test]
fn app_mouse_selects_tabs_and_the_exact_list_row() {
    let mut app = app();
    let mut hits = areas(rect(0, 0, 100, 30));
    hits.composer = rect(35, 20, 50, 5);
    app.composer_focused = true;

    app.handle_mouse(&hits, MouseKind::LeftDown, 12, 1, 0);
    assert_eq!(app.section, Section::Profiles);
    assert!(!app.composer_focused);

    app.handle_mouse(&hits, MouseKind::LeftDown, 23, 1, 0);
    assert_eq!(app.section, Section::Settings);

    app.handle_mouse(&hits, MouseKind::LeftDown, 3, 7, 0);
    assert_eq!(app.selected_setting, 2);

    app.handle_mouse(&hits, MouseKind::LeftDown, 3, 1, 0);
    assert_eq!(app.section, Section::Chats);
}

#[test]
fn app_enter_sends_but_shift_enter_inserts_a_newline() {
    let mut app = app();
    app.chats = vec![chat("@7", "alice")];
    app.composer_focused = true;

    app.handle_key(typed('a'), 0);
    app.handle_key(Key { code: KeyCode::Enter, shift: true, alt: false, control: false }, 0);
    app.handle_key(typed('b'), 0);
    assert_eq!(app.composer, "a\nb");

    let outcome = app.handle_key(press(KeyCode::Enter), 0);
    let Some(SimplexCommand::SendMessage { chat_ref, text }) = outcome.command else {
        panic!("expected send command")
    };
    assert_eq!(chat_ref, ChatRef("@7".into()));
    assert_eq!(text, "a\nb");
    assert!(app.sending);
}

#[test]
fn pasted_invitation_is_sent_as_a_typed_wrapper_command() {
    let mut app = app();
    app.startup = StartupState::Ready(user(7, "alice"));

    app.handle_key(typed('p'), 0);
    assert_eq!(app.input_mode, InputMode::ConnectInvitation);
    app.handle_paste("  https://simplex.chat/contact#example\n");
    let outcome = app.handle_key(press(KeyCode::Enter), 0);

    let Some(SimplexCommand::ConnectInvitation { user_id, link }) = outcome.command else {
        panic!("expected typed connect-invitation command")
    };
    assert_eq!(user_id, 7);
    assert_eq!(link, "https://simplex.chat/contact#example");
    assert!(app.connection_loading);
    assert_eq!(app.input_mode, InputMode::Idle);
}

#[test]
fn app_clicking_send_button_sends_the_draft() {
    let mut app = app();
    app.chats = vec![chat("#3", "team")];
    app.composer = "hello team".into();
    let mut hits = areas(rect(0, 0, 100, 30));
    hits.send = rect(70, 20, 10, 5);

    let command = app.handle_mouse(&hits, MouseKind::LeftDown, 75, 22, 0);

    let Some(SimplexCommand::SendMessage { chat_ref, text }) = command else {
        panic!("expected send command")
    };
    assert_eq!(chat_ref, ChatRef("#3".into()));
    assert_eq!(text, "hello team");
}

#[test]
fn app_profile_delete_requires_explicit_confirmation() {
    let mut app = app();
    app.section = Section::Profiles;
    app.profiles = vec![user(9, "work")];

    app.handle_key(typed('d'), 0);
    assert_eq!(app.input_mode, InputMode::ConfirmDeleteProfile);
    let outcome = app.handle_key(press(KeyCode::Enter), 0);
    assert_eq!(app.input_mode, InputMode::Idle);
    assert!(outcome.command.is_none());

    app.handle_key(typed('d'), 0);
    let outcome = app.handle_key(typed('y'), 0);
    let Some(SimplexCommand::DeleteProfile(user_id)) = outcome.command else {
        panic!("expected delete-profile command")
    };
    assert_eq!(user_id, 9);
}

#[test]
fn empty_profile_row_accepts_a_name_and_creates_profile() {
    let mut app = app();
    app.section = Section::Profiles;

    for character in "Alice (Private)".chars() {
        app.handle_key(typed(character), 0);
    }
    assert_eq!(app.input_mode, InputMode::CreateProfile);
    assert_eq!(app.input, "Alice (Private)");
    let outcome = app.handle_key(press(KeyCode::Enter), 0);

    let Some(SimplexCommand::CreateProfile(display_name)) = outcome.command else {
        panic!("expected create-profile command")
    };
    assert_eq!(display_name, "Alice (Private)");
}

#[test]
fn clicking_empty_profile_row_focuses_the_name_editor() {
    let mut app = app();
    app.section = Section::Profiles;

    app.handle_app_event(AppEvent::SelectIndex(0));

    assert_eq!(app.input_mode, InputMode::CreateProfile);
}

#[test]
fn destructive_chat_actions_require_explicit_confirmation() {
    let confirmation = ChatDeleteConfirmation {
        chat_ref: ChatRef("@7".into()),
        chat_name: "bob".into(),
        mode: ChatDeleteMode::BlockContact,
    };
    let mut app = app();
    app.startup = StartupState::Ready(user(3, "alice"));
    app.chat_delete_confirmation = Some(confirmation.clone());

    let outcome = app.handle_key(press(KeyCode::Enter), 0);
    assert!(app.chat_delete_confirmation.is_none());
    assert!(outcome.command.is_none());

    app.chat_delete_confirmation = Some(confirmation);
    let outcome = app.handle_key(typed('y'), 0);
    let Some(SimplexCommand::DeleteChat { user_id, chat_ref, mode }) = outcome.command else {
        panic!("expected typed chat-delete command")
    };
    assert_eq!(user_id, 3);
    assert_eq!(chat_ref, ChatRef("@7".into()));
    assert_eq!(mode, ChatDeleteMode::BlockContact);
}

#[test]
fn app_download_cancel_defaults_to_no_and_requires_confirmation() {
    let mut app = app();
    app.messages = vec![Message {
        id: 8,
        text: String::new(),
        timestamp: String::new(),
        outgoing: false,
        reactions: Vec::new(),
        attachment: Some(Attachment {
            id: 41,
            name: "archive.zip".into(),
            size: 100,
            kind: AttachmentKind::File,
            status: "rcvTransfer".into(),
            progress: Some(50),
            path: None,
        }),
    }];

    assert!(app.download_attachment(8).0);
    let outcome = app.handle_key(press(KeyCode::Enter), 0);
    assert!(app.download_cancel_dialog.is_none());
    assert!(outcome.command.is_none());

    assert!(app.download_attachment(8).0);
    let outcome = app.handle_key(typed('y'), 0);
    let Some(SimplexCommand::CancelFile { file_id }) = outcome.command else {
        panic!("expected cancel-file command")
    };
    assert_eq!(file_id, 41);
}

#[test]
fn app_server_settings_toggle_and_add_both_protocols() {
    let mut app = app();
    app.section = Section::Settings;
    app.selected_setting = 5;
    app.startup = StartupState::Ready(user(3, "alice"));
    app.servers = vec![ServerEntry {
        protocol: ServerProtocol::Smp,
        address: "smp://key@smp.example".into(),
        enabled: true,
        preset: true,
    }];

    let outcome = app.handle_key(press(KeyCode::Enter), 0);
    let Some(SimplexCommand::SetServerEnabled { user_id, protocol, address, enabled }) = outcome.command else {
        panic!("expected server-toggle command")
    };
    assert_eq!(user_id, 3);
    assert_eq!(protocol, ServerProtocol::Smp);
    assert_eq!(address, "smp://key@smp.example");
    assert!(!enabled);

    app.handle_key(typed('p'), 0);
    assert_eq!(app.server_protocol, ServerProtocol::Xftp);
    app.handle_key(typed('a'), 0);
    app.input = "xftp://key@files.example".into();
    let outcome = app.handle_key(press(KeyCode::Enter), 0);
    let Some(SimplexCommand::AddServer { user_id, protocol, address }) = outcome.command else {
        panic!("expected add-server command")
    };
    assert_eq!((user_id, protocol), (3, ServerProtocol::Xftp));
    assert_eq!(address, "xftp://key@files.example");
}

#[test]
fn control_c_quits_from_anywhere() {
    let mut app = app();
    app.composer_focused = true;
    let outcome = app.handle_key(Key { code: KeyCode::Char('c'), shift: false, alt: false, control: true }, 0);
    assert!(matches!(outcome.event, Some(AppEvent::Quit)));
}

#[test]
fn scrolling_the_conversation_stops_at_its_top() {
    let mut app = app();
    app.chats = vec![chat("@1", "alice")];
    let hits = areas(rect(0, 0, 100, 30));
    app.handle_mouse(&hits, MouseKind::ScrollUp, 60, 10, 4);
    assert_eq!(app.chat_scroll, 3);
    app.handle_mouse(&hits, MouseKind::ScrollUp, 60, 10, 4);
    assert_eq!(app.chat_scroll, 4);
    app.handle_mouse(&hits, MouseKind::ScrollDown, 60, 10, 4);
    assert_eq!(app.chat_scroll, 1);
}

#[test]
fn clicking_a_conversation_setting_activates_it_and_deletion_waits_for_confirmation() {
    let mut app = app();
    app.startup = StartupState::Ready(user(3, "alice"));
    app.chats = vec![chat("@7", "bob")];
    app.chat_deletion_dialog = Some(ChatDeletionDialog {
        chat_ref: ChatRef("@7".into()),
        settings: Some(ChatDeletionSettings { local_ttl: None, disappearing_ttl: None }),
        features: Some(ChatFeatures::default()),
        selected: 0,
        pending: false,
        error: None,
    });
    let mut hits = areas(rect(0, 0, 100, 30));
    hits.chat_settings = (0..9).map(|i| (rect(40, 10 + i as u16, 30, 1), i)).collect();

    let command = app.handle_mouse(&hits, MouseKind::LeftDown, 45, 15, 0);
    assert!(command.is_none());
    assert_eq!(app.chat_deletion_dialog.as_ref().map(|d| d.selected), Some(5));
    let confirmation = app.chat_delete_confirmation.clone().expect("deleting asks first");
    assert_eq!(confirmation.mode, ChatDeleteMode::Conversation);
    assert_eq!(confirmation.chat_name, "bob");

    hits.chat_deletion_close = rect(40, 20, 10, 1);
    hits.chat_deletion_change = rect(60, 20, 10, 1);
    let command = app.handle_mouse(&hits, MouseKind::LeftDown, 10, 3, 0);
    assert!(command.is_none());
    assert!(app.chat_delete_confirmation.is_some());
    let command = app.handle_mouse(&hits, MouseKind::LeftDown, 62, 20, 0);
    let Some(SimplexCommand::DeleteChat { user_id, chat_ref, mode }) = command else {
        panic!("expected typed chat-delete command")
    };
    assert_eq!((user_id, chat_ref, mode), (3, ChatRef("@7".into()), ChatDeleteMode::Conversation));
    assert!(app.chat_delete_confirmation.is_none());
}

#[test]
fn a_draft_without_a_conversation_is_dropped() {
    let mut app = app();
    app.composer_focused = true;
    app.composer = "half a thought".into();
    let outcome = app.handle_key(typed('x'), 0);
    assert!(outcome.command.is_none());
    assert!(!app.composer_focused);
    assert_eq!(app.composer, "");
}

#[test]
fn an_unsent_command_gives_up_what_waited_for_it() {
    let mut app = app();
    app.sending = true;
    app.command_unsent(&SimplexCommand::SendMessage { chat_ref: ChatRef("@1".into()), text: "x".into() });
    assert!(!app.sending);
    assert_eq!(app.chat_error.as_deref(), Some("SimpleX worker is not available"));

    app.auto_delete_pending = Some(86_400);
    app.command_unsent(&SimplexCommand::SetAutoDelete { user_id: 1, seconds: 86_400 });
    assert_eq!(app.auto_delete_pending, None);
    assert_eq!(app.notice.as_deref(), Some("SimpleX worker is not available"));

    app.invitation_loading = true;
    app.command_unsent(&SimplexCommand::CreateInvitation { user_id: 1 });
    assert!(!app.invitation_loading);

    app.chat_loading = true;
    app.command_unsent(&SimplexCommand::LoadChat(ChatRef("@1".into())));
    assert!(app.chat_loading);
}

#[test]
fn app_chat_deletion_uses_a_combined_per_chat_override() {
    let chat_ref = ChatRef("@7".into());
    let mut app = app();
    app.section = Section::Chats;
    app.chats = vec![chat("@7", "bob")];
    app.startup = StartupState::Ready(user(3, "alice"));

    let outcome = app.handle_key(typed('s'), 0);
    let mut commands = outcome.command.into_iter().chain(outcome.loads);
    let Some(SimplexCommand::LoadChatDeletion { chat_ref: loaded }) = commands.next() else {
        panic!("expected chat-deletion load command")
    };
    assert_eq!(loaded, chat_ref);

    let event = simplex_tui::model::SimplexEvent::ChatDeletionLoaded {
        chat_ref: chat_ref.clone(),
        settings: ChatDeletionSettings { local_ttl: None, disappearing_ttl: None },
    };
    assert!(app.accepts(&event));
    app.apply_event(event);
    let outcome = app.handle_key(press(KeyCode::Enter), 0);
    let Some(SimplexCommand::SetChatDeletion { user_id, chat_ref: changed, seconds }) = outcome.command else {
        panic!("expected chat-deletion command")
    };
    assert_eq!((user_id, changed, seconds), (3, chat_ref, Some(0)));
    assert!(app.chat_deletion_dialog.as_ref().unwrap().pending);
}
