use simplex_tui::command::SimplexCommand;
use simplex_tui::model::{
    Attachment, AttachmentKind, ChatDeletionSettings, ChatRef, ChatSummary, Message,
    ServerEntry, ServerProtocol, SimplexEvent, User,
};
use simplex_tui::prefs::Preferences;
use simplex_tui::state::{AppEvent, AppState, InputMode, Section, StartupState};

fn app() -> AppState {
    AppState::new(Preferences::default())
}

fn chat(r: &str, name: &str, unread: u64) -> ChatSummary {
    ChatSummary {
        chat_ref: ChatRef(r.into()),
        display_name: name.into(),
        unread_count: unread,
    }
}

fn text_message(id: i64, text: &str, outgoing: bool) -> Message {
    Message {
        id,
        text: text.into(),
        timestamp: String::new(),
        outgoing,
        reactions: Vec::new(),
        attachment: None,
    }
}

fn alice() -> User {
    User {
        id: 3,
        display_name: "alice".into(),
        notifications: true,
        active: true,
    }
}

/// What the interface does on each tick: applies the worker's events, then follows the
/// selection.
fn tick(app: &mut AppState, events: Vec<SimplexEvent>) -> Vec<SimplexCommand> {
    for event in events {
        assert!(app.accepts(&event));
        app.apply_event(event);
    }
    app.follow_selection().into_iter().collect()
}

#[test]
fn app_navigation_keeps_separate_selections() {
    let mut app = app();
    app.chats = vec![chat("@1", "alice", 0), chat("@2", "bob", 0)];
    app.profiles = vec![User {
        id: 1,
        display_name: "personal".into(),
        notifications: true,
        active: true,
    }];
    app.handle_app_event(AppEvent::SelectNext);
    app.handle_app_event(AppEvent::SelectSection(Section::Profiles));
    app.handle_app_event(AppEvent::SelectNext);
    app.handle_app_event(AppEvent::SelectSection(Section::Settings));
    app.handle_app_event(AppEvent::SelectNext);
    app.handle_app_event(AppEvent::SelectNext);
    assert_eq!(app.selected_chat, 1);
    assert_eq!(app.selected_profile, 1);
    assert_eq!(app.selected_setting, 2);
}

#[test]
fn app_incoming_message_only_clears_when_its_chat_is_visible() {
    let mut app = app();
    app.section = Section::Settings;
    app.chats = vec![chat("@7", "alice", 0)];
    app.loaded_chat = Some(ChatRef("@7".into()));
    tick(
        &mut app,
        vec![SimplexEvent::MessageReceived {
            chat_ref: ChatRef("@7".into()),
            message: text_message(1, "hello", false),
        }],
    );
    assert_eq!(app.chats[0].unread_count, 1);
    assert!(app.messages.is_empty());

    app.handle_app_event(AppEvent::SelectSection(Section::Chats));
    assert_eq!(app.loaded_chat, None);
    tick(
        &mut app,
        vec![SimplexEvent::ChatLoaded {
            chat_ref: ChatRef("@7".into()),
            messages: Vec::new(),
        }],
    );
    assert_eq!(app.messages[0].text, "hello");
}

#[test]
fn app_outgoing_message_is_shown_without_becoming_unread() {
    let mut app = app();
    app.section = Section::Chats;
    app.chats = vec![chat("@7", "alice", 0)];
    app.loaded_chat = Some(ChatRef("@7".into()));
    tick(
        &mut app,
        vec![SimplexEvent::MessageReceived {
            chat_ref: ChatRef("@7".into()),
            message: text_message(1, "sent from the TUI", true),
        }],
    );
    assert_eq!(app.messages.len(), 1);
    assert_eq!(app.chats[0].unread_count, 0);
    assert_eq!(app.new_messages_below, 0);
    assert_eq!(app.chat_scroll, 0);
}

#[test]
fn app_outgoing_background_message_does_not_increment_unread_count() {
    let mut app = app();
    app.section = Section::Settings;
    app.chats = vec![chat("@7", "alice", 0)];
    tick(
        &mut app,
        vec![SimplexEvent::MessageReceived {
            chat_ref: ChatRef("@7".into()),
            message: text_message(2, "sent elsewhere", true),
        }],
    );
    assert_eq!(app.chats[0].unread_count, 0);
}

#[test]
fn app_returning_to_an_already_loaded_chat_marks_it_read() {
    let mut app = app();
    app.section = Section::Chats;
    app.chats = vec![chat("@7", "alice", 2)];
    app.loaded_chat = Some(ChatRef("@7".into()));
    let commands = tick(&mut app, Vec::new());
    assert_eq!(app.chats[0].unread_count, 0);
    match &commands[..] {
        [SimplexCommand::MarkChatRead(chat_ref)] => assert_eq!(chat_ref, &ChatRef("@7".into())),
        other => panic!("expected mark-read command, got {other:?}"),
    }
}

#[test]
fn app_message_received_in_background_is_merged_when_chat_opens() {
    let mut app = app();
    app.section = Section::Chats;
    app.selected_chat = 0;
    app.chats = vec![chat("@1", "alice", 0), chat("@2", "bob", 0)];
    app.loaded_chat = Some(ChatRef("@1".into()));
    let message = text_message(42, "from background", false);
    tick(
        &mut app,
        vec![SimplexEvent::MessageReceived {
            chat_ref: ChatRef("@2".into()),
            message: message.clone(),
        }],
    );
    assert_eq!(app.chats[1].unread_count, 1);

    app.selected_chat = 1;
    tick(
        &mut app,
        vec![SimplexEvent::ChatLoaded {
            chat_ref: ChatRef("@2".into()),
            messages: Vec::new(),
        }],
    );
    assert_eq!(app.messages, vec![message]);

    tick(
        &mut app,
        vec![SimplexEvent::ChatLoaded {
            chat_ref: ChatRef("@2".into()),
            messages: Vec::new(),
        }],
    );
    assert_eq!(app.messages[0].text, "from background");
}

#[test]
fn app_automatic_deletion_changes_only_after_core_confirmation() {
    let mut app = app();
    app.section = Section::Settings;
    app.selected_setting = 2;
    app.startup = StartupState::Ready(alice());

    let outcome = app.activate_setting();
    assert_eq!(app.auto_delete_seconds, 0);
    assert_eq!(app.auto_delete_pending, Some(86_400));
    match outcome.command {
        Some(SimplexCommand::SetAutoDelete { user_id, seconds }) => {
            assert_eq!((user_id, seconds), (3, 86_400))
        }
        other => panic!("expected auto-delete command, got {other:?}"),
    }

    tick(&mut app, vec![SimplexEvent::AutoDeleteChanged(86_400)]);
    assert_eq!(app.auto_delete_seconds, 86_400);
    assert_eq!(app.auto_delete_pending, None);
}

#[test]
fn chat_deletion_dialog_cycles_from_the_combined_override() {
    let mut app = app();
    app.section = Section::Chats;
    app.chats = vec![chat("@7", "bob", 0)];
    app.startup = StartupState::Ready(alice());

    let commands = app.open_chat_deletion();
    match &commands[..] {
        [SimplexCommand::LoadChatDeletion { chat_ref }, SimplexCommand::LoadConversationFeatures { chat_ref: other }] =>
        {
            assert_eq!(chat_ref, &ChatRef("@7".into()));
            assert_eq!(other, &ChatRef("@7".into()));
        }
        other => panic!("expected the two load commands, got {other:?}"),
    }
    tick(
        &mut app,
        vec![SimplexEvent::ChatDeletionLoaded {
            chat_ref: ChatRef("@7".into()),
            settings: ChatDeletionSettings::default(),
        }],
    );
    match app.activate_chat_setting() {
        Some(SimplexCommand::SetChatDeletion {
            user_id,
            chat_ref,
            seconds,
        }) => assert_eq!((user_id, chat_ref, seconds), (3, ChatRef("@7".into()), Some(0))),
        other => panic!("expected chat-deletion command, got {other:?}"),
    }
    assert!(app.chat_deletion_dialog.as_ref().unwrap().pending);
}

#[test]
fn download_in_progress_asks_before_cancelling() {
    let mut app = app();
    app.messages = vec![Message {
        id: 8,
        text: String::new(),
        timestamp: String::new(),
        outgoing: false,
        reactions: Vec::new(),
        attachment: Some(Attachment {
            id: 41,
            name: "archive.zip".into(),
            size: 100,
            kind: AttachmentKind::File,
            status: "rcvTransfer".into(),
            progress: Some(50),
            path: None,
        }),
    }];
    let (handled, command) = app.download_attachment(8);
    assert!(handled);
    assert!(command.is_none());
    assert_eq!(app.download_cancel_dialog.as_ref().unwrap().file_id, 41);
    match app.confirm_cancel_download() {
        Some(SimplexCommand::CancelFile { file_id }) => assert_eq!(file_id, 41),
        other => panic!("expected cancel-file command, got {other:?}"),
    }
    assert!(app.download_cancel_dialog.is_none());
    assert_eq!(app.notice.as_deref(), Some("Cancelling download of archive.zip…"));
    assert!(app.confirm_cancel_download().is_none());
}

#[test]
fn server_toggle_and_add_for_both_protocols() {
    let mut app = app();
    app.section = Section::Settings;
    app.selected_setting = 5;
    app.startup = StartupState::Ready(alice());
    app.servers = vec![ServerEntry {
        protocol: ServerProtocol::Smp,
        address: "smp://key@smp.example".into(),
        enabled: true,
        preset: true,
    }];
    match app.toggle_selected_server() {
        Some(SimplexCommand::SetServerEnabled {
            user_id,
            protocol,
            address,
            enabled,
        }) => {
            assert_eq!(user_id, 3);
            assert_eq!(protocol, ServerProtocol::Smp);
            assert_eq!(address, "smp://key@smp.example");
            assert!(!enabled);
        }
        other => panic!("expected server-toggle command, got {other:?}"),
    }
    app.server_protocol = ServerProtocol::Xftp;
    app.input_mode = InputMode::AddServer;
    app.input = "xftp://key@files.example".into();
    match app.add_server() {
        Some(SimplexCommand::AddServer {
            user_id,
            protocol,
            address,
        }) => {
            assert_eq!((user_id, protocol), (3, ServerProtocol::Xftp));
            assert_eq!(address, "xftp://key@files.example");
        }
        other => panic!("expected add-server command, got {other:?}"),
    }
    assert_eq!(app.notice.as_deref(), Some("Adding XFTP server…"));
    assert_eq!(app.input_mode, InputMode::Idle);
    assert!(app.toggle_selected_server().is_none());
    assert_eq!(app.notice.as_deref(), Some("Add a server first"));
}

#[test]
fn total_unread_sums_all_conversations() {
    let mut app = app();
    app.chats = vec![chat("@1", "alice", 2), chat("@2", "bob", 3)];
    assert_eq!(app.total_unread(), 5);
}

#[test]
fn total_unread_adds_nothing_for_a_read_conversation() {
    let mut app = app();
    app.chats = vec![chat("@1", "alice", 2), chat("#2", "team", 5), chat("@3", "bob", 0)];
    assert_eq!(app.total_unread(), 7);
}

#[test]
fn profile_delete_waits_for_confirmation_and_names_the_profile() {
    let mut app = app();
    app.section = Section::Profiles;
    app.profiles = vec![User {
        id: 9,
        display_name: "work".into(),
        notifications: true,
        active: true,
    }];
    app.input_mode = InputMode::ConfirmDeleteProfile;
    match app.confirm_delete_profile() {
        Some(SimplexCommand::DeleteProfile(user_id)) => assert_eq!(user_id, 9),
        other => panic!("expected delete-profile command, got {other:?}"),
    }
    assert_eq!(app.input_mode, InputMode::Idle);
    assert_eq!(app.notice.as_deref(), Some("Deleting profile work…"));
}

#[test]
fn duplicate_delivery_changes_nothing() {
    let mut app = app();
    app.section = Section::Settings;
    app.chats = vec![chat("@7", "alice", 0)];
    let message = text_message(5, "once", false);
    tick(
        &mut app,
        vec![
            SimplexEvent::MessageReceived { chat_ref: ChatRef("@7".into()), message: message.clone() },
            SimplexEvent::MessageReceived { chat_ref: ChatRef("@7".into()), message },
        ],
    );
    assert_eq!(app.chats[0].unread_count, 1);
}

#[test]
fn sending_needs_text_and_a_conversation() {
    let mut app = app();
    app.chats = vec![chat("#3", "team", 0)];
    app.composer = "   ".into();
    assert!(app.send_message().is_none());
    assert!(!app.sending);
    app.composer = "hello team".into();
    match app.send_message() {
        Some(SimplexCommand::SendMessage { chat_ref, text }) => {
            assert_eq!(chat_ref, ChatRef("#3".into()));
            assert_eq!(text, "hello team");
        }
        other => panic!("expected send command, got {other:?}"),
    }
    assert!(app.sending);
    assert!(app.send_message().is_none());
    tick(
        &mut app,
        vec![SimplexEvent::MessageSent {
            chat_ref: ChatRef("#3".into()),
            text: "hello team".into(),
        }],
    );
    assert!(!app.sending);
    assert_eq!(app.composer, "");
}

#[test]
fn switching_profile_clears_the_conversations() {
    let mut app = app();
    app.section = Section::Profiles;
    app.profiles = vec![
        User { id: 1, display_name: "personal".into(), notifications: true, active: true },
        User { id: 2, display_name: "work".into(), notifications: true, active: false },
    ];
    app.chats = vec![chat("@1", "alice", 0)];
    app.selected_profile = 0;
    assert!(app.activate_profile().is_none());
    assert_eq!(app.notice.as_deref(), Some("Profile is already active"));
    app.selected_profile = 1;
    match app.activate_profile() {
        Some(SimplexCommand::ActivateProfile(id)) => assert_eq!(id, 2),
        other => panic!("expected activate-profile command, got {other:?}"),
    }
    assert!(app.chats.is_empty());
    assert!(matches!(app.startup, StartupState::Loading));
    let work = User { id: 2, display_name: "work".into(), notifications: true, active: true };
    tick(
        &mut app,
        vec![SimplexEvent::ProfileActivated { user: work, chats: vec![chat("@5", "carol", 0)] }],
    );
    assert!(!app.profiles[0].active);
    assert!(app.profiles[1].active);
    assert_eq!(app.selected_profile, 1);
    assert_eq!(app.notice.as_deref(), Some("Profile activated"));
    assert_eq!(app.chats.len(), 1);
}

#[test]
fn a_loaded_chat_shows_its_messages_and_the_cached_ones_they_lack_in_time_order() {
    let mut app = app();
    app.section = Section::Settings;
    app.chats = vec![chat("@7", "alice", 0)];
    let mut cached_late = text_message(5, "cached late", false);
    cached_late.timestamp = "2026-01-03T00:00:00Z".into();
    let mut cached_dup = text_message(2, "cached copy", false);
    cached_dup.timestamp = "2026-01-02T00:00:00Z".into();
    tick(
        &mut app,
        vec![
            SimplexEvent::MessageReceived { chat_ref: ChatRef("@7".into()), message: cached_late },
            SimplexEvent::MessageReceived { chat_ref: ChatRef("@7".into()), message: cached_dup },
        ],
    );
    app.handle_app_event(AppEvent::SelectSection(Section::Chats));
    let mut loaded_a = text_message(2, "loaded", false);
    loaded_a.timestamp = "2026-01-02T00:00:00Z".into();
    let mut loaded_b = text_message(1, "first", false);
    loaded_b.timestamp = "2026-01-01T00:00:00Z".into();
    tick(
        &mut app,
        vec![SimplexEvent::ChatLoaded { chat_ref: ChatRef("@7".into()), messages: vec![loaded_a, loaded_b] }],
    );
    let texts: Vec<&str> = app.messages.iter().map(|m| m.text.as_str()).collect();
    assert_eq!(texts, vec!["first", "loaded", "cached late"]);
    assert_eq!(app.loaded_chat, Some(ChatRef("@7".into())));
    assert!(!app.chat_loading);
    assert_eq!(app.chat_scroll, 0);
}
