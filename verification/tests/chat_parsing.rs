use serde_json::Value;
use simplex_tui::json::Json;
use simplex_tui::model::{
    active_user, chat_messages, chats, connected_contact, file_update, invitation_link,
    parse_message, profile_and_features, reaction_change, server_entries, smp_servers,
    AttachmentKind, ChatRef, ChatSummary, MessageReaction, ServerEntry, ServerProtocol, User,
};

fn to_json(v: &Value) -> Json {
    match v {
        Value::Null => Json::Null,
        Value::Bool(b) => Json::Bool(*b),
        Value::Number(n) => match (n.as_i64(), n.as_u64()) {
            (Some(i), _) => Json::Int(i as i128),
            (None, Some(u)) => Json::Int(u as i128),
            _ => Json::Float(n.to_string()),
        },
        Value::String(s) => Json::Str(s.clone()),
        Value::Array(items) => Json::Array(items.iter().map(to_json).collect()),
        Value::Object(members) => {
            Json::Object(members.iter().map(|(k, v)| (k.clone(), to_json(v))).collect())
        }
    }
}

fn parse(text: &str) -> Json {
    to_json(&serde_json::from_str::<Value>(text).unwrap())
}

#[test]
fn parses_active_user_and_no_user() {
    let user = active_user(&parse(
        r#"{"result": {"type": "activeUser", "user": {"userId": 7, "localDisplayName": "alice"}}}"#,
    ))
    .unwrap()
    .unwrap();
    assert_eq!(
        user,
        User {
            id: 7,
            display_name: "alice".into(),
            notifications: true,
            active: true,
        }
    );
    assert_eq!(
        active_user(&parse(
            r#"{"error": {"type": "error", "errorType": {"type": "noActiveUser"}}}"#
        ))
        .unwrap(),
        None
    );
}

#[test]
fn parses_chat_summaries() {
    let parsed = chats(&parse(
        r#"{"result": {"type": "apiChats", "chats": [{
            "chatInfo": {"type": "direct", "contact": {"contactId": 9, "localDisplayName": "bob"}},
            "chatItems": [], "chatStats": {"unreadCount": 3}
        }]}}"#,
    ))
    .unwrap();
    assert_eq!(
        parsed,
        vec![ChatSummary {
            chat_ref: ChatRef("@9".into()),
            display_name: "bob".into(),
            unread_count: 3
        }]
    );
}

#[test]
fn parses_chat_history_and_live_item() {
    let (chat_ref, messages) = chat_messages(&parse(
        r#"{"result": {"type": "apiChat", "chat": {
            "chatInfo": {"type": "direct", "contact": {"contactId": 9, "localDisplayName": "bob"}},
            "chatItems": [{"chatDir": {"type": "directSnd"},
                "content": {"type": "sndMsgContent", "msgContent": {"type": "text", "text": "hello"}},
                "meta": {"itemId": 12, "itemText": "hello", "itemTs": "2026-08-16T10:00:00Z"}}],
            "chatStats": {}
        }}}"#,
    ))
    .unwrap();
    assert_eq!(chat_ref, ChatRef("@9".into()));
    assert!(messages[0].outgoing);
    assert_eq!(messages[0].text, "hello");
}

#[test]
fn protocol_feature_items_are_not_user_messages() {
    let item = parse(
        r#"{
            "chatDir": {"type": "directSnd"},
            "content": {"type": "sndChatFeature", "feature": "calls"},
            "meta": {"itemId": 13, "itemText": "Audio/video calls: off"}
        }"#,
    );
    assert_eq!(parse_message(&item), None);
}

#[test]
fn parses_profile_chat_features() {
    let (_, features) = profile_and_features(&parse(
        r#"{"result": {
            "type": "userProfile", "profile": {
                "displayName": "alice", "fullName": "", "preferences": {
                    "timedMessages": {"allow": "no"},
                    "fullDelete": {"allow": "yes"},
                    "reactions": {"allow": "yes"},
                    "voice": {"allow": "no"},
                    "files": {"allow": "yes"},
                    "calls": {"allow": "no"}
                }
            }
        }}"#,
    ))
    .unwrap();
    assert!(!features.disappearing_messages);
    assert!(features.full_deletion);
    assert!(features.reactions);
    assert!(!features.voice_messages);
    assert!(features.files_and_media);
}

#[test]
fn prefers_the_short_invitation_link() {
    let link = invitation_link(&parse(
        r#"{"result": {
            "type": "invitation",
            "connLinkInvitation": {
                "connFullLink": "simplex:/contact#full",
                "connShortLink": "https://simplex.chat/contact#short"
            }
        }}"#,
    ))
    .unwrap();
    assert_eq!(link, "https://simplex.chat/contact#short");
}

#[test]
fn extracts_and_deduplicates_profile_smp_servers() {
    let servers = smp_servers(&parse(
        r#"{"result": {
            "type": "userServers",
            "userServers": [{"smpServers": [
                {"server": "smp://fingerprint@smp11.simplex.im,onion"},
                {"server": "smp://fingerprint@smp11.simplex.im,onion"}
            ]}]
        }}"#,
    ))
    .unwrap();
    assert_eq!(
        servers,
        vec!["smp://fingerprint@smp11.simplex.im,onion".to_owned()]
    );
}

#[test]
fn parses_smp_and_xftp_server_configuration() {
    let servers = server_entries(&parse(
        r#"{"result": {
            "type": "userServers",
            "userServers": [{
                "operator": {"tradeName": "SimpleX Chat"},
                "smpServers": [{
                    "server": "smp://key@smp.example",
                    "enabled": true,
                    "preset": true,
                    "deleted": false
                }],
                "xftpServers": [{
                    "server": "xftp://key@xftp.example",
                    "enabled": false,
                    "preset": true,
                    "deleted": false
                }]
            }]
        }}"#,
    ))
    .unwrap();
    assert_eq!(
        servers,
        vec![
            ServerEntry {
                protocol: ServerProtocol::Smp,
                address: "smp://key@smp.example".into(),
                enabled: true,
                preset: true,
            },
            ServerEntry {
                protocol: ServerProtocol::Xftp,
                address: "xftp://key@xftp.example".into(),
                enabled: false,
                preset: true,
            },
        ]
    );
}

#[test]
fn recognizes_a_connected_invitation_contact() {
    let connected = connected_contact(&parse(
        r#"{"result": {
            "type": "contactConnected",
            "user": {"userId": 4},
            "contact": {"contactId": 19, "localDisplayName": "bob"}
        }}"#,
    ));
    assert_eq!(connected, Some((4, ChatRef("@19".into()))));
    assert_eq!(
        connected_contact(&parse(r#"{"result": {"type": "cmdOk"}}"#)),
        None
    );
}

#[test]
fn parses_message_reactions_and_live_reaction_changes() {
    let item = parse(
        r#"{
            "chatDir": {"type": "directRcv"},
            "content": {"type": "rcvMsgContent", "msgContent": {"type": "text", "text": "hi"}},
            "meta": {"itemId": 22, "itemText": "hi"},
            "reactions": [{
                "reaction": {"type": "emoji", "emoji": "👍"},
                "userReacted": true,
                "totalReacted": 3
            }]
        }"#,
    );
    let message = parse_message(&item).unwrap();
    assert_eq!(
        message.reactions,
        vec![MessageReaction {
            emoji: "👍".into(),
            count: 3,
            user_reacted: true,
        }]
    );

    let update = reaction_change(&parse(
        r#"{"result": {
            "type": "chatItemReaction",
            "added": true,
            "reaction": {
                "chatInfo": {"type": "direct", "contact": {"contactId": 7}},
                "chatReaction": {
                    "chatDir": {"type": "directRcv"},
                    "chatItem": {"meta": {"itemId": 22}},
                    "reaction": {"type": "emoji", "emoji": "😂"}
                }
            }
        }}"#,
    ));
    assert_eq!(
        update,
        Some((ChatRef("@7".into()), 22, "😂".into(), true, false))
    );
}

#[test]
fn parses_file_only_messages_and_file_updates() {
    let chat_item = r#"{
            "chatDir": {"type": "directRcv"},
            "content": {
                "type": "rcvMsgContent",
                "msgContent": {"type": "image", "text": "", "image": "preview"}
            },
            "meta": {"itemId": 33, "itemText": ""},
            "reactions": [],
            "file": {
                "fileId": 44,
                "fileName": "photo.png",
                "fileSize": 1234,
                "fileStatus": {"type": "rcvInvitation"},
                "fileProtocol": "xftp"
            }
        }"#;
    let message = parse_message(&parse(chat_item)).unwrap();
    let attachment = message.attachment.unwrap();
    assert_eq!(attachment.kind, AttachmentKind::Image);
    assert_eq!(attachment.name, "photo.png");
    assert_eq!(attachment.status, "rcvInvitation");

    let update = format!(
        r#"{{"result": {{
            "type": "rcvFileProgressXFTP",
            "receivedSize": 25,
            "totalSize": 100,
            "chatItem_": {{
                "chatInfo": {{"type": "direct", "contact": {{"contactId": 7}}}},
                "chatItem": {chat_item}
            }}
        }}}}"#
    );
    let (chat_ref, updated) = file_update(&parse(&update)).unwrap();
    assert_eq!(chat_ref, ChatRef("@7".into()));
    assert_eq!(updated.id, 33);
    assert_eq!(updated.attachment.unwrap().progress, Some(25));
}
