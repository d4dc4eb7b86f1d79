use serde_json::Value;
use simplex_tui::client::ChatDeleteMode;
use simplex_tui::command::SimplexCommand;
use simplex_tui::driver::{Input, Phase, Worker};
use simplex_tui::flow::{Answer, Flow, Need, Step};
use simplex_tui::json::Json;
use simplex_tui::model::{ChatRef, SimplexEvent};
use simplex_tui::requests::{request, CoreCall};
use simplex_tui::steps::{boot, incoming, reply_of_text, resume, start};

fn to_json(v: &Value) -> Json {
    match v {
        Value::Null => Json::Null,
        Value::Bool(b) => Json::Bool(*b),
        Value::Number(n) => match (n.as_i64(), n.as_u64()) {
            (Some(i), _) => Json::Int(i as i128),
            (None, Some(u)) => Json::Int(u as i128),
            _ => Json::Float(n.to_string()),
        },
        Value::String(s) => Json::Str(s.clone()),
        Value::Array(items) => Json::Array(items.iter().map(to_json).collect()),
        Value::Object(members) => {
            Json::Object(members.iter().map(|(k, v)| (k.clone(), to_json(v))).collect())
        }
    }
}

fn reply(text: &str) -> Answer {
    Answer::Reply(Ok(reply_of_text(text).expect("the reply is JSON")))
}

fn call_text(step: &Step) -> String {
    match &step.need {
        Need::Call(call) => {
            let copy = copy_call(call);
            request(copy).command
        }
        other => panic!("expected a call, got {}", need_name(other)),
    }
}

fn copy_call(call: &CoreCall) -> CoreCall {
    match call {
        CoreCall::ActiveUser => CoreCall::ActiveUser,
        CoreCall::Start => CoreCall::Start,
        CoreCall::Profile => CoreCall::Profile,
        CoreCall::Users => CoreCall::Users,
        CoreCall::ActivateUser { user_id } => CoreCall::ActivateUser { user_id: *user_id },
        CoreCall::DeleteUser { user_id } => CoreCall::DeleteUser { user_id: *user_id },
        CoreCall::LoadChat { chat_ref, count } => CoreCall::LoadChat { chat_ref: chat_ref.clone(), count: *count },
        CoreCall::ReadChat { chat_ref } => CoreCall::ReadChat { chat_ref: chat_ref.clone() },
        CoreCall::Chats { user_id } => CoreCall::Chats { user_id: *user_id },
        CoreCall::ReceiveFile { file_id, path } => CoreCall::ReceiveFile { file_id: *file_id, path: path.clone() },
        CoreCall::CancelFile { file_id } => CoreCall::CancelFile { file_id: *file_id },
        CoreCall::GlobalTtl { user_id } => CoreCall::GlobalTtl { user_id: *user_id },
        CoreCall::Servers { user_id } => CoreCall::Servers { user_id: *user_id },
        CoreCall::DeleteChat { chat_ref, suffix } => CoreCall::DeleteChat { chat_ref: chat_ref.clone(), suffix: suffix.clone() },
        CoreCall::CreateInvitation { user_id } => CoreCall::CreateInvitation { user_id: *user_id },
        CoreCall::Connect { user_id, link } => CoreCall::Connect { user_id: *user_id, link: link.clone() },
        CoreCall::Send { command } => CoreCall::Send { command: command.clone() },
        _ => panic!("this call carries a document"),
    }
}

fn need_name(need: &Need) -> &'static str {
    match need {
        Need::Call(_) => "call",
        Need::Open { .. } => "open",
        Need::CreateDirectory { .. } => "create directory",
        Need::Probe(_) => "probe",
        Need::Done => "done",
        Need::Halt => "halt",
    }
}

fn chat(r: &str) -> ChatRef {
    ChatRef(r.to_owned())
}

#[test]
fn startup_makes_the_directory_then_opens_the_database() {
    let step = boot("/tmp/home/.simplex-tui");
    assert!(matches!(&step.need, Need::CreateDirectory { path, private: true } if path == "/tmp/home/.simplex-tui"));
    let step = resume(step.flow, Answer::Created(Ok(())));
    assert!(matches!(&step.need,
        Need::Open { database_prefix, key, confirmation }
            if database_prefix == "/tmp/home/.simplex-tui/simplex" && key.is_empty() && confirmation == "yesUp"));
    let step = resume(step.flow, reply(r#"{"type": "ok"}"#));
    assert_eq!(call_text(&step), "/users");
    let step = resume(
        step.flow,
        reply(r#"{"result": {"type": "usersList", "users": []}}"#),
    );
    assert!(matches!(step.events.as_slice(), [SimplexEvent::ProfilesLoaded(ps)] if ps.is_empty()));
    assert_eq!(call_text(&step), "/u");
    let step = resume(
        step.flow,
        reply(r#"{"error": {"type": "error", "errorType": {"type": "noActiveUser"}}}"#),
    );
    assert!(matches!(step.events.as_slice(), [SimplexEvent::NoActiveUser]));
    assert!(matches!(step.need, Need::Done));
}

#[test]
fn startup_stops_when_the_directory_cannot_be_made() {
    let step = boot("/data");
    let step = resume(step.flow, Answer::Created(Err("denied".to_owned())));
    assert!(matches!(step.events.as_slice(), [SimplexEvent::Failed(e)] if e == "cannot create /data: denied"));
    assert!(matches!(step.need, Need::Halt));
}

#[test]
fn startup_stops_on_a_failed_migration() {
    let step = boot("/data");
    let step = resume(step.flow, Answer::Created(Ok(())));
    let step = resume(step.flow, reply(r#"{"error": "bad"}"#));
    assert!(matches!(step.events.as_slice(), [SimplexEvent::Failed(e)] if e.starts_with("database migration failed")));
    assert!(matches!(step.need, Need::Halt));
}

#[test]
fn loading_a_chat_reports_it_then_marks_it_read() {
    let step = start(SimplexCommand::LoadChat(chat("@9")), "/downloads");
    assert_eq!(call_text(&step), "/_get chat @9 count=100");
    let step = resume(
        step.flow,
        reply(
            r#"{"result": {"type": "apiChat", "chat": {
            "chatInfo": {"type": "direct", "contact": {"contactId": 9, "localDisplayName": "bob"}},
            "chatItems": [{"chatDir": {"type": "directRcv"},
                "content": {"type": "rcvMsgContent", "msgContent": {"type": "text", "text": "hi"}},
                "meta": {"itemId": 3, "itemText": "hi", "itemTs": "2026-08-16T10:00:00Z"}}],
            "chatStats": {}}}}"#,
        ),
    );
    assert!(matches!(step.events.as_slice(),
        [SimplexEvent::ChatLoaded { chat_ref, messages }] if chat_ref.0 == "@9" && messages.len() == 1 && messages[0].text == "hi"));
    assert_eq!(call_text(&step), "/_read chat @9");
    let step = resume(step.flow, reply(r#"{"result": {"type": "cmdOk"}}"#));
    assert!(matches!(step.events.as_slice(), [SimplexEvent::ChatMarkedRead(k)] if k.0 == "@9"));
    assert!(matches!(step.need, Need::Done));
}

#[test]
fn a_chat_that_cannot_be_loaded_is_reported() {
    let step = start(SimplexCommand::LoadChat(chat("@9")), "/downloads");
    let step = resume(step.flow, Answer::Reply(Err("core gone".to_owned())));
    assert!(matches!(step.events.as_slice(),
        [SimplexEvent::ChatLoadFailed { chat_ref, error }] if chat_ref.0 == "@9" && error == "core gone"));
    assert!(matches!(step.need, Need::Done));
}

#[test]
fn failing_to_mark_a_chat_read_stops_the_worker() {
    let step = start(SimplexCommand::MarkChatRead(chat("#2")), "/downloads");
    assert_eq!(call_text(&step), "/_read chat #2");
    let step = resume(step.flow, reply(r#"{"result": {"type": "chatCmdError"}}"#));
    assert!(matches!(step.events.as_slice(), [SimplexEvent::Failed(_)]));
    assert!(matches!(step.need, Need::Halt));
}

#[test]
fn messages_go_only_to_contacts_groups_and_notes() {
    let step = start(
        SimplexCommand::SendMessage { chat_ref: chat(":4"), text: "hello".to_owned() },
        "/downloads",
    );
    assert!(matches!(step.events.as_slice(),
        [SimplexEvent::MessageSendFailed { error, .. }] if error == "messages cannot be sent to this chat type"));
    assert!(matches!(step.need, Need::Done));
    let step = start(
        SimplexCommand::SendMessage { chat_ref: chat("@4"), text: "hello".to_owned() },
        "/downloads",
    );
    assert_eq!(call_text(&step), "/_send @4 live=off ttl=default sign=off text hello");
}

#[test]
fn a_sent_message_is_reported_with_the_items_it_created() {
    let step = start(
        SimplexCommand::SendMessage { chat_ref: chat("@4"), text: "hello".to_owned() },
        "/downloads",
    );
    let step = resume(
        step.flow,
        reply(
            r#"{"result": {"type": "newChatItems", "chatItems": [{
            "chatInfo": {"type": "direct", "contact": {"contactId": 4}},
            "chatItem": {"chatDir": {"type": "directSnd"},
                "content": {"type": "sndMsgContent", "msgContent": {"type": "text", "text": "hello"}},
                "meta": {"itemId": 30, "itemText": "hello", "itemTs": "2026-08-16T10:00:00Z"}}}]}}"#,
        ),
    );
    assert!(matches!(step.events.as_slice(),
        [SimplexEvent::MessageReceived { chat_ref, message }, SimplexEvent::MessageSent { text, .. }]
            if chat_ref.0 == "@4" && message.id == 30 && text == "hello"));
    let step = start(
        SimplexCommand::SendMessage { chat_ref: chat("@4"), text: "hello".to_owned() },
        "/downloads",
    );
    let step = resume(step.flow, reply(r#"{"result": {"type": "chatCmdError"}}"#));
    assert!(matches!(step.events.as_slice(),
        [SimplexEvent::MessageSendFailed { error, .. }] if error == r#"send failed: {"result":{"type":"chatCmdError"}}"#));
}

#[test]
fn downloads_never_overwrite_an_existing_file() {
    let step = start(
        SimplexCommand::ReceiveFile { file_id: 5, file_name: "../photo.jpg".to_owned() },
        "/downloads",
    );
    assert!(matches!(&step.need, Need::CreateDirectory { path, private: false } if path == "/downloads"));
    let step = resume(step.flow, Answer::Created(Ok(())));
    assert!(matches!(&step.need, Need::Probe(p) if p == "/downloads/photo.jpg"));
    let step = resume(step.flow, Answer::Exists(true));
    assert!(matches!(&step.need, Need::Probe(p) if p == "/downloads/photo (1).jpg"));
    let step = resume(step.flow, Answer::Exists(false));
    assert_eq!(call_text(&step), "/freceive 5 approved_relays=on /downloads/photo (1).jpg");
    let step = resume(step.flow, reply(r#"{"result": {"type": "rcvFileAccepted"}}"#));
    assert!(matches!(step.events.as_slice(),
        [SimplexEvent::FileDownloadStarted { file_id: 5, path }] if path == "/downloads/photo (1).jpg"));
    assert!(matches!(step.need, Need::Done));
}

#[test]
fn a_download_that_is_refused_is_reported() {
    let step = start(
        SimplexCommand::ReceiveFile { file_id: 5, file_name: "a.txt".to_owned() },
        "/downloads",
    );
    let step = resume(step.flow, Answer::Created(Err("read-only".to_owned())));
    assert!(matches!(step.events.as_slice(),
        [SimplexEvent::FileDownloadFailed { file_id: 5, error }] if error == "could not create /downloads: read-only"));
}

#[test]
fn links_with_white_space_never_reach_the_core() {
    let step = start(
        SimplexCommand::ConnectInvitation { user_id: 1, link: "simplex:/a\n/_delete @1".to_owned() },
        "/downloads",
    );
    assert!(matches!(step.events.as_slice(),
        [SimplexEvent::ConnectionFailed(e)] if e == "invitation link contains whitespace"));
    assert!(matches!(step.need, Need::Done));
    let step = start(
        SimplexCommand::ConnectInvitation { user_id: 1, link: "  simplex:/a  ".to_owned() },
        "/downloads",
    );
    assert_eq!(call_text(&step), "/_connect 1 incognito=off simplex:/a");
}

#[test]
fn contact_actions_are_refused_for_groups() {
    let step = start(
        SimplexCommand::DeleteChat { user_id: 1, chat_ref: chat("#3"), mode: ChatDeleteMode::Contact },
        "/downloads",
    );
    assert!(matches!(step.events.as_slice(),
        [SimplexEvent::ChatDeleteFailed(e)] if e == "contact actions are only available for direct chats"));
    let step = start(
        SimplexCommand::DeleteChat { user_id: 1, chat_ref: chat("@3"), mode: ChatDeleteMode::BlockContact },
        "/downloads",
    );
    assert_eq!(call_text(&step), "/_delete @3 full notify=off");
}

#[test]
fn a_failed_command_is_reported_and_the_worker_goes_on() {
    let step = start(SimplexCommand::SetAutoDelete { user_id: 1, seconds: 86_400 }, "/downloads");
    assert_eq!(call_text(&step), "/profile");
    let step = resume(step.flow, Answer::Reply(Err("timeout".to_owned())));
    assert!(matches!(step.events.as_slice(), [SimplexEvent::AutoDeleteFailed(e)] if e == "timeout"));
    assert!(matches!(step.need, Need::Done));
}

#[test]
fn events_of_the_core_become_received_messages() {
    let value: Value = serde_json::from_str(
        r#"{"result": {"type": "newChatItems", "chatItems": [{
            "chatInfo": {"type": "group", "groupInfo": {"groupId": 2}},
            "chatItem": {"chatDir": {"type": "groupRcv"},
                "content": {"type": "rcvMsgContent", "msgContent": {"type": "text", "text": "yo"}},
                "meta": {"itemId": 8, "itemText": "yo", "itemTs": "2026-08-16T10:00:00Z"}}}]}}"#,
    )
    .unwrap();
    let step = incoming(to_json(&value));
    assert!(matches!(step.events.as_slice(),
        [SimplexEvent::MessageReceived { chat_ref, message }] if chat_ref.0 == "#2" && message.text == "yo"));
    assert!(matches!(step.need, Need::Done));
}

#[test]
fn an_answer_that_was_not_asked_for_stops_the_worker() {
    let step = resume(Flow::Idle, Answer::Exists(true));
    assert!(matches!(step.events.as_slice(), [SimplexEvent::Failed(_)]));
    assert!(matches!(step.need, Need::Halt));
}

#[test]
fn the_worker_takes_no_command_before_its_start_is_over() {
    let (mut worker, first) = Worker::boot("/data");
    assert!(first.events.is_empty());
    assert!(matches!(first.need, Need::CreateDirectory { .. }));
    assert_eq!(worker.phase, Phase::Starting);
    let refused = worker.feed(Input::Command(SimplexCommand::LoadChat(chat("@1"))), "/downloads");
    assert!(matches!(refused, Err(Input::Command(SimplexCommand::LoadChat(ref k))) if k.0 == "@1"));
    assert!(matches!(worker.feed(Input::Received("{}".into()), "/downloads"), Err(Input::Received(_))));
    assert_eq!(worker.phase, Phase::Starting);

    let step = worker.feed(Input::Answer(Answer::Created(Ok(()))), "/downloads").ok().unwrap();
    assert!(matches!(step.need, Need::Open { .. }));
    let step = worker.feed(Input::Answer(reply(r#"{"type": "ok"}"#)), "/downloads").ok().unwrap();
    assert!(matches!(step.need, Need::Call(CoreCall::Users)));
    let step = worker
        .feed(Input::Answer(reply(r#"{"result": {"type": "usersList", "users": []}}"#)), "/downloads")
        .ok()
        .unwrap();
    assert!(matches!(step.events.as_slice(), [SimplexEvent::ProfilesLoaded(_)]));
    assert_eq!(worker.phase, Phase::Starting);
    let step = worker
        .feed(
            Input::Answer(reply(r#"{"error": {"type": "error", "errorType": {"type": "noActiveUser"}}}"#)),
            "/downloads",
        )
        .ok()
        .unwrap();
    assert!(matches!(step.events.as_slice(), [SimplexEvent::NoActiveUser]));
    assert_eq!(worker.phase, Phase::Ready);

    let step = worker.feed(Input::Command(SimplexCommand::LoadChat(chat("@1"))), "/downloads").ok().unwrap();
    assert!(matches!(step.need, Need::Call(CoreCall::LoadChat { .. })));
    assert_eq!(worker.phase, Phase::Busy);
    let again = worker.feed(Input::Command(SimplexCommand::LoadChat(chat("@2"))), "/downloads");
    assert!(matches!(again, Err(Input::Command(_))));
}

#[test]
fn a_failed_start_stops_the_worker() {
    let (mut worker, _) = Worker::boot("/data");
    let step = worker
        .feed(Input::Answer(Answer::Created(Err("denied".to_owned()))), "/downloads")
        .ok()
        .unwrap();
    assert!(matches!(step.events.as_slice(), [SimplexEvent::Failed(_)]));
    assert_eq!(worker.phase, Phase::Stopped);
    assert!(worker.feed(Input::Answer(Answer::Exists(true)), "/downloads").is_err());
}
