use serde_json::Value;
use simplex_tui::flow::Need;
use simplex_tui::json::Json;
use simplex_tui::model::{ChatRef, SimplexEvent};
use simplex_tui::requests::{call_line, request_line, CoreCall, CoreRequest};
use simplex_tui::steps::{received_text, reply_of_text};

#[test]
fn a_reply_is_read_into_the_library_document() {
    let reply = reply_of_text(r#"{"resp": {"type": "chatCmdError", "count": 3, "ok": true}}"#)
        .expect("the reply is JSON");
    let Json::Object(members) = &reply.value else {
        panic!("the reply is an object");
    };
    assert_eq!(members.len(), 1);
    assert_eq!(members[0].0, "resp");
    let Json::Object(inner) = &members[0].1 else {
        panic!("the member is an object");
    };
    assert_eq!(inner.len(), 3);
    assert!(inner.iter().any(|(k, v)| k == "type" && matches!(v, Json::Str(s) if s == "chatCmdError")));
    assert!(inner.iter().any(|(k, v)| k == "count" && matches!(v, Json::Int(3))));
    assert!(inner.iter().any(|(k, v)| k == "ok" && matches!(v, Json::Bool(true))));
    let written: Value = serde_json::from_str(&reply.text).unwrap();
    let expected: Value =
        serde_json::from_str(r#"{"resp": {"type": "chatCmdError", "count": 3, "ok": true}}"#).unwrap();
    assert_eq!(written, expected);
    assert!(!reply.text.contains(' '));
}

#[test]
fn a_reply_that_is_not_json_is_refused() {
    let error = reply_of_text("not json").err().expect("refused");
    assert!(error.starts_with("SimpleX returned invalid JSON: "), "{error}");
    assert!(error.len() > "SimpleX returned invalid JSON: ".len());
}

#[test]
fn a_fraction_keeps_its_text() {
    let reply = reply_of_text("[1.5, -2]").unwrap();
    let Json::Array(items) = &reply.value else {
        panic!("an array");
    };
    assert!(matches!(&items[0], Json::Float(t) if t == "1.5"));
    assert!(matches!(items[1], Json::Int(-2)));
    assert_eq!(reply.text, "[1.5,-2]");
}

#[test]
fn a_command_without_a_document_is_its_line() {
    let line = call_line(CoreCall::LoadChat { chat_ref: ChatRef("@4".into()), count: 100 });
    assert_eq!(line, "/_get chat @4 count=100");
    let plain = request_line(&CoreRequest { command: "/users".into(), argument: None });
    assert_eq!(plain, "/users");
}

#[test]
fn a_document_follows_its_command_after_one_space() {
    let profile = Json::Object(vec![("displayName".into(), Json::Str("bob".into()))]);
    let line = call_line(CoreCall::UpdateProfile { user_id: 7, profile });
    assert_eq!(line, r#"/_profile 7 {"displayName":"bob"}"#);

    let reaction = call_line(CoreCall::SendReaction {
        chat_ref: ChatRef("@1".into()),
        item_id: 5,
        emoji: "👍".into(),
    });
    let (command, document) = reaction.split_at("/_reaction @1 5 on ".len());
    assert_eq!(command, "/_reaction @1 5 on ");
    let written: Value = serde_json::from_str(document).unwrap();
    let expected: Value = serde_json::from_str(r#"{"type":"emoji","emoji":"👍"}"#).unwrap();
    assert_eq!(written, expected);
}

#[test]
fn an_event_text_that_is_not_json_stops_the_worker() {
    let step = received_text("{broken");
    assert!(matches!(step.need, Need::Halt));
    assert_eq!(step.events.len(), 1);
    match &step.events[0] {
        SimplexEvent::Failed(error) => assert!(error.starts_with("SimpleX returned invalid JSON: ")),
        _ => panic!("a failure is reported"),
    }
}

#[test]
fn an_event_text_is_handled_as_its_document() {
    let step = received_text(r#"{"resp": {"type": "chatItemsStatusesUpdated"}}"#);
    assert!(matches!(step.need, Need::Done));
    assert!(step.events.is_empty());
}
