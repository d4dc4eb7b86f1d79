use serde_json::Value;
use simplex_tui::client::{features_from_preferences, validate_connection_link};
use simplex_tui::config::{Config, SimplexPaths};
use simplex_tui::json::Json;
use simplex_tui::model::ChatFeatures;

fn to_json(v: &Value) -> Json {
    match v {
        Value::Null => Json::Null,
        Value::Bool(b) => Json::Bool(*b),
        Value::Number(n) => match (n.as_i64(), n.as_u64()) {
            (Some(i), _) => Json::Int(i as i128),
            (None, Some(u)) => Json::Int(u as i128),
            _ => Json::Float(n.to_string()),
        },
        Value::String(s) => Json::Str(s.clone()),
        Value::Array(items) => Json::Array(items.iter().map(to_json).collect()),
        Value::Object(members) => {
            Json::Object(members.iter().map(|(k, v)| (k.clone(), to_json(v))).collect())
        }
    }
}

fn parse(text: &str) -> Json {
    to_json(&serde_json::from_str::<Value>(text).unwrap())
}

#[test]
fn conversation_preferences_override_profile_defaults() {
    let defaults = ChatFeatures {
        full_deletion: false,
        reactions: true,
        voice_messages: true,
        files_and_media: true,
        ..ChatFeatures::default()
    };
    let direct = parse(r#"{"fullDelete": {"allow": "yes"}, "reactions": {"allow": "no"}}"#);
    let features = features_from_preferences(Some(&direct), defaults, false);
    assert!(features.full_deletion);
    assert!(!features.reactions);
    assert!(features.voice_messages);

    let group = parse(r#"{"voice": {"enable": "off"}, "files": {"enable": "on"}}"#);
    let features = features_from_preferences(Some(&group), defaults, true);
    assert!(!features.voice_messages);
    assert!(features.files_and_media);
}

#[test]
fn connection_links_cannot_inject_another_command() {
    assert!(validate_connection_link("simplex:/invitation#example").is_ok());
    assert!(validate_connection_link("simplex:/invitation#example\n/_delete @1").is_err());
}

#[test]
fn app_data_lives_under_one_root() {
    let paths = SimplexPaths::at("/tmp/example-home/.simplex-tui");
    assert_eq!(paths.database_prefix, "/tmp/example-home/.simplex-tui/simplex");
}

#[test]
fn data_root_with_trailing_slash_is_not_doubled() {
    let paths = SimplexPaths::at("/data/");
    assert_eq!(paths.root, "/data/");
    assert_eq!(paths.database_prefix, "/data/simplex");
    assert_eq!(SimplexPaths::at("").database_prefix, "simplex");
}

#[test]
fn config_keeps_both_directories() {
    let config = Config::new("/home/a/.simplex-tui", "/home/a/Downloads");
    assert_eq!(config.data_directory, "/home/a/.simplex-tui");
    assert_eq!(config.download_directory, "/home/a/Downloads");
}

#[test]
fn a_server_address_with_the_wrong_scheme_is_refused_first() {
    let groups = Json::Array(Vec::new());
    assert_eq!(
        simplex_tui::client::add_server(&groups, simplex_tui::model::ServerProtocol::Smp, "xftp://a@b")
            .err()
            .as_deref(),
        Some("expected an smp:// server address")
    );
    assert_eq!(
        simplex_tui::client::add_server(&groups, simplex_tui::model::ServerProtocol::Xftp, "smp://a@b")
            .err()
            .as_deref(),
        Some("expected an xftp:// server address")
    );
    assert!(simplex_tui::client::add_server(&groups, simplex_tui::model::ServerProtocol::Smp, "smp://a@b")
        .err()
        .is_some_and(|e| !e.starts_with("expected")));
}
