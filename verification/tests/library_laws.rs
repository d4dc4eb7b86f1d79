use serde_json::Value;
use simplex_tui::cache::MessageCache;
use simplex_tui::client::{preference_allow, set_profile_preference};
use simplex_tui::json::Json;
use simplex_tui::layout::{auto_delete_label, bubble_size, bubble_width_fits, enabled};
use simplex_tui::messages::{apply_reaction, sort_messages};
use simplex_tui::model::{ChatRef, Message, MessageReaction, User};
use simplex_tui::prefs::Theme;
use simplex_tui::window::{bubble_rows, chat_window, scrollbar_thumb};
use simplex_tui::worker::{download_candidate, numbered_file_name, replacement_profile, safe_file_name};

fn to_json(v: &Value) -> Json {
    match v {
        Value::Null => Json::Null,
        Value::Bool(b) => Json::Bool(*b),
        Value::Number(n) => match (n.as_i64(), n.as_u64()) {
            (Some(i), _) => Json::Int(i as i128),
            (None, Some(u)) => Json::Int(u as i128),
            _ => Json::Float(n.to_string()),
        },
        Value::String(s) => Json::Str(s.clone()),
        Value::Array(items) => Json::Array(items.iter().map(to_json).collect()),
        Value::Object(members) => {
            Json::Object(members.iter().map(|(k, v)| (k.clone(), to_json(v))).collect())
        }
    }
}

fn message(id: i64, timestamp: &str) -> Message {
    Message {
        id,
        text: format!("m{id}"),
        timestamp: timestamp.into(),
        outgoing: false,
        reactions: Vec::new(),
        attachment: None,
    }
}

#[test]
fn themes_cycle_through_all_three() {
    assert_eq!(Theme::Terminal.next(), Theme::Dark);
    assert_eq!(Theme::Dark.next(), Theme::Light);
    assert_eq!(Theme::Light.next(), Theme::Terminal);
    for theme in [Theme::Terminal, Theme::Dark, Theme::Light] {
        assert_eq!(theme.next().next().next(), theme);
    }
    assert_eq!(Theme::Terminal.label(), "Terminal default");
    assert_eq!(Theme::Dark.label(), "Dark");
    assert_eq!(Theme::Light.label(), "Light");
}

#[test]
fn bubbles_fit_their_longest_line_and_title() {
    assert_eq!(bubble_size("hello", "bob", "10:00", 80), (3, 17));
    assert_eq!(bubble_size("a\r\nbb\n", "", "", 30), (5, 12));
    let long = "x".repeat(100);
    assert_eq!(bubble_size(&long, "bob", "10:00", 41), (6, 30));
}

#[test]
fn narrow_chat_areas_cannot_size_bubbles() {
    assert!(bubble_width_fits(4));
    assert!(!bubble_width_fits(5));
    assert!(!bubble_width_fits(15));
    assert!(bubble_width_fits(16));
    assert!(bubble_width_fits(80));
}

#[test]
fn setting_labels() {
    assert_eq!(enabled(true), "Enabled");
    assert_eq!(enabled(false), "Disabled");
    assert_eq!(auto_delete_label(86_400), "After 1 day");
    assert_eq!(auto_delete_label(604_800), "After 7 days");
    assert_eq!(auto_delete_label(2_592_000), "After 30 days");
    assert_eq!(auto_delete_label(0), "Off");
    assert_eq!(auto_delete_label(42), "Off");
}

#[test]
fn a_reaction_taken_back_leaves_the_reactions_as_they_were() {
    let before = vec![MessageReaction { emoji: "👍".into(), count: 2, user_reacted: false }];
    let added = apply_reaction(before.clone(), "😂", true, true);
    assert_eq!(added.len(), 2);
    assert_eq!(added[1], MessageReaction { emoji: "😂".into(), count: 1, user_reacted: true });
    let undone = apply_reaction(added, "😂", false, true);
    assert_eq!(undone, before);
}

#[test]
fn a_repeated_reaction_counts_up_and_marks_the_user() {
    let before = vec![MessageReaction { emoji: "👍".into(), count: 2, user_reacted: false }];
    let after = apply_reaction(before, "👍", true, true);
    assert_eq!(after, vec![MessageReaction { emoji: "👍".into(), count: 3, user_reacted: true }]);
    let after = apply_reaction(after, "👍", false, false);
    assert_eq!(after, vec![MessageReaction { emoji: "👍".into(), count: 2, user_reacted: true }]);
}

#[test]
fn messages_sort_by_time_then_id() {
    let mut messages = vec![
        message(3, "2026-01-02T00:00:00Z"),
        message(1, "2026-01-01T00:00:00Z"),
        message(2, "2026-01-02T00:00:00Z"),
    ];
    sort_messages(&mut messages);
    let ids: Vec<i64> = messages.iter().map(|m| m.id).collect();
    assert_eq!(ids, vec![1, 2, 3]);
}

#[test]
fn messages_with_the_same_time_and_id_keep_their_order() {
    let mut first = message(4, "2026-01-02T00:00:00Z");
    first.text = "first".into();
    let mut second = message(4, "2026-01-02T00:00:00Z");
    second.text = "second".into();
    let mut messages = vec![message(9, "2026-01-03T00:00:00Z"), first, message(1, "2026-01-01T00:00:00Z"), second];
    sort_messages(&mut messages);
    let texts: Vec<&str> = messages.iter().map(|m| m.text.as_str()).collect();
    assert_eq!(texts, vec!["m1", "first", "second", "m9"]);
}

#[test]
fn received_files_keep_only_their_last_name() {
    assert_eq!(safe_file_name("../../etc/passwd"), "passwd");
    assert_eq!(safe_file_name("photo.jpg"), "photo.jpg");
    assert_eq!(safe_file_name(".."), "simplex-file");
    assert_eq!(safe_file_name(""), "simplex-file");
    assert_eq!(numbered_file_name("report.tar.gz", 2), "report.tar (2).gz");
    assert_eq!(numbered_file_name("README", 1), "README (1)");
    assert_eq!(numbered_file_name(".bashrc", 3), ".bashrc (3)");
    assert_eq!(download_candidate("/downloads", "a.txt", 0), "/downloads/a.txt");
    assert_eq!(download_candidate("/downloads/", "a.txt", 4), "/downloads/a (4).txt");
}

#[test]
fn deleting_the_active_profile_switches_to_another_first() {
    let profiles = vec![
        User { id: 1, display_name: "a".into(), notifications: true, active: true },
        User { id: 2, display_name: "b".into(), notifications: true, active: false },
    ];
    assert_eq!(replacement_profile(&profiles, 1), Some(2));
    assert_eq!(replacement_profile(&profiles, 2), None);
    assert_eq!(replacement_profile(&profiles[..1].to_vec(), 1), None);
}

#[test]
fn a_preference_reads_back_as_it_was_set() {
    let profile: Value = serde_json::from_str(
        r#"{"displayName": "alice", "preferences": {"calls": {"allow": "yes"}, "voice": {"allow": "no"}}}"#,
    )
    .unwrap();
    let updated = set_profile_preference(to_json(&profile), "calls", false).unwrap();
    assert_eq!(preference_allow(&updated, "calls").map(String::as_str), Some("no"));
    assert_eq!(preference_allow(&updated, "voice").map(String::as_str), Some("no"));
    let updated = set_profile_preference(updated, "voice", true).unwrap();
    assert_eq!(preference_allow(&updated, "voice").map(String::as_str), Some("yes"));
    assert_eq!(preference_allow(&updated, "calls").map(String::as_str), Some("no"));
}

#[test]
fn the_cache_keeps_one_list_per_conversation() {
    let mut cache = MessageCache::new();
    cache.insert(ChatRef("@1".into()), vec![message(1, "t1")]);
    cache.insert(ChatRef("@2".into()), vec![message(2, "t2")]);
    cache.insert(ChatRef("@1".into()), vec![message(3, "t3")]);
    assert_eq!(cache.get(&ChatRef("@1".into())).map(|v| v[0].id), Some(3));
    assert!(cache.has_message(&ChatRef("@2".into()), 2));
    cache.remove(&ChatRef("@2".into()));
    assert!(cache.get(&ChatRef("@2".into())).is_none());
}

#[test]
fn the_conversation_window_counts_scrolling_in_messages() {
    let heights = vec![3u16, 3, 3];
    let w = chat_window(&heights, 7, false, 0);
    assert_eq!((w.max_scroll, w.start, w.end, w.visible_height), (1, 1, 3, 7));
    assert_eq!((w.total_height, w.top_line), (11, 3));
    let scrolled = chat_window(&heights, 7, false, 5);
    assert_eq!((scrolled.start, scrolled.end, scrolled.top_line), (0, 2, 0));
    let compact = chat_window(&heights, 7, true, 0);
    assert_eq!((compact.max_scroll, compact.start, compact.total_height), (1, 1, 9));
    assert_eq!(
        bubble_rows(&heights, 1, 3, false, 20, 7, 7),
        vec![Some((13, 3)), Some((17, 3))]
    );
    assert_eq!(scrollbar_thumb(11, 7, 7, 3), Some((1, 5)));
    assert_eq!(scrollbar_thumb(5, 7, 7, 0), None);
    assert_eq!(scrollbar_thumb(11, 7, 0, 0), None);
}

#[test]
fn scrolling_to_the_top_shows_the_first_message() {
    let heights = vec![4u16, 9, 2, 5, 3, 7];
    for compact in [false, true] {
        for available in [1usize, 5, 9, 12, 40] {
            let top = chat_window(&heights, available, compact, usize::MAX);
            assert_eq!(top.start, 0, "available {available}, compact {compact}");
            let at_limit = chat_window(&heights, available, compact, top.max_scroll);
            assert_eq!(at_limit.start, 0);
            assert_eq!(at_limit.end, top.end);
        }
    }
}
