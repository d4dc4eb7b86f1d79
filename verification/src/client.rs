use vstd::prelude::*;

use crate::json::{
    empty_json_object, empty_object, field, get_key, i64_of, int_of, is_object, member, ref_view,
    str_of, text_eq, text_is, text_member, text_of, with_member, without_member, Json, JsonView,
};
use crate::model::{result_view, ChatFeatures, ChatRef, ServerProtocol};
use crate::text::{has_prefix, has_space, join, join_all, starts_with, trim, trimmed, is_space};

verus! {

/// The chat features that can be switched for a profile or a conversation.
#[derive(Clone, Copy, Debug, PartialEq, Eq, Structural)]
pub enum ChatFeature {
    FullDeletion,
    Reactions,
    VoiceMessages,
    FilesAndMedia,
}

/// How a conversation is deleted.
#[derive(Clone, Copy, Debug, PartialEq, Eq, Structural)]
pub enum ChatDeleteMode {
    Conversation,
    Contact,
    BlockContact,
}

pub open spec fn feature_key(feature: ChatFeature) -> Seq<char> {
    match feature {
        ChatFeature::FullDeletion => "fullDelete"@,
        ChatFeature::Reactions => "reactions"@,
        ChatFeature::VoiceMessages => "voice"@,
        ChatFeature::FilesAndMedia => "files"@,
    }
}

/// The preference name under which the core stores a feature.
pub fn feature_name(feature: ChatFeature) -> (r: &'static str)
    ensures
        r@ == feature_key(feature),
{
    match feature {
        ChatFeature::FullDeletion => "fullDelete",
        ChatFeature::Reactions => "reactions",
        ChatFeature::VoiceMessages => "voice",
        ChatFeature::FilesAndMedia => "files",
    }
}

/// A pasted invitation link without its surrounding white space; refused when nothing is left
/// or when it holds white space, so that it cannot carry a second command.
pub open spec fn checked_link(link: Seq<char>) -> Result<Seq<char>, Seq<char>> {
    let t = trimmed(link);
    if t.len() == 0 {
        Err("invitation link is empty"@)
    } else if exists|i: int| 0 <= i < t.len() && is_space(#[trigger] t[i]) {
        Err("invitation link contains whitespace"@)
    } else {
        Ok(t)
    }
}

pub fn validate_connection_link(link: &str) -> (r: Result<String, String>)
    ensures
        result_view(r) == checked_link(link@),
{
    let t = trim(link);
    if t.as_str().is_empty() {
        return Err("invitation link is empty".to_owned());
    }
    if has_space(t.as_str()) {
        return Err("invitation link contains whitespace".to_owned());
    }
    Ok(t)
}

/// Whether a conversation preference switches a feature on or off; `default` when it says
/// neither. Contacts store `allow`, groups `enable`.
pub open spec fn switched(preferences: Option<JsonView>, name: Seq<char>, group: bool, default: bool) -> bool {
    let value = str_of(field(field(preferences, name), if group { "enable"@ } else { "allow"@ }));
    match value {
        Some(v) => if v == "no"@ || v == "off"@ {
            false
        } else if v == "yes"@ || v == "always"@ || v == "on"@ {
            true
        } else {
            default
        },
        None => default,
    }
}

/// The features of a conversation: its own preferences where they decide, the profile's
/// otherwise; disappearing messages always follow the profile.
pub open spec fn conversation_features_of(
    preferences: Option<JsonView>,
    defaults: ChatFeatures,
    group: bool,
) -> ChatFeatures {
    ChatFeatures {
        disappearing_messages: defaults.disappearing_messages,
        full_deletion: switched(preferences, "fullDelete"@, group, defaults.full_deletion),
        reactions: switched(preferences, "reactions"@, group, defaults.reactions),
        voice_messages: switched(preferences, "voice"@, group, defaults.voice_messages),
        files_and_media: switched(preferences, "files"@, group, defaults.files_and_media),
    }
}

fn switch_of(preferences: Option<&Json>, name: &str, group: bool, default: bool) -> (r: bool)
    ensures
        r == switched(ref_view(preferences), name@, group, default),
{
    let value = text_of(member(member(preferences, name), if group { "enable" } else { "allow" }));
    if text_is(value, "no") || text_is(value, "off") {
        false
    } else if text_is(value, "yes") || text_is(value, "always") || text_is(value, "on") {
        true
    } else {
        default
    }
}

pub fn features_from_preferences(
    preferences: Option<&Json>,
    defaults: ChatFeatures,
    group: bool,
) -> (r: ChatFeatures)
    ensures
        r == conversation_features_of(ref_view(preferences), defaults, group),
{
    ChatFeatures {
        disappearing_messages: defaults.disappearing_messages,
        full_deletion: switch_of(preferences, "fullDelete", group, defaults.full_deletion),
        reactions: switch_of(preferences, "reactions", group, defaults.reactions),
        voice_messages: switch_of(preferences, "voice", group, defaults.voice_messages),
        files_and_media: switch_of(preferences, "files", group, defaults.files_and_media),
    }
}

pub open spec fn yes_no(enabled: bool) -> Seq<char> {
    if enabled {
        "yes"@
    } else {
        "no"@
    }
}

pub open spec fn on_off(enabled: bool) -> Seq<char> {
    if enabled {
        "on"@
    } else {
        "off"@
    }
}

pub open spec fn single(key: Seq<char>, value: Seq<char>) -> JsonView {
    JsonView::Object(seq![(key, JsonView::Str(value))])
}

/// Contact preferences with feature `name` allowed or not.
pub open spec fn contact_feature_set(preferences: JsonView, name: Seq<char>, enabled: bool) -> Result<
    JsonView,
    Seq<char>,
> {
    if !is_object(preferences) {
        Err("contact preferences are not an object"@)
    } else {
        Ok(with_member(preferences, name, single("allow"@, yes_no(enabled))))
    }
}

pub fn set_contact_feature(preferences: Json, name: &str, enabled: bool) -> (r: Result<Json, String>)
    ensures
        result_view(r) == contact_feature_set(preferences.deep_view(), name@, enabled),
{
    if !preferences.is_object() {
        return Err("contact preferences are not an object".to_owned());
    }
    let value = text_member("allow", if enabled { "yes" } else { "no" });
    Ok(preferences.put(name, value))
}

/// The object under `key`, or a new empty one when there is none.
pub open spec fn member_or_empty(j: JsonView, key: Seq<char>) -> JsonView {
    match get_key(j, key) {
        Some(v) => v,
        None => empty_object(),
    }
}

fn take_member_or_empty(j: &Json, key: &str) -> (r: Json)
    ensures
        r.deep_view() == member_or_empty(j.deep_view(), key@),
{
    match j.get(key) {
        Some(v) => v.duplicate(),
        None => empty_json_object(),
    }
}

/// A group profile with feature `name` enabled or not in its group preferences.
pub open spec fn group_feature_set(profile: JsonView, name: Seq<char>, enabled: bool) -> Result<
    JsonView,
    Seq<char>,
> {
    if !is_object(profile) {
        Err("group profile is not an object"@)
    } else {
        let preferences = member_or_empty(profile, "groupPreferences"@);
        if !is_object(preferences) {
            Err("group preferences are not an object"@)
        } else {
            Ok(
                with_member(
                    profile,
                    "groupPreferences"@,
                    with_member(preferences, name, single("enable"@, on_off(enabled))),
                ),
            )
        }
    }
}

pub fn set_group_feature(profile: Json, name: &str, enabled: bool) -> (r: Result<Json, String>)
    ensures
        result_view(r) == group_feature_set(profile.deep_view(), name@, enabled),
{
    if !profile.is_object() {
        return Err("group profile is not an object".to_owned());
    }
    let preferences = take_member_or_empty(&profile, "groupPreferences");
    if !preferences.is_object() {
        return Err("group preferences are not an object".to_owned());
    }
    let value = text_member("enable", if enabled { "on" } else { "off" });
    let preferences = preferences.put(name, value);
    Ok(profile.put("groupPreferences", preferences))
}

/// The `timedMessages` preference of contacts and profiles for `seconds`.
pub open spec fn timed_allow(seconds: i64) -> JsonView {
    if seconds == 0 {
        single("allow"@, "no"@)
    } else {
        JsonView::Object(
            seq![("allow"@, JsonView::Str("yes"@)), ("ttl"@, JsonView::Int(seconds as int))],
        )
    }
}

/// The `timedMessages` preference of groups for `seconds`.
pub open spec fn timed_enable(seconds: i64) -> JsonView {
    if seconds == 0 {
        single("enable"@, "off"@)
    } else {
        JsonView::Object(
            seq![("enable"@, JsonView::Str("on"@)), ("ttl"@, JsonView::Int(seconds as int))],
        )
    }
}

/// Preferences with disappearing messages set: `None` removes the setting so that the default
/// applies.
pub open spec fn timed_in(preferences: JsonView, setting: Option<JsonView>) -> JsonView {
    match setting {
        None => without_member(preferences, "timedMessages"@),
        Some(value) => with_member(preferences, "timedMessages"@, value),
    }
}

fn timed_value(seconds: i64, group: bool) -> (r: Json)
    ensures
        r.deep_view() == if group {
            timed_enable(seconds)
        } else {
            timed_allow(seconds)
        },
{
    let (key, on, off): (&str, &str, &str) = if group {
        ("enable", "on", "off")
    } else {
        ("allow", "yes", "no")
    };
    if seconds == 0 {
        text_member(key, off)
    } else {
        let r = Json::Object(
            vec![(key.to_owned(), Json::Str(on.to_owned())), ("ttl".to_owned(), Json::Int(seconds as i128))],
        );
        proof {
            crate::json::lemma_object_members(r);
        }
        assert(r.deep_view()->Object_0 =~= if group {
            timed_enable(seconds)
        } else {
            timed_allow(seconds)
        }->Object_0);
        r
    }
}

fn apply_timed(preferences: Json, seconds: Option<i64>, group: bool) -> (r: Json)
    ensures
        r.deep_view() == timed_in(
            preferences.deep_view(),
            match seconds {
                None => None,
                Some(s) => Some(
                    if group {
                        timed_enable(s)
                    } else {
                        timed_allow(s)
                    },
                ),
            },
        ),
{
    match seconds {
        None => preferences.remove("timedMessages"),
        Some(s) => {
            let value = timed_value(s, group);
            preferences.put("timedMessages", value)
        },
    }
}

/// Contact preferences, or a user profile's preferences, with disappearing messages set.
/// A value with a `displayName` is a profile, whose `preferences` member is created if needed.
pub open spec fn timed_set(object: JsonView, seconds: Option<i64>) -> Result<JsonView, Seq<char>> {
    let setting = match seconds {
        None => None,
        Some(s) => Some(timed_allow(s)),
    };
    if get_key(object, "displayName"@) is Some {
        let preferences = member_or_empty(object, "preferences"@);
        if !is_object(preferences) {
            Err("preferences are not an object"@)
        } else {
            Ok(with_member(object, "preferences"@, timed_in(preferences, setting)))
        }
    } else if !is_object(object) {
        Err("preferences are not an object"@)
    } else {
        Ok(timed_in(object, setting))
    }
}

pub fn set_timed_preference(object: Json, seconds: Option<i64>) -> (r: Result<Json, String>)
    ensures
        result_view(r) == timed_set(object.deep_view(), seconds),
{
    if object.get("displayName").is_some() {
        let preferences = take_member_or_empty(&object, "preferences");
        if !preferences.is_object() {
            return Err("preferences are not an object".to_owned());
        }
        let preferences = apply_timed(preferences, seconds, false);
        Ok(object.put("preferences", preferences))
    } else if !object.is_object() {
        Err("preferences are not an object".to_owned())
    } else {
        Ok(apply_timed(object, seconds, false))
    }
}

/// A group profile with disappearing messages set in its group preferences.
pub open spec fn group_timed_set(profile: JsonView, seconds: Option<i64>) -> Result<JsonView, Seq<char>> {
    if !is_object(profile) {
        Err("group profile is not an object"@)
    } else {
        let preferences = member_or_empty(profile, "groupPreferences"@);
        if !is_object(preferences) {
            Err("group preferences are not an object"@)
        } else {
            Ok(
                with_member(
                    profile,
                    "groupPreferences"@,
                    timed_in(
                        preferences,
                        match seconds {
                            None => None,
                            Some(s) => Some(timed_enable(s)),
                        },
                    ),
                ),
            )
        }
    }
}

pub fn set_group_timed_preference(profile: Json, seconds: Option<i64>) -> (r: Result<Json, String>)
    ensures
        result_view(r) == group_timed_set(profile.deep_view(), seconds),
{
    if !profile.is_object() {
        return Err("group profile is not an object".to_owned());
    }
    let preferences = take_member_or_empty(&profile, "groupPreferences");
    if !preferences.is_object() {
        return Err("group preferences are not an object".to_owned());
    }
    let preferences = apply_timed(preferences, seconds, true);
    Ok(profile.put("groupPreferences", preferences))
}

/// What a profile's preference `name` allows.
pub open spec fn allow_of(profile: JsonView, name: Seq<char>) -> Option<Seq<char>> {
    str_of(field(field(get_key(profile, "preferences"@), name), "allow"@))
}

pub fn preference_allow<'a>(profile: &'a Json, name: &str) -> (r: Option<&'a String>)
    ensures
        match r {
            Some(s) => allow_of(profile.deep_view(), name@) == Some(s@),
            None => allow_of(profile.deep_view(), name@) is None,
        },
{
    text_of(member(member(profile.get("preferences"), name), "allow"))
}

/// The object under `key` when there is one, else a new empty object.
pub open spec fn object_or_empty(j: JsonView, key: Seq<char>) -> JsonView {
    match get_key(j, key) {
        Some(v) => if is_object(v) {
            v
        } else {
            empty_object()
        },
        None => empty_object(),
    }
}

fn take_object_or_empty(j: &Json, key: &str) -> (r: Json)
    ensures
        r.deep_view() == object_or_empty(j.deep_view(), key@),
{
    match j.get(key) {
        Some(v) => if v.is_object() {
            v.duplicate()
        } else {
            empty_json_object()
        },
        None => empty_json_object(),
    }
}

/// A user profile whose preference `name` allows the feature or not; other settings of that
/// preference are kept.
pub open spec fn profile_preference_set(profile: JsonView, name: Seq<char>, enabled: bool) -> Result<
    JsonView,
    Seq<char>,
> {
    if !is_object(profile) {
        Err("profile response is not an object"@)
    } else {
        let preferences = object_or_empty(profile, "preferences"@);
        let preference = object_or_empty(preferences, name);
        Ok(
            with_member(
                profile,
                "preferences"@,
                with_member(
                    preferences,
                    name,
                    with_member(preference, "allow"@, JsonView::Str(yes_no(enabled))),
                ),
            ),
        )
    }
}

pub fn set_profile_preference(profile: Json, name: &str, enabled: bool) -> (r: Result<Json, String>)
    ensures
        result_view(r) == profile_preference_set(profile.deep_view(), name@, enabled),
{
    if !profile.is_object() {
        return Err("profile response is not an object".to_owned());
    }
    let preferences = take_object_or_empty(&profile, "preferences");
    let preference = take_object_or_empty(&preferences, name);
    let allow = Json::Str((if enabled { "yes" } else { "no" }).to_owned());
    let preference = preference.put("allow", allow);
    let preferences = preferences.put(name, preference);
    Ok(profile.put("preferences", preferences))
}

/// A reply that reports an error, or a failed command, is refused.
pub open spec fn reply_failed(v: JsonView) -> bool {
    get_key(v, "error"@) is Some || str_of(field(get_key(v, "result"@), "type"@)) == Some(
        "chatCmdError"@,
    )
}

pub open spec fn ensure_ok_of(v: JsonView, text: Seq<char>, operation: Seq<char>) -> Result<(), Seq<char>> {
    if reply_failed(v) {
        Err("failed to update "@ + operation + ": "@ + text)
    } else {
        Ok(())
    }
}

/// Whether the reply to an update confirms it; `text` is the reply as the core wrote it.
pub fn ensure_ok(value: &Json, text: &str, operation: &str) -> (r: Result<(), String>)
    ensures
        match r {
            Ok(()) => ensure_ok_of(value.deep_view(), text@, operation@) is Ok,
            Err(e) => ensure_ok_of(value.deep_view(), text@, operation@) == Err::<(), Seq<char>>(
                e@,
            ),
        },
{
    if value.get("error").is_some() || text_is(
        text_of(member(value.get("result"), "type")),
        "chatCmdError",
    ) {
        let pieces = ["failed to update ", operation, ": ", text];
        let r = join_all(&pieces);
        proof {
            reveal_with_fuel(crate::text::concat_all, 5);
            assert(pieces@.map_values(|p: &str| p@) =~= seq![
                "failed to update "@,
                operation@,
                ": "@,
                text@,
            ]);
        }
        Err(r)
    } else {
        Ok(())
    }
}

/// The end of the delete command for a conversation; contact actions need a direct chat.
pub open spec fn deletion_suffix_of(chat_ref: Seq<char>, mode: ChatDeleteMode) -> Result<Seq<char>, Seq<char>> {
    match mode {
        ChatDeleteMode::Conversation => Ok("messages"@),
        ChatDeleteMode::Contact => if has_prefix(chat_ref, "@"@) {
            Ok("full notify=on"@)
        } else {
            Err("contact actions are only available for direct chats"@)
        },
        ChatDeleteMode::BlockContact => if has_prefix(chat_ref, "@"@) {
            Ok("full notify=off"@)
        } else {
            Err("contact actions are only available for direct chats"@)
        },
    }
}

pub fn deletion_suffix(chat_ref: &ChatRef, mode: ChatDeleteMode) -> (r: Result<&'static str, String>)
    ensures
        match r {
            Ok(s) => deletion_suffix_of(chat_ref.0@, mode) == Ok::<Seq<char>, Seq<char>>(s@),
            Err(e) => deletion_suffix_of(chat_ref.0@, mode) == Err::<Seq<char>, Seq<char>>(e@),
        },
{
    match mode {
        ChatDeleteMode::Conversation => Ok("messages"),
        ChatDeleteMode::Contact => if starts_with(chat_ref.0.as_str(), "@") {
            Ok("full notify=on")
        } else {
            Err("contact actions are only available for direct chats".to_owned())
        },
        ChatDeleteMode::BlockContact => if starts_with(chat_ref.0.as_str(), "@") {
            Ok("full notify=off")
        } else {
            Err("contact actions are only available for direct chats".to_owned())
        },
    }
}

} // verus!

verus! {

/// The `chatInfo` of a reply to a chat query.
pub open spec fn chat_info_of(v: JsonView) -> Option<JsonView> {
    field(field(get_key(v, "result"@), "chat"@), "chatInfo"@)
}

/// The `chatInfo` of a reply to a chat query, if it has one.
pub fn chat_info(value: &Json) -> (r: Option<&Json>)
    ensures
        ref_view(r) == chat_info_of(value.deep_view()),
{
    member(member(value.get("result"), "chat"), "chatInfo")
}

/// How long the disappearing-messages preference `timed` keeps messages: 0 when it is off,
/// its `ttl` (or 0) when it is on, `None` when it does not say.
pub open spec fn disappearing_of(timed: Option<JsonView>) -> Option<i64> {
    let switch = if field(timed, "allow"@) is Some {
        field(timed, "allow"@)
    } else {
        field(timed, "enable"@)
    };
    let s = str_of(switch);
    if s == Some("no"@) || s == Some("off"@) {
        Some(0)
    } else if s == Some("yes"@) || s == Some("always"@) || s == Some("on"@) {
        match i64_of(field(timed, "ttl"@)) {
            Some(ttl) => Some(ttl),
            None => Some(0),
        }
    } else {
        None
    }
}

/// The message-retention settings of a conversation, from a reply to a chat query.
pub open spec fn chat_deletion_of(v: JsonView) -> Result<crate::model::ChatDeletionSettings, Seq<char>> {
    match chat_info_of(v) {
        None => Err("chat response has no chatInfo"@),
        Some(info) => {
            let kind = str_of(get_key(info, "type"@));
            if kind == Some("direct"@) {
                match get_key(info, "contact"@) {
                    None => Err("direct chat has no contact"@),
                    Some(entity) => Ok(
                        crate::model::ChatDeletionSettings {
                            local_ttl: i64_of(get_key(entity, "chatItemTTL"@)),
                            disappearing_ttl: disappearing_of(
                                field(get_key(entity, "userPreferences"@), "timedMessages"@),
                            ),
                        },
                    ),
                }
            } else if kind == Some("group"@) {
                match get_key(info, "groupInfo"@) {
                    None => Err("group chat has no groupInfo"@),
                    Some(entity) => Ok(
                        crate::model::ChatDeletionSettings {
                            local_ttl: i64_of(get_key(entity, "chatItemTTL"@)),
                            disappearing_ttl: disappearing_of(
                                field(
                                    field(get_key(entity, "groupProfile"@), "groupPreferences"@),
                                    "timedMessages"@,
                                ),
                            ),
                        },
                    ),
                }
            } else {
                Err("chat deletion settings are unsupported for this chat type"@)
            }
        },
    }
}

fn disappearing(timed: Option<&Json>) -> (r: Option<i64>)
    ensures
        r == disappearing_of(ref_view(timed)),
{
    let switch = if member(timed, "allow").is_some() {
        member(timed, "allow")
    } else {
        member(timed, "enable")
    };
    let s = text_of(switch);
    if text_is(s, "no") || text_is(s, "off") {
        Some(0)
    } else if text_is(s, "yes") || text_is(s, "always") || text_is(s, "on") {
        match int_of(member(timed, "ttl")) {
            Some(ttl) => Some(ttl),
            None => Some(0),
        }
    } else {
        None
    }
}

pub fn chat_deletion_settings(value: &Json) -> (r: Result<crate::model::ChatDeletionSettings, String>)
    ensures
        result_view(r) == chat_deletion_of(value.deep_view()),
{
    let info = match chat_info(value) {
        Some(info) => info,
        None => return Err("chat response has no chatInfo".to_owned()),
    };
    let kind = text_of(info.get("type"));
    if text_is(kind, "direct") {
        match info.get("contact") {
            None => Err("direct chat has no contact".to_owned()),
            Some(entity) => Ok(
                crate::model::ChatDeletionSettings {
                    local_ttl: int_of(entity.get("chatItemTTL")),
                    disappearing_ttl: disappearing(
                        member(entity.get("userPreferences"), "timedMessages"),
                    ),
                },
            ),
        }
    } else if text_is(kind, "group") {
        match info.get("groupInfo") {
            None => Err("group chat has no groupInfo".to_owned()),
            Some(entity) => Ok(
                crate::model::ChatDeletionSettings {
                    local_ttl: int_of(entity.get("chatItemTTL")),
                    disappearing_ttl: disappearing(
                        member(member(entity.get("groupProfile"), "groupPreferences"), "timedMessages"),
                    ),
                },
            ),
        }
    } else {
        Err("chat deletion settings are unsupported for this chat type".to_owned())
    }
}

/// The features of a conversation from a reply to a chat query and the profile's features.
pub open spec fn conversation_features_from(v: JsonView, defaults: ChatFeatures) -> Result<ChatFeatures, Seq<char>> {
    match chat_info_of(v) {
        None => Err("chat response has no chatInfo"@),
        Some(info) => {
            let kind = str_of(get_key(info, "type"@));
            if kind == Some("direct"@) {
                Ok(
                    conversation_features_of(
                        field(get_key(info, "contact"@), "userPreferences"@),
                        defaults,
                        false,
                    ),
                )
            } else if kind == Some("group"@) {
                Ok(
                    conversation_features_of(
                        field(field(get_key(info, "groupInfo"@), "groupProfile"@), "groupPreferences"@),
                        defaults,
                        true,
                    ),
                )
            } else {
                Err("chat feature settings are unsupported for this chat type"@)
            }
        },
    }
}

pub fn conversation_features(value: &Json, defaults: ChatFeatures) -> (r: Result<ChatFeatures, String>)
    ensures
        result_view(r) == conversation_features_from(value.deep_view(), defaults),
{
    let info = match chat_info(value) {
        Some(info) => info,
        None => return Err("chat response has no chatInfo".to_owned()),
    };
    let kind = text_of(info.get("type"));
    if text_is(kind, "direct") {
        Ok(features_from_preferences(member(info.get("contact"), "userPreferences"), defaults, false))
    } else if text_is(kind, "group") {
        Ok(
            features_from_preferences(
                member(member(info.get("groupInfo"), "groupProfile"), "groupPreferences"),
                defaults,
                true,
            ),
        )
    } else {
        Err("chat feature settings are unsupported for this chat type".to_owned())
    }
}

/// Whether a chat-query reply describes a direct chat (`Some(true)`), a group (`Some(false)`),
/// or neither.
pub open spec fn chat_is_direct(v: JsonView) -> Option<bool> {
    match chat_info_of(v) {
        None => None,
        Some(info) => {
            let kind = str_of(get_key(info, "type"@));
            if kind == Some("direct"@) {
                Some(true)
            } else if kind == Some("group"@) {
                Some(false)
            } else {
                None
            }
        },
    }
}

/// The edited object that a conversation update sends, and whether it is a contact's
/// preferences (`true`) or a group profile (`false`).
/// `unsupported` is the message for any other kind of conversation.
pub open spec fn conversation_edit_source(v: JsonView, unsupported: Seq<char>) -> Result<(bool, JsonView), Seq<char>> {
    match chat_info_of(v) {
        None => Err("chat response has no chatInfo"@),
        Some(info) => match chat_is_direct(v) {
            Some(true) => Ok(
                (
                    true,
                    match field(get_key(info, "contact"@), "userPreferences"@) {
                        Some(p) => p,
                        None => empty_object(),
                    },
                ),
            ),
            Some(false) => match field(get_key(info, "groupInfo"@), "groupProfile"@) {
                Some(p) => Ok((false, p)),
                None => Err("group chat has no group profile"@),
            },
            None => Err(unsupported),
        },
    }
}

fn edit_source(value: &Json, unsupported: &str) -> (r: Result<(bool, Json), String>)
    ensures
        result_view(r) == conversation_edit_source(value.deep_view(), unsupported@),
{
    let info = match chat_info(value) {
        Some(info) => info,
        None => return Err("chat response has no chatInfo".to_owned()),
    };
    let kind = text_of(info.get("type"));
    if text_is(kind, "direct") {
        let preferences = match member(info.get("contact"), "userPreferences") {
            Some(p) => p.duplicate(),
            None => empty_json_object(),
        };
        Ok((true, preferences))
    } else if text_is(kind, "group") {
        match member(info.get("groupInfo"), "groupProfile") {
            Some(p) => Ok((false, p.duplicate())),
            None => Err("group chat has no group profile".to_owned()),
        }
    } else {
        Err(unsupported.to_owned())
    }
}

/// The update that sets disappearing messages of a conversation: `true` with contact
/// preferences (sent by `/_set prefs`), `false` with a group profile (sent by `/_group_profile`).
pub open spec fn chat_deletion_edit_of(v: JsonView, seconds: Option<i64>) -> Result<(bool, JsonView), Seq<char>> {
    match conversation_edit_source(v, "chat deletion settings are unsupported for this chat type"@) {
        Err(e) => Err(e),
        Ok((true, preferences)) => match timed_set(preferences, seconds) {
            Err(e) => Err(e),
            Ok(p) => Ok((true, p)),
        },
        Ok((false, profile)) => match group_timed_set(profile, seconds) {
            Err(e) => Err(e),
            Ok(p) => Ok((false, p)),
        },
    }
}

pub fn chat_deletion_edit(value: &Json, seconds: Option<i64>) -> (r: Result<(bool, Json), String>)
    ensures
        result_view(r) == chat_deletion_edit_of(value.deep_view(), seconds),
{
    match edit_source(value, "chat deletion settings are unsupported for this chat type") {
        Err(e) => Err(e),
        Ok((true, preferences)) => match set_timed_preference(preferences, seconds) {
            Err(e) => Err(e),
            Ok(p) => Ok((true, p)),
        },
        Ok((false, profile)) => match set_group_timed_preference(profile, seconds) {
            Err(e) => Err(e),
            Ok(p) => Ok((false, p)),
        },
    }
}

/// The update that switches a feature of a conversation, with calls always switched off.
pub open spec fn conversation_feature_edit_of(v: JsonView, name: Seq<char>, enabled: bool) -> Result<
    (bool, JsonView),
    Seq<char>,
> {
    match conversation_edit_source(v, "chat feature settings are unsupported for this chat type"@) {
        Err(e) => Err(e),
        Ok((true, preferences)) => match contact_feature_set(preferences, name, enabled) {
            Err(e) => Err(e),
            Ok(p) => match contact_feature_set(p, "calls"@, false) {
                Err(e) => Err(e),
                Ok(q) => Ok((true, q)),
            },
        },
        Ok((false, profile)) => match group_feature_set(profile, name, enabled) {
            Err(e) => Err(e),
            Ok(p) => match group_feature_set(p, "calls"@, false) {
                Err(e) => Err(e),
                Ok(q) => Ok((false, q)),
            },
        },
    }
}

pub fn conversation_feature_edit(value: &Json, name: &str, enabled: bool) -> (r: Result<(bool, Json), String>)
    ensures
        result_view(r) == conversation_feature_edit_of(value.deep_view(), name@, enabled),
{
    match edit_source(value, "chat feature settings are unsupported for this chat type") {
        Err(e) => Err(e),
        Ok((true, preferences)) => match set_contact_feature(preferences, name, enabled) {
            Err(e) => Err(e),
            Ok(p) => match set_contact_feature(p, "calls", false) {
                Err(e) => Err(e),
                Ok(q) => Ok((true, q)),
            },
        },
        Ok((false, profile)) => match set_group_feature(profile, name, enabled) {
            Err(e) => Err(e),
            Ok(p) => match set_group_feature(p, "calls", false) {
                Err(e) => Err(e),
                Ok(q) => Ok((false, q)),
            },
        },
    }
}

} // verus!

verus! {

/// The server groups of a `userServers` reply; `text` is the reply as the core wrote it.
pub open spec fn user_servers_of(v: JsonView, text: Seq<char>) -> Result<JsonView, Seq<char>> {
    match field(get_key(v, "result"@), "userServers"@) {
        Some(groups) => Ok(groups),
        None => Err("user server response is invalid: "@ + text),
    }
}

pub fn user_servers(value: &Json, text: &str) -> (r: Result<Json, String>)
    ensures
        result_view(r) == user_servers_of(value.deep_view(), text@),
{
    match member(value.get("result"), "userServers") {
        Some(groups) => Ok(groups.duplicate()),
        None => Err(join("user server response is invalid: ", text)),
    }
}

/// One server entry, switched when it has the address: `true` when it matched.
pub open spec fn server_toggle(server: JsonView, address: Seq<char>, enabled: bool) -> Result<
    (JsonView, bool),
    Seq<char>,
> {
    if str_of(get_key(server, "server"@)) == Some(address) {
        if is_object(server) {
            Ok((with_member(server, "enabled"@, JsonView::Bool(enabled)), true))
        } else {
            Err("server entry is not an object"@)
        }
    } else {
        Ok((server, false))
    }
}

/// A list of server entries with every entry of the address switched, and whether any matched.
pub open spec fn list_toggle(list: Seq<JsonView>, address: Seq<char>, enabled: bool) -> Result<
    (Seq<JsonView>, bool),
    Seq<char>,
>
    decreases list.len(),
{
    if list.len() == 0 {
        Ok((Seq::empty(), false))
    } else {
        match list_toggle(list.drop_last(), address, enabled) {
            Err(e) => Err(e),
            Ok((acc, found)) => match server_toggle(list.last(), address, enabled) {
                Err(e) => Err(e),
                Ok((s, hit)) => Ok((acc.push(s), found || hit)),
            },
        }
    }
}

pub open spec fn group_toggle(group: JsonView, key: Seq<char>, address: Seq<char>, enabled: bool) -> Result<
    (JsonView, bool),
    Seq<char>,
> {
    match array_of_member(group, key) {
        None => Ok((group, false)),
        Some(list) => match list_toggle(list, address, enabled) {
            Err(e) => Err(e),
            Ok((l, found)) => Ok((with_member(group, key, JsonView::Array(l)), found)),
        },
    }
}

pub open spec fn array_of_member(j: JsonView, key: Seq<char>) -> Option<Seq<JsonView>> {
    crate::json::array_of(get_key(j, key))
}

pub open spec fn groups_toggle(groups: Seq<JsonView>, key: Seq<char>, address: Seq<char>, enabled: bool) -> Result<
    (Seq<JsonView>, bool),
    Seq<char>,
>
    decreases groups.len(),
{
    if groups.len() == 0 {
        Ok((Seq::empty(), false))
    } else {
        match groups_toggle(groups.drop_last(), key, address, enabled) {
            Err(e) => Err(e),
            Ok((acc, found)) => match group_toggle(groups.last(), key, address, enabled) {
                Err(e) => Err(e),
                Ok((g, hit)) => Ok((acc.push(g), found || hit)),
            },
        }
    }
}

/// The server groups with every server of the address (of that protocol) switched on or off;
/// an error when none has that address.
pub open spec fn servers_enabled_set(
    groups: JsonView,
    protocol: ServerProtocol,
    address: Seq<char>,
    enabled: bool,
) -> Result<JsonView, Seq<char>> {
    match groups {
        JsonView::Array(gs) => match groups_toggle(gs, protocol.key_text(), address, enabled) {
            Err(e) => Err(e),
            Ok((updated, found)) => if found {
                Ok(JsonView::Array(updated))
            } else {
                Err("server is no longer present"@)
            },
        },
        _ => Err("user servers are not an array"@),
    }
}

fn toggle_list(list: &Vec<Json>, address: &str, enabled: bool) -> (r: Result<(Vec<Json>, bool), String>)
    ensures
        match (r, list_toggle(list.deep_view(), address@, enabled)) {
            (Ok((l, f)), Ok((lv, fv))) => l.deep_view() == lv && f == fv,
            (Err(e), Err(ev)) => e@ == ev,
            _ => false,
        },
{
    let ghost all = list.deep_view();
    let mut out: Vec<Json> = Vec::new();
    let mut found = false;
    let mut i: usize = 0;
    assert(all.take(0) =~= Seq::<JsonView>::empty());
    assert(out.deep_view() =~= Seq::<JsonView>::empty());
    while i < list.len()
        invariant
            i <= list@.len(),
            all == list.deep_view(),
            all.len() == list@.len(),
            list_toggle(all.take(i as int), address@, enabled) == Ok::<(Seq<JsonView>, bool), Seq<char>>(
                (out.deep_view(), found),
            ),
        decreases list.len() - i,
    {
        assert(all.take(i + 1).drop_last() =~= all.take(i as int));
        assert(all.take(i + 1).last() == all[i as int]);
        let server = &list[i];
        let ghost before = out.deep_view();
        if text_is(text_of(server.get("server")), address) {
            if !server.is_object() {
                proof {
                    lemma_list_toggle_error_stays(all, address@, enabled, i as int + 1);
                }
                return Err("server entry is not an object".to_owned());
            }
            let updated = server.duplicate().put("enabled", Json::Bool(enabled));
            let ghost uv = updated.deep_view();
            out.push(updated);
            assert(out.deep_view() =~= before.push(uv));
            found = true;
        } else {
            let copy = server.duplicate();
            let ghost cv = copy.deep_view();
            out.push(copy);
            assert(out.deep_view() =~= before.push(cv));
        }
        i = i + 1;
    }
    assert(all.take(list@.len() as int) =~= all);
    Ok((out, found))
}

proof fn lemma_list_toggle_error_stays(list: Seq<JsonView>, address: Seq<char>, enabled: bool, i: int)
    requires
        0 <= i <= list.len(),
        list_toggle(list.take(i), address, enabled) is Err,
    ensures
        list_toggle(list, address, enabled) == list_toggle(list.take(i), address, enabled),
    decreases list.len() - i,
{
    if i < list.len() {
        assert(list.take(i + 1).drop_last() =~= list.take(i));
        lemma_list_toggle_error_stays(list, address, enabled, i + 1);
    } else {
        assert(list.take(i) =~= list);
    }
}

proof fn lemma_groups_toggle_error_stays(
    groups: Seq<JsonView>,
    key: Seq<char>,
    address: Seq<char>,
    enabled: bool,
    i: int,
)
    requires
        0 <= i <= groups.len(),
        groups_toggle(groups.take(i), key, address, enabled) is Err,
    ensures
        groups_toggle(groups, key, address, enabled) == groups_toggle(groups.take(i), key, address, enabled),
    decreases groups.len() - i,
{
    if i < groups.len() {
        assert(groups.take(i + 1).drop_last() =~= groups.take(i));
        lemma_groups_toggle_error_stays(groups, key, address, enabled, i + 1);
    } else {
        assert(groups.take(i) =~= groups);
    }
}

fn array_json(items: Vec<Json>) -> (r: Json)
    ensures
        r.deep_view() == JsonView::Array(items.deep_view()),
{
    let r = Json::Array(items);
    proof {
        crate::json::lemma_array_items(r);
    }
    assert(r.deep_view()->Array_0 =~= items.deep_view());
    r
}

/// Switches the servers with `address` of one protocol in the server groups of a user.
pub fn set_server_enabled(groups: &Json, protocol: ServerProtocol, address: &str, enabled: bool) -> (r: Result<Json, String>)
    ensures
        result_view(r) == servers_enabled_set(groups.deep_view(), protocol, address@, enabled),
{
    let list = match groups.as_array() {
        Some(list) => list,
        None => return Err("user servers are not an array".to_owned()),
    };
    let key = protocol.json_key();
    let ghost all = list.deep_view();
    let mut out: Vec<Json> = Vec::new();
    let mut found = false;
    let mut i: usize = 0;
    assert(all.take(0) =~= Seq::<JsonView>::empty());
    assert(out.deep_view() =~= Seq::<JsonView>::empty());
    while i < list.len()
        invariant
            i <= list@.len(),
            all == list.deep_view(),
            all.len() == list@.len(),
            key@ == protocol.key_text(),
            groups.deep_view() == JsonView::Array(all),
            groups_toggle(all.take(i as int), key@, address@, enabled) == Ok::<(Seq<JsonView>, bool), Seq<char>>(
                (out.deep_view(), found),
            ),
        decreases list.len() - i,
    {
        assert(all.take(i + 1).drop_last() =~= all.take(i as int));
        assert(all.take(i + 1).last() == all[i as int]);
        let group = &list[i];
        let ghost before = out.deep_view();
        match crate::json::items_of(group.get(key)) {
            None => {
                let copy = group.duplicate();
                let ghost cv = copy.deep_view();
                out.push(copy);
                assert(out.deep_view() =~= before.push(cv));
            },
            Some(servers) => match toggle_list(servers, address, enabled) {
                Err(e) => {
                    proof {
                        lemma_groups_toggle_error_stays(all, key@, address@, enabled, i as int + 1);
                    }
                    return Err(e);
                },
                Ok((updated, hit)) => {
                    let g = group.duplicate().put(key, array_json(updated));
                    let ghost gv = g.deep_view();
                    out.push(g);
                    assert(out.deep_view() =~= before.push(gv));
                    found = found || hit;
                },
            },
        }
        i = i + 1;
    }
    assert(all.take(list@.len() as int) =~= all);
    if !found {
        return Err("server is no longer present".to_owned());
    }
    Ok(array_json(out))
}

/// Whether some entry of a server list has the address.
pub open spec fn lists_address(list: Seq<JsonView>, address: Seq<char>) -> bool {
    exists|i: int| 0 <= i < list.len() && str_of(get_key(#[trigger] list[i], "server"@)) == Some(address)
}

pub open spec fn group_lists(group: JsonView, key: Seq<char>, address: Seq<char>) -> bool {
    match array_of_member(group, key) {
        Some(list) => lists_address(list, address),
        None => false,
    }
}

/// A group without an operator holds the user's own servers.
pub open spec fn custom_group(group: JsonView) -> bool {
    match get_key(group, "operator"@) {
        None => true,
        Some(o) => o is Null,
    }
}

/// The position of the first group without an operator.
pub open spec fn custom_index(groups: Seq<JsonView>) -> Option<int>
    decreases groups.len(),
{
    if groups.len() == 0 {
        None
    } else if custom_group(groups[0]) {
        Some(0)
    } else {
        match custom_index(groups.drop_first()) {
            Some(k) => Some(k + 1),
            None => None,
        }
    }
}

/// The entry that a new server of the user gets.
pub open spec fn new_server_entry(address: Seq<char>) -> JsonView {
    JsonView::Object(
        seq![
            ("server"@, JsonView::Str(address)),
            ("preset"@, JsonView::Bool(false)),
            ("tested"@, JsonView::Null),
            ("enabled"@, JsonView::Bool(true)),
            (
                "roles"@,
                JsonView::Object(
                    seq![
                        ("storage"@, JsonView::Null),
                        ("proxy"@, JsonView::Null),
                        ("names"@, JsonView::Null),
                    ],
                ),
            ),
            ("deleted"@, JsonView::Bool(false)),
        ],
    )
}

pub open spec fn scheme_of(protocol: ServerProtocol) -> Seq<char> {
    match protocol {
        ServerProtocol::Smp => "smp://"@,
        ServerProtocol::Xftp => "xftp://"@,
    }
}

/// The message for an address of the wrong scheme.
pub open spec fn scheme_error(protocol: ServerProtocol) -> Seq<char> {
    match protocol {
        ServerProtocol::Smp => "expected an smp:// server address"@,
        ServerProtocol::Xftp => "expected an xftp:// server address"@,
    }
}

/// Whether an address may be added as a server of the protocol: it must use its scheme.
pub open spec fn address_check(protocol: ServerProtocol, address: Seq<char>) -> Result<(), Seq<char>> {
    if has_prefix(address, scheme_of(protocol)) {
        Ok(())
    } else {
        Err(scheme_error(protocol))
    }
}

pub fn check_server_address(protocol: ServerProtocol, address: &str) -> (r: Result<(), String>)
    ensures
        match r {
            Ok(()) => address_check(protocol, address@) is Ok,
            Err(e) => address_check(protocol, address@) == Err::<(), Seq<char>>(e@),
        },
{
    let (scheme, message): (&str, &str) = match protocol {
        ServerProtocol::Smp => ("smp://", "expected an smp:// server address"),
        ServerProtocol::Xftp => ("xftp://", "expected an xftp:// server address"),
    };
    if starts_with(address, scheme) {
        Ok(())
    } else {
        Err(message.to_owned())
    }
}

/// The server groups with a new server of the user added to the first group without an
/// operator; refused when the address is already listed for that protocol.
pub open spec fn server_added(groups: JsonView, protocol: ServerProtocol, address: Seq<char>) -> Result<
    JsonView,
    Seq<char>,
> {
    let key = protocol.key_text();
    match groups {
        JsonView::Array(gs) => if exists|i: int| 0 <= i < gs.len() && group_lists(#[trigger] gs[i], key, address) {
            Err("server is already configured"@)
        } else {
            match custom_index(gs) {
                None => Err("custom server group is missing"@),
                Some(k) => match array_of_member(gs[k], key) {
                    None => Err("custom server list is missing"@),
                    Some(list) => Ok(
                        JsonView::Array(
                            gs.update(
                                k,
                                with_member(
                                    gs[k],
                                    key,
                                    JsonView::Array(list.push(new_server_entry(address))),
                                ),
                            ),
                        ),
                    ),
                },
            }
        },
        _ => Err("user servers are not an array"@),
    }
}

fn null_json() -> (r: Json)
    ensures
        r.deep_view() == JsonView::Null,
{
    Json::Null
}

fn server_entry_json(address: &str) -> (r: Json)
    ensures
        r.deep_view() == new_server_entry(address@),
{
    let roles = Json::Object(
        vec![
            ("storage".to_owned(), null_json()),
            ("proxy".to_owned(), null_json()),
            ("names".to_owned(), null_json()),
        ],
    );
    proof {
        crate::json::lemma_object_members(roles);
    }
    assert(roles.deep_view()->Object_0 =~= new_server_entry(address@)->Object_0[4].1->Object_0);
    let r = Json::Object(
        vec![
            ("server".to_owned(), Json::Str(address.to_owned())),
            ("preset".to_owned(), Json::Bool(false)),
            ("tested".to_owned(), null_json()),
            ("enabled".to_owned(), Json::Bool(true)),
            ("roles".to_owned(), roles),
            ("deleted".to_owned(), Json::Bool(false)),
        ],
    );
    proof {
        crate::json::lemma_object_members(r);
    }
    assert(r.deep_view()->Object_0 =~= new_server_entry(address@)->Object_0);
    r
}

fn lists_in(list: &Vec<Json>, address: &str) -> (r: bool)
    ensures
        r == lists_address(list.deep_view(), address@),
{
    let ghost all = list.deep_view();
    let mut i: usize = 0;
    while i < list.len()
        invariant
            i <= list@.len(),
            all == list.deep_view(),
            all.len() == list@.len(),
            forall|k: int| 0 <= k < i ==> str_of(get_key(#[trigger] all[k], "server"@)) != Some(address@),
        decreases list.len() - i,
    {
        if text_is(text_of(list[i].get("server")), address) {
            assert(str_of(get_key(all[i as int], "server"@)) == Some(address@));
            return true;
        }
        i = i + 1;
    }
    false
}

proof fn lemma_custom_index(gs: Seq<JsonView>, i: int)
    requires
        0 <= i <= gs.len(),
        forall|k: int| 0 <= k < i ==> !custom_group(#[trigger] gs[k]),
    ensures
        i < gs.len() && custom_group(gs[i]) ==> custom_index(gs) == Some(i),
        i == gs.len() ==> custom_index(gs) is None,
    decreases i,
{
    if i > 0 && gs.len() > 0 {
        let rest = gs.drop_first();
        assert forall|k: int| 0 <= k < i - 1 implies !custom_group(#[trigger] rest[k]) by {
            assert(rest[k] == gs[k + 1]);
        }
        lemma_custom_index(rest, i - 1);
        assert(!custom_group(gs[0]));
        if i < gs.len() {
            assert(rest[i - 1] == gs[i]);
        }
    }
}

/// A server of the user added to the server groups: an address with the wrong scheme for the
/// protocol is refused first.
pub open spec fn server_add(groups: JsonView, protocol: ServerProtocol, address: Seq<char>) -> Result<
    JsonView,
    Seq<char>,
> {
    match address_check(protocol, address) {
        Err(e) => Err(e),
        Ok(_) => server_added(groups, protocol, address),
    }
}

/// Adds a server of the user to the server groups; an address with the wrong scheme for the
/// protocol is refused before the groups are looked at.
pub fn add_server(groups: &Json, protocol: ServerProtocol, address: &str) -> (r: Result<Json, String>)
    ensures
        result_view(r) == server_add(groups.deep_view(), protocol, address@),
{
    match check_server_address(protocol, address) {
        Err(e) => Err(e),
        Ok(()) => add_listed_server(groups, protocol, address),
    }
}

/// Adds a server of the user, whose address has the right scheme, to the server groups.
#[verifier::loop_isolation(false)]
fn add_listed_server(groups: &Json, protocol: ServerProtocol, address: &str) -> (r: Result<Json, String>)
    ensures
        result_view(r) == server_added(groups.deep_view(), protocol, address@),
{
    let list = match groups.as_array() {
        Some(list) => list,
        None => return Err("user servers are not an array".to_owned()),
    };
    let key = protocol.json_key();
    let ghost all = list.deep_view();
    let mut i: usize = 0;
    while i < list.len()
        invariant
            i <= list@.len(),
            all == list.deep_view(),
            all.len() == list@.len(),
            key@ == protocol.key_text(),
            forall|k: int| 0 <= k < i ==> !group_lists(#[trigger] all[k], key@, address@),
        decreases list.len() - i,
    {
        let listed = match crate::json::items_of(list[i].get(key)) {
            Some(servers) => lists_in(servers, address),
            None => false,
        };
        if listed {
            assert(group_lists(all[i as int], key@, address@));
            return Err("server is already configured".to_owned());
        }
        i = i + 1;
    }
    let mut c: usize = 0;
    while c < list.len()
        invariant
            c <= list@.len(),
            all == list.deep_view(),
            all.len() == list@.len(),
            forall|k: int| 0 <= k < c ==> !custom_group(#[trigger] all[k]),
        decreases list.len() - c,
    {
        let operator = list[c].get("operator");
        let custom = match operator {
            None => true,
            Some(o) => match o {
                Json::Null => true,
                _ => false,
            },
        };
        if custom {
            assert(custom_group(all[c as int]));
            break;
        }
        c = c + 1;
    }
    proof {
        lemma_custom_index(all, c as int);
    }
    if c == list.len() {
        return Err("custom server group is missing".to_owned());
    }
    let servers = match crate::json::items_of(list[c].get(key)) {
        Some(servers) => servers,
        None => return Err("custom server list is missing".to_owned()),
    };
    let mut extended: Vec<Json> = Vec::new();
    let mut j: usize = 0;
    while j < servers.len()
        invariant
            j <= servers@.len(),
            extended@.len() == j,
            forall|k: int| 0 <= k < j ==> (#[trigger] extended@[k]).deep_view() == servers@[k].deep_view(),
        decreases servers.len() - j,
    {
        extended.push(servers[j].duplicate());
        j = j + 1;
    }
    let ghost sv = servers.deep_view();
    extended.push(server_entry_json(address));
    assert(extended.deep_view() =~= sv.push(new_server_entry(address@)));
    let custom_group_json = list[c].duplicate().put(key, array_json(extended));
    let mut updated: Vec<Json> = Vec::new();
    let mut k: usize = 0;
    while k < list.len()
        invariant
            k <= list@.len(),
            c < list@.len(),
            updated@.len() == k,
            forall|m: int| 0 <= m < k && m != c ==> (#[trigger] updated@[m]).deep_view() == list@[m].deep_view(),
            c < k ==> updated@[c as int].deep_view() == custom_group_json.deep_view(),
        decreases list.len() - k,
    {
        if k == c {
            updated.push(custom_group_json.duplicate());
        } else {
            updated.push(list[k].duplicate());
        }
        k = k + 1;
    }
    let r = array_json(updated);
    assert(r.deep_view()->Array_0 =~= all.update(c as int, custom_group_json.deep_view()));
    Ok(r)
}

/// Setting a preference of a profile and reading it back gives what was set, and the profile's
/// other preferences read as before.
pub proof fn lemma_preference_read_back(
    profile: JsonView,
    name: Seq<char>,
    other: Seq<char>,
    enabled: bool,
)
    requires
        is_object(profile),
    ensures
        profile_preference_set(profile, name, enabled) is Ok,
        allow_of(profile_preference_set(profile, name, enabled)->Ok_0, name) == Some(
            yes_no(enabled),
        ),
        other != name ==> allow_of(profile_preference_set(profile, name, enabled)->Ok_0, other)
            == allow_of(profile, other),
{
    let preferences = object_or_empty(profile, "preferences"@);
    let preference = object_or_empty(preferences, name);
    let allow = JsonView::Str(yes_no(enabled));
    let new_preference = with_member(preference, "allow"@, allow);
    let new_preferences = with_member(preferences, name, new_preference);
    let new_profile = with_member(profile, "preferences"@, new_preferences);
    crate::json::lemma_get_after_put(profile->Object_0, "preferences"@, "preferences"@, new_preferences);
    crate::json::lemma_get_after_put(preferences->Object_0, name, other, new_preference);
    crate::json::lemma_get_after_put(preference->Object_0, "allow"@, "allow"@, allow);
    assert(get_key(new_profile, "preferences"@) == Some(new_preferences));
    assert(get_key(new_preferences, name) == Some(new_preference));
    assert(get_key(new_preference, "allow"@) == Some(allow));
    if other != name {
        match get_key(profile, "preferences"@) {
            Some(v) => {
                if !is_object(v) {
                    assert(get_key(v, other) is None);
                }
            },
            None => {},
        }
    }
}

} // verus!
