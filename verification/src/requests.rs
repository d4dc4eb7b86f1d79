use vstd::prelude::*;

use crate::codec::{json_text, write_json};
use crate::json::{field, get_key, i64_of, int_of, member, str_of, text_is, text_of, Json, JsonView};
use crate::model::{result_view, ChatRef, UserView};
use crate::text::{concat_all, decimal, decimal_text, has_prefix, join, join_all, starts_with};

verus! {

/// A request to the SimpleX core: a command line, and the JSON document that follows it,
/// separated by one space, when the command takes one.
pub struct CoreRequest {
    pub command: String,
    pub argument: Option<Json>,
}

/// A reply of the SimpleX core: the document, and its text as the core wrote it.
pub struct CoreReply {
    pub value: Json,
    pub text: String,
}

/// The calls that the worker makes to the core.
pub enum CoreCall {
    ActiveUser,
    Start,
    Profile,
    Users,
    ActivateUser { user_id: i64 },
    CreateUser { display_name: String },
    DeleteUser { user_id: i64 },
    LoadChat { chat_ref: ChatRef, count: u32 },
    ReadChat { chat_ref: ChatRef },
    Chats { user_id: i64 },
    SendReaction { chat_ref: ChatRef, item_id: i64, emoji: String },
    ReceiveFile { file_id: i64, path: String },
    CancelFile { file_id: i64 },
    GlobalTtl { user_id: i64 },
    SetGlobalTtl { user_id: i64, seconds: i64 },
    SetChatTtl { user_id: i64, chat_ref: ChatRef, seconds: Option<i64> },
    Servers { user_id: i64 },
    SaveServers { user_id: i64, groups: Json },
    UpdateProfile { user_id: i64, profile: Json },
    SetContactPreferences { chat_ref: ChatRef, preferences: Json },
    SetGroupProfile { chat_ref: ChatRef, profile: Json },
    DeleteChat { chat_ref: ChatRef, suffix: String },
    CreateInvitation { user_id: i64 },
    Connect { user_id: i64, link: String },
    /// A command line written out in full, such as one that sends a message.
    Send { command: String },
}

/// A call, with its texts and documents taken by their views.
pub enum CallView {
    ActiveUser,
    Start,
    Profile,
    Users,
    ActivateUser { user_id: i64 },
    CreateUser { display_name: Seq<char> },
    DeleteUser { user_id: i64 },
    LoadChat { chat_ref: Seq<char>, count: u32 },
    ReadChat { chat_ref: Seq<char> },
    Chats { user_id: i64 },
    SendReaction { chat_ref: Seq<char>, item_id: i64, emoji: Seq<char> },
    ReceiveFile { file_id: i64, path: Seq<char> },
    CancelFile { file_id: i64 },
    GlobalTtl { user_id: i64 },
    SetGlobalTtl { user_id: i64, seconds: i64 },
    SetChatTtl { user_id: i64, chat_ref: Seq<char>, seconds: Option<i64> },
    Servers { user_id: i64 },
    SaveServers { user_id: i64, groups: JsonView },
    UpdateProfile { user_id: i64, profile: JsonView },
    SetContactPreferences { chat_ref: Seq<char>, preferences: JsonView },
    SetGroupProfile { chat_ref: Seq<char>, profile: JsonView },
    DeleteChat { chat_ref: Seq<char>, suffix: Seq<char> },
    CreateInvitation { user_id: i64 },
    Connect { user_id: i64, link: Seq<char> },
    Send { command: Seq<char> },
}

impl DeepView for CoreCall {
    type V = CallView;

    open spec fn deep_view(&self) -> CallView {
        match self {
            CoreCall::ActiveUser => CallView::ActiveUser,
            CoreCall::Start => CallView::Start,
            CoreCall::Profile => CallView::Profile,
            CoreCall::Users => CallView::Users,
            CoreCall::ActivateUser { user_id } => CallView::ActivateUser { user_id: *user_id },
            CoreCall::CreateUser { display_name } => CallView::CreateUser { display_name: display_name@ },
            CoreCall::DeleteUser { user_id } => CallView::DeleteUser { user_id: *user_id },
            CoreCall::LoadChat { chat_ref, count } => CallView::LoadChat { chat_ref: chat_ref.0@, count: *count },
            CoreCall::ReadChat { chat_ref } => CallView::ReadChat { chat_ref: chat_ref.0@ },
            CoreCall::Chats { user_id } => CallView::Chats { user_id: *user_id },
            CoreCall::SendReaction { chat_ref, item_id, emoji } => CallView::SendReaction {
                chat_ref: chat_ref.0@,
                item_id: *item_id,
                emoji: emoji@,
            },
            CoreCall::ReceiveFile { file_id, path } => CallView::ReceiveFile { file_id: *file_id, path: path@ },
            CoreCall::CancelFile { file_id } => CallView::CancelFile { file_id: *file_id },
            CoreCall::GlobalTtl { user_id } => CallView::GlobalTtl { user_id: *user_id },
            CoreCall::SetGlobalTtl { user_id, seconds } => CallView::SetGlobalTtl {
                user_id: *user_id,
                seconds: *seconds,
            },
            CoreCall::SetChatTtl { user_id, chat_ref, seconds } => CallView::SetChatTtl {
                user_id: *user_id,
                chat_ref: chat_ref.0@,
                seconds: *seconds,
            },
            CoreCall::Servers { user_id } => CallView::Servers { user_id: *user_id },
            CoreCall::SaveServers { user_id, groups } => CallView::SaveServers {
                user_id: *user_id,
                groups: groups.deep_view(),
            },
            CoreCall::UpdateProfile { user_id, profile } => CallView::UpdateProfile {
                user_id: *user_id,
                profile: profile.deep_view(),
            },
            CoreCall::SetContactPreferences { chat_ref, preferences } => CallView::SetContactPreferences {
                chat_ref: chat_ref.0@,
                preferences: preferences.deep_view(),
            },
            CoreCall::SetGroupProfile { chat_ref, profile } => CallView::SetGroupProfile {
                chat_ref: chat_ref.0@,
                profile: profile.deep_view(),
            },
            CoreCall::DeleteChat { chat_ref, suffix } => CallView::DeleteChat {
                chat_ref: chat_ref.0@,
                suffix: suffix@,
            },
            CoreCall::CreateInvitation { user_id } => CallView::CreateInvitation { user_id: *user_id },
            CoreCall::Connect { user_id, link } => CallView::Connect { user_id: *user_id, link: link@ },
            CoreCall::Send { command } => CallView::Send { command: command@ },
        }
    }
}

/// The command line of a call.
pub open spec fn call_text(call: CallView) -> Seq<char> {
    match call {
        CallView::ActiveUser => "/u"@,
        CallView::Start => "/_start"@,
        CallView::Profile => "/profile"@,
        CallView::Users => "/users"@,
        CallView::ActivateUser { user_id } => "/_user "@ + decimal(user_id as int),
        CallView::CreateUser { .. } => "/_create user"@,
        CallView::DeleteUser { user_id } => "/_delete user "@ + decimal(user_id as int)
            + " del_smp=on"@,
        CallView::LoadChat { chat_ref, count } => "/_get chat "@ + chat_ref + " count="@
            + decimal(count as int),
        CallView::ReadChat { chat_ref } => "/_read chat "@ + chat_ref,
        CallView::Chats { user_id } => "/_get chats "@ + decimal(user_id as int) + " pcc=on"@,
        CallView::SendReaction { chat_ref, item_id, .. } => "/_reaction "@ + chat_ref + " "@
            + decimal(item_id as int) + " on"@,
        CallView::ReceiveFile { file_id, path } => "/freceive "@ + decimal(file_id as int)
            + " approved_relays=on "@ + path,
        CallView::CancelFile { file_id } => "/fcancel "@ + decimal(file_id as int),
        CallView::GlobalTtl { user_id } => "/_ttl "@ + decimal(user_id as int),
        CallView::SetGlobalTtl { user_id, seconds } => "/_ttl "@ + decimal(user_id as int) + " "@
            + decimal(seconds as int),
        CallView::SetChatTtl { user_id, chat_ref, seconds } => "/_ttl "@ + decimal(user_id as int)
            + " "@ + chat_ref + " "@ + match seconds {
            Some(s) => decimal(s as int),
            None => "default"@,
        },
        CallView::Servers { user_id } => "/_servers "@ + decimal(user_id as int),
        CallView::SaveServers { user_id, .. } => "/_servers "@ + decimal(user_id as int),
        CallView::UpdateProfile { user_id, .. } => "/_profile "@ + decimal(user_id as int),
        CallView::SetContactPreferences { chat_ref, .. } => "/_set prefs "@ + chat_ref,
        CallView::SetGroupProfile { chat_ref, .. } => "/_group_profile "@ + chat_ref,
        CallView::DeleteChat { chat_ref, suffix } => "/_delete "@ + chat_ref + " "@ + suffix,
        CallView::CreateInvitation { user_id } => "/_connect "@ + decimal(user_id as int)
            + " incognito=off"@,
        CallView::Connect { user_id, link } => "/_connect "@ + decimal(user_id as int)
            + " incognito=off "@ + link,
        CallView::Send { command } => command,
    }
}

/// The document that a new profile is created from.
pub open spec fn new_user_payload(display_name: Seq<char>) -> JsonView {
    JsonView::Object(
        seq![
            (
                "profile"@,
                JsonView::Object(
                    seq![
                        ("displayName"@, JsonView::Str(display_name)),
                        ("fullName"@, JsonView::Str(Seq::empty())),
                    ],
                ),
            ),
            ("pastTimestamp"@, JsonView::Bool(false)),
        ],
    )
}

/// The document that names the emoji of a reaction.
pub open spec fn reaction_payload(emoji: Seq<char>) -> JsonView {
    JsonView::Object(seq![("type"@, JsonView::Str("emoji"@)), ("emoji"@, JsonView::Str(emoji))])
}

/// The JSON document that follows the command line of a call, if any.
pub open spec fn call_argument(call: CallView) -> Option<JsonView> {
    match call {
        CallView::CreateUser { display_name } => Some(new_user_payload(display_name)),
        CallView::SendReaction { emoji, .. } => Some(reaction_payload(emoji)),
        CallView::SaveServers { groups, .. } => Some(groups),
        CallView::UpdateProfile { profile, .. } => Some(profile),
        CallView::SetContactPreferences { preferences, .. } => Some(preferences),
        CallView::SetGroupProfile { profile, .. } => Some(profile),
        _ => None,
    }
}

pub(crate) fn text2(a: &str, b: &str) -> (r: String)
    ensures
        r@ == a@ + b@,
{
    join(a, b)
}

pub(crate) fn text3(a: &str, b: &str, c: &str) -> (r: String)
    ensures
        r@ == a@ + b@ + c@,
{
    let pieces = [a, b, c];
    let r = join_all(&pieces);
    proof {
        reveal_with_fuel(concat_all, 4);
        assert(pieces@.map_values(|p: &str| p@) =~= seq![a@, b@, c@]);
    }
    r
}

pub(crate) fn text4(a: &str, b: &str, c: &str, d: &str) -> (r: String)
    ensures
        r@ == a@ + b@ + c@ + d@,
{
    let pieces = [a, b, c, d];
    let r = join_all(&pieces);
    proof {
        reveal_with_fuel(concat_all, 5);
        assert(pieces@.map_values(|p: &str| p@) =~= seq![a@, b@, c@, d@]);
    }
    r
}

pub(crate) fn text6(a: &str, b: &str, c: &str, d: &str, e: &str, f: &str) -> (r: String)
    ensures
        r@ == a@ + b@ + c@ + d@ + e@ + f@,
{
    let pieces = [a, b, c, d, e, f];
    let r = join_all(&pieces);
    proof {
        reveal_with_fuel(concat_all, 7);
        assert(pieces@.map_values(|p: &str| p@) =~= seq![a@, b@, c@, d@, e@, f@]);
    }
    r
}

fn str_json(s: &str) -> (r: Json)
    ensures
        r.deep_view() == JsonView::Str(s@),
{
    Json::Str(s.to_owned())
}

fn object2(k1: &str, v1: Json, k2: &str, v2: Json) -> (r: Json)
    ensures
        r.deep_view() == JsonView::Object(seq![(k1@, v1.deep_view()), (k2@, v2.deep_view())]),
{
    let ghost a = v1.deep_view();
    let ghost b = v2.deep_view();
    let r = Json::Object(vec![(k1.to_owned(), v1), (k2.to_owned(), v2)]);
    proof {
        crate::json::lemma_object_members(r);
    }
    assert(r.deep_view()->Object_0 =~= seq![(k1@, a), (k2@, b)]);
    r
}

/// The request that carries out a call.
pub fn request(call: CoreCall) -> (r: CoreRequest)
    ensures
        r.command@ == call_text(call.deep_view()),
        match (r.argument, call_argument(call.deep_view())) {
            (Some(a), Some(b)) => a.deep_view() == b,
            (None, None) => true,
            _ => false,
        },
{
    proof {
        reveal_strlit("");
        assert(""@ =~= Seq::<char>::empty());
    }
    match call {
        CoreCall::ActiveUser => CoreRequest { command: "/u".to_owned(), argument: None },
        CoreCall::Start => CoreRequest { command: "/_start".to_owned(), argument: None },
        CoreCall::Profile => CoreRequest { command: "/profile".to_owned(), argument: None },
        CoreCall::Users => CoreRequest { command: "/users".to_owned(), argument: None },
        CoreCall::ActivateUser { user_id } => {
            let id = decimal_text(user_id);
            CoreRequest { command: text2("/_user ", id.as_str()), argument: None }
        },
        CoreCall::CreateUser { display_name } => {
            let profile = object2("displayName", str_json(display_name.as_str()), "fullName", str_json(""));
            let payload = object2("profile", profile, "pastTimestamp", Json::Bool(false));
            assert(payload.deep_view() == new_user_payload(display_name@));
            CoreRequest { command: "/_create user".to_owned(), argument: Some(payload) }
        },
        CoreCall::DeleteUser { user_id } => {
            let id = decimal_text(user_id);
            CoreRequest { command: text3("/_delete user ", id.as_str(), " del_smp=on"), argument: None }
        },
        CoreCall::LoadChat { chat_ref, count } => {
            let n = decimal_text(count as i64);
            CoreRequest {
                command: text4("/_get chat ", chat_ref.0.as_str(), " count=", n.as_str()),
                argument: None,
            }
        },
        CoreCall::ReadChat { chat_ref } => CoreRequest {
            command: text2("/_read chat ", chat_ref.0.as_str()),
            argument: None,
        },
        CoreCall::Chats { user_id } => {
            let id = decimal_text(user_id);
            CoreRequest { command: text3("/_get chats ", id.as_str(), " pcc=on"), argument: None }
        },
        CoreCall::SendReaction { chat_ref, item_id, emoji } => {
            let id = decimal_text(item_id);
            let payload = object2("type", str_json("emoji"), "emoji", str_json(emoji.as_str()));
            assert(payload.deep_view() == reaction_payload(emoji@));
            CoreRequest {
                command: text6("/_reaction ", chat_ref.0.as_str(), " ", id.as_str(), " on", ""),
                argument: Some(payload),
            }
        },
        CoreCall::ReceiveFile { file_id, path } => {
            let id = decimal_text(file_id);
            CoreRequest {
                command: text4("/freceive ", id.as_str(), " approved_relays=on ", path.as_str()),
                argument: None,
            }
        },
        CoreCall::CancelFile { file_id } => {
            let id = decimal_text(file_id);
            CoreRequest { command: text2("/fcancel ", id.as_str()), argument: None }
        },
        CoreCall::GlobalTtl { user_id } => {
            let id = decimal_text(user_id);
            CoreRequest { command: text2("/_ttl ", id.as_str()), argument: None }
        },
        CoreCall::SetGlobalTtl { user_id, seconds } => {
            let id = decimal_text(user_id);
            let s = decimal_text(seconds);
            CoreRequest { command: text4("/_ttl ", id.as_str(), " ", s.as_str()), argument: None }
        },
        CoreCall::SetChatTtl { user_id, chat_ref, seconds } => {
            let id = decimal_text(user_id);
            let ttl = match seconds {
                Some(s) => decimal_text(s),
                None => "default".to_owned(),
            };
            CoreRequest {
                command: text6("/_ttl ", id.as_str(), " ", chat_ref.0.as_str(), " ", ttl.as_str()),
                argument: None,
            }
        },
        CoreCall::Servers { user_id } => {
            let id = decimal_text(user_id);
            CoreRequest { command: text2("/_servers ", id.as_str()), argument: None }
        },
        CoreCall::SaveServers { user_id, groups } => {
            let id = decimal_text(user_id);
            CoreRequest { command: text2("/_servers ", id.as_str()), argument: Some(groups) }
        },
        CoreCall::UpdateProfile { user_id, profile } => {
            let id = decimal_text(user_id);
            CoreRequest { command: text2("/_profile ", id.as_str()), argument: Some(profile) }
        },
        CoreCall::SetContactPreferences { chat_ref, preferences } => CoreRequest {
            command: text2("/_set prefs ", chat_ref.0.as_str()),
            argument: Some(preferences),
        },
        CoreCall::SetGroupProfile { chat_ref, profile } => CoreRequest {
            command: text2("/_group_profile ", chat_ref.0.as_str()),
            argument: Some(profile),
        },
        CoreCall::DeleteChat { chat_ref, suffix } => CoreRequest {
            command: text4("/_delete ", chat_ref.0.as_str(), " ", suffix.as_str()),
            argument: None,
        },
        CoreCall::CreateInvitation { user_id } => {
            let id = decimal_text(user_id);
            CoreRequest { command: text3("/_connect ", id.as_str(), " incognito=off"), argument: None }
        },
        CoreCall::Connect { user_id, link } => {
            let id = decimal_text(user_id);
            CoreRequest {
                command: text4("/_connect ", id.as_str(), " incognito=off ", link.as_str()),
                argument: None,
            }
        },
        CoreCall::Send { command } => CoreRequest { command, argument: None },
    }
}

/// The line sent to the core: the command, then one space and the text of the document
/// when there is one.
pub open spec fn line_of(command: Seq<char>, argument: Option<JsonView>) -> Seq<char> {
    match argument {
        Some(doc) => command + " "@ + json_text(doc),
        None => command,
    }
}

/// The line that carries out `request`.
pub fn request_line(request: &CoreRequest) -> (r: String)
    ensures
        r@ == line_of(request.command@, request.argument.deep_view()),
{
    match &request.argument {
        Some(doc) => {
            let written = write_json(doc);
            proof {
                reveal_strlit(" ");
            }
            text3(request.command.as_str(), " ", written.as_str())
        },
        None => request.command.clone(),
    }
}

/// The line that carries out `call`.
pub fn call_line(call: CoreCall) -> (r: String)
    ensures
        r@ == line_of(call_text(call.deep_view()), call_argument(call.deep_view())),
{
    let ghost c = call.deep_view();
    let req = request(call);
    assert(req.argument.deep_view() == call_argument(c));
    request_line(&req)
}

} // verus!
