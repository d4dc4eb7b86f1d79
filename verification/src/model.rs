use vstd::prelude::*;

use crate::json::{
    array_of, bool_of, field, get_key, i64_of, int_of, items_of, member, ref_view, str_of, text_eq,
    text_is, text_of, u64_of, unwrap_bool_or, unwrap_text_or, flag_of, count_of, Json, JsonView,
};
use crate::seqs::{gather, keep_some, lemma_gather_error_stays, lemma_gather_step, lemma_keep_some_step};
use crate::text::{contains_text, decimal, decimal_text, join, join_all, lowered};

verus! {

/// A SimpleX user profile.
#[derive(Clone, Debug, PartialEq, Eq)]
pub struct User {
    pub id: i64,
    pub display_name: String,
    pub notifications: bool,
    pub active: bool,
}

pub type Profile = User;

pub struct UserView {
    pub id: i64,
    pub display_name: Seq<char>,
    pub notifications: bool,
    pub active: bool,
}

impl DeepView for User {
    type V = UserView;

    open spec fn deep_view(&self) -> UserView {
        UserView {
            id: self.id,
            display_name: self.display_name@,
            notifications: self.notifications,
            active: self.active,
        }
    }
}

/// The kind of relay a server entry configures.
#[derive(Clone, Copy, Debug, PartialEq, Eq, Structural)]
pub enum ServerProtocol {
    Smp,
    Xftp,
}

impl ServerProtocol {
    pub open spec fn label_text(self) -> Seq<char> {
        match self {
            ServerProtocol::Smp => "SMP"@,
            ServerProtocol::Xftp => "XFTP"@,
        }
    }

    pub open spec fn key_text(self) -> Seq<char> {
        match self {
            ServerProtocol::Smp => "smpServers"@,
            ServerProtocol::Xftp => "xftpServers"@,
        }
    }

    /// The name shown for the protocol.
    pub fn label(self) -> (r: &'static str)
        ensures
            r@ == self.label_text(),
    {
        match self {
            ServerProtocol::Smp => "SMP",
            ServerProtocol::Xftp => "XFTP",
        }
    }

    /// The key under which a server group lists servers of this protocol.
    pub fn json_key(self) -> (r: &'static str)
        ensures
            r@ == self.key_text(),
    {
        match self {
            ServerProtocol::Smp => "smpServers",
            ServerProtocol::Xftp => "xftpServers",
        }
    }
}

/// One configured relay server.
#[derive(Clone, Debug, PartialEq, Eq)]
pub struct ServerEntry {
    pub protocol: ServerProtocol,
    pub address: String,
    pub enabled: bool,
    pub preset: bool,
}

pub struct ServerEntryView {
    pub protocol: ServerProtocol,
    pub address: Seq<char>,
    pub enabled: bool,
    pub preset: bool,
}

impl DeepView for ServerEntry {
    type V = ServerEntryView;

    open spec fn deep_view(&self) -> ServerEntryView {
        ServerEntryView {
            protocol: self.protocol,
            address: self.address@,
            enabled: self.enabled,
            preset: self.preset,
        }
    }
}

/// The reference by which the core names a conversation, such as `@9` or `#3`.
#[derive(Clone, Debug, PartialEq, Eq, Hash)]
pub struct ChatRef(pub String);

impl DeepView for ChatRef {
    type V = Seq<char>;

    open spec fn deep_view(&self) -> Seq<char> {
        self.0@
    }
}

/// One line of the chat list.
#[derive(Clone, Debug, PartialEq, Eq)]
pub struct ChatSummary {
    pub chat_ref: ChatRef,
    pub display_name: String,
    pub unread_count: u64,
}

pub struct ChatSummaryView {
    pub chat_ref: Seq<char>,
    pub display_name: Seq<char>,
    pub unread_count: u64,
}

impl DeepView for ChatSummary {
    type V = ChatSummaryView;

    open spec fn deep_view(&self) -> ChatSummaryView {
        ChatSummaryView {
            chat_ref: self.chat_ref.0@,
            display_name: self.display_name@,
            unread_count: self.unread_count,
        }
    }
}

/// The kind of file a message carries.
#[derive(Clone, Copy, Debug, PartialEq, Eq, Structural)]
pub enum AttachmentKind {
    File,
    Audio,
    Image,
    Video,
}

/// A file attached to a message.
#[derive(Clone, Debug, PartialEq, Eq)]
pub struct Attachment {
    pub id: i64,
    pub name: String,
    pub size: i64,
    pub kind: AttachmentKind,
    pub status: String,
    pub progress: Option<u8>,
    pub path: Option<String>,
}

pub struct AttachmentView {
    pub id: i64,
    pub name: Seq<char>,
    pub size: i64,
    pub kind: AttachmentKind,
    pub status: Seq<char>,
    pub progress: Option<u8>,
    pub path: Option<Seq<char>>,
}

pub open spec fn opt_text_view(s: Option<String>) -> Option<Seq<char>> {
    match s {
        Some(s) => Some(s@),
        None => None,
    }
}

impl DeepView for Attachment {
    type V = AttachmentView;

    open spec fn deep_view(&self) -> AttachmentView {
        AttachmentView {
            id: self.id,
            name: self.name@,
            size: self.size,
            kind: self.kind,
            status: self.status@,
            progress: self.progress,
            path: opt_text_view(self.path),
        }
    }
}

/// How many users reacted to a message with one emoji.
#[derive(Clone, Debug, PartialEq, Eq)]
pub struct MessageReaction {
    pub emoji: String,
    pub count: u64,
    pub user_reacted: bool,
}

pub struct ReactionView {
    pub emoji: Seq<char>,
    pub count: u64,
    pub user_reacted: bool,
}

impl DeepView for MessageReaction {
    type V = ReactionView;

    open spec fn deep_view(&self) -> ReactionView {
        ReactionView { emoji: self.emoji@, count: self.count, user_reacted: self.user_reacted }
    }
}

/// A chat message.
#[derive(Clone, Debug, PartialEq, Eq)]
pub struct Message {
    pub id: i64,
    pub text: String,
    pub timestamp: String,
    pub outgoing: bool,
    pub reactions: Vec<MessageReaction>,
    pub attachment: Option<Attachment>,
}

pub struct MessageView {
    pub id: i64,
    pub text: Seq<char>,
    pub timestamp: Seq<char>,
    pub outgoing: bool,
    pub reactions: Seq<ReactionView>,
    pub attachment: Option<AttachmentView>,
}

impl DeepView for Message {
    type V = MessageView;

    open spec fn deep_view(&self) -> MessageView {
        MessageView {
            id: self.id,
            text: self.text@,
            timestamp: self.timestamp@,
            outgoing: self.outgoing,
            reactions: self.reactions.deep_view(),
            attachment: self.attachment.deep_view(),
        }
    }
}

/// The chat features of a profile or a conversation.
#[derive(Clone, Copy, Debug, PartialEq, Eq, Structural)]
pub struct ChatFeatures {
    pub disappearing_messages: bool,
    pub full_deletion: bool,
    pub reactions: bool,
    pub voice_messages: bool,
    pub files_and_media: bool,
}

impl DeepView for ChatFeatures {
    type V = ChatFeatures;

    open spec fn deep_view(&self) -> ChatFeatures {
        *self
    }
}

impl DeepView for ChatDeletionSettings {
    type V = ChatDeletionSettings;

    open spec fn deep_view(&self) -> ChatDeletionSettings {
        *self
    }
}

impl DeepView for ServerProtocol {
    type V = ServerProtocol;

    open spec fn deep_view(&self) -> ServerProtocol {
        *self
    }
}

impl Default for ChatFeatures {
    fn default() -> (r: ChatFeatures)
        ensures
            r == (ChatFeatures {
                disappearing_messages: false,
                full_deletion: false,
                reactions: false,
                voice_messages: false,
                files_and_media: false,
            }),
    {
        ChatFeatures {
            disappearing_messages: false,
            full_deletion: false,
            reactions: false,
            voice_messages: false,
            files_and_media: false,
        }
    }
}

/// How long messages of one conversation are kept: locally, and for both sides.
#[derive(Clone, Copy, Debug, PartialEq, Eq, Structural)]
pub struct ChatDeletionSettings {
    pub local_ttl: Option<i64>,
    pub disappearing_ttl: Option<i64>,
}

impl Default for ChatDeletionSettings {
    fn default() -> (r: ChatDeletionSettings)
        ensures
            r == (ChatDeletionSettings { local_ttl: None, disappearing_ttl: None }),
    {
        ChatDeletionSettings { local_ttl: None, disappearing_ttl: None }
    }
}

/// What the SimpleX worker reports to the interface.
#[derive(Clone, Debug)]
pub enum SimplexEvent {
    Ready { user: User, chats: Vec<ChatSummary> },
    ProfilesLoaded(Vec<Profile>),
    ProfileActivated { user: User, chats: Vec<ChatSummary> },
    ProfileCreated { user: User, profiles: Vec<Profile>, chats: Vec<ChatSummary> },
    ProfileDeleted { profiles: Vec<Profile>, active_user: Option<User>, chats: Vec<ChatSummary> },
    ProfileDeleteFailed(String),
    SettingChanged(String),
    AutoDeleteLoaded(i64),
    AutoDeleteChanged(i64),
    AutoDeleteFailed(String),
    ChatDeletionLoaded { chat_ref: ChatRef, settings: ChatDeletionSettings },
    ChatDeletionChanged { chat_ref: ChatRef, settings: ChatDeletionSettings },
    ChatDeletionFailed(String),
    ConversationFeaturesLoaded { chat_ref: ChatRef, features: ChatFeatures },
    ConversationFeaturesChanged { chat_ref: ChatRef, features: ChatFeatures },
    ConversationFeaturesFailed(String),
    ChatDeleted { chat_ref: ChatRef, chats: Vec<ChatSummary> },
    ChatDeleteFailed(String),
    FileDownloadStarted { file_id: i64, path: String },
    FileDownloadFailed { file_id: i64, error: String },
    FileDownloadCancelled { file_id: i64 },
    FileUpdated { chat_ref: ChatRef, message: Message },
    ServersLoaded(Vec<ServerEntry>),
    ServersUpdateFailed(String),
    ChatFeaturesLoaded(ChatFeatures),
    InvitationCreated(String),
    InvitationFailed(String),
    ConnectionStarted,
    ConnectionFailed(String),
    ChatLoaded { chat_ref: ChatRef, messages: Vec<Message> },
    ChatMarkedRead(ChatRef),
    ContactConnected { chats: Vec<ChatSummary>, chat_ref: ChatRef },
    MessageReceived { chat_ref: ChatRef, message: Message },
    ChatLoadFailed { chat_ref: ChatRef, error: String },
    MessageSent { chat_ref: ChatRef, text: String },
    MessageSendFailed { chat_ref: ChatRef, error: String },
    ReactionChanged {
        chat_ref: ChatRef,
        item_id: i64,
        emoji: String,
        added: bool,
        user_reacted: bool,
    },
    NoActiveUser,
    Failed(String),
}

/// An event, with its texts and values taken by their views.
pub enum EventView {
    Ready { user: UserView, chats: Seq<ChatSummaryView> },
    ProfilesLoaded(Seq<UserView>),
    ProfileActivated { user: UserView, chats: Seq<ChatSummaryView> },
    ProfileCreated { user: UserView, profiles: Seq<UserView>, chats: Seq<ChatSummaryView> },
    ProfileDeleted { profiles: Seq<UserView>, active_user: Option<UserView>, chats: Seq<ChatSummaryView> },
    ProfileDeleteFailed(Seq<char>),
    SettingChanged(Seq<char>),
    AutoDeleteLoaded(i64),
    AutoDeleteChanged(i64),
    AutoDeleteFailed(Seq<char>),
    ChatDeletionLoaded { chat_ref: Seq<char>, settings: ChatDeletionSettings },
    ChatDeletionChanged { chat_ref: Seq<char>, settings: ChatDeletionSettings },
    ChatDeletionFailed(Seq<char>),
    ConversationFeaturesLoaded { chat_ref: Seq<char>, features: ChatFeatures },
    ConversationFeaturesChanged { chat_ref: Seq<char>, features: ChatFeatures },
    ConversationFeaturesFailed(Seq<char>),
    ChatDeleted { chat_ref: Seq<char>, chats: Seq<ChatSummaryView> },
    ChatDeleteFailed(Seq<char>),
    FileDownloadStarted { file_id: i64, path: Seq<char> },
    FileDownloadFailed { file_id: i64, error: Seq<char> },
    FileDownloadCancelled { file_id: i64 },
    FileUpdated { chat_ref: Seq<char>, message: MessageView },
    ServersLoaded(Seq<ServerEntryView>),
    ServersUpdateFailed(Seq<char>),
    ChatFeaturesLoaded(ChatFeatures),
    InvitationCreated(Seq<char>),
    InvitationFailed(Seq<char>),
    ConnectionStarted,
    ConnectionFailed(Seq<char>),
    ChatLoaded { chat_ref: Seq<char>, messages: Seq<MessageView> },
    ChatMarkedRead(Seq<char>),
    ContactConnected { chats: Seq<ChatSummaryView>, chat_ref: Seq<char> },
    MessageReceived { chat_ref: Seq<char>, message: MessageView },
    ChatLoadFailed { chat_ref: Seq<char>, error: Seq<char> },
    MessageSent { chat_ref: Seq<char>, text: Seq<char> },
    MessageSendFailed { chat_ref: Seq<char>, error: Seq<char> },
    ReactionChanged { chat_ref: Seq<char>, item_id: i64, emoji: Seq<char>, added: bool, user_reacted: bool },
    NoActiveUser,
    Failed(Seq<char>),
}

impl DeepView for SimplexEvent {
    type V = EventView;

    open spec fn deep_view(&self) -> EventView {
        match self {
            SimplexEvent::Ready { user, chats } => EventView::Ready {
                user: user.deep_view(),
                chats: chats.deep_view(),
            },
            SimplexEvent::ProfilesLoaded(ps) => EventView::ProfilesLoaded(ps.deep_view()),
            SimplexEvent::ProfileActivated { user, chats } => EventView::ProfileActivated {
                user: user.deep_view(),
                chats: chats.deep_view(),
            },
            SimplexEvent::ProfileCreated { user, profiles, chats } => EventView::ProfileCreated {
                user: user.deep_view(),
                profiles: profiles.deep_view(),
                chats: chats.deep_view(),
            },
            SimplexEvent::ProfileDeleted { profiles, active_user, chats } => EventView::ProfileDeleted {
                profiles: profiles.deep_view(),
                active_user: active_user.deep_view(),
                chats: chats.deep_view(),
            },
            SimplexEvent::ProfileDeleteFailed(e) => EventView::ProfileDeleteFailed(e@),
            SimplexEvent::SettingChanged(t) => EventView::SettingChanged(t@),
            SimplexEvent::AutoDeleteLoaded(s) => EventView::AutoDeleteLoaded(*s),
            SimplexEvent::AutoDeleteChanged(s) => EventView::AutoDeleteChanged(*s),
            SimplexEvent::AutoDeleteFailed(e) => EventView::AutoDeleteFailed(e@),
            SimplexEvent::ChatDeletionLoaded { chat_ref, settings } => EventView::ChatDeletionLoaded {
                chat_ref: chat_ref.0@,
                settings: *settings,
            },
            SimplexEvent::ChatDeletionChanged { chat_ref, settings } => EventView::ChatDeletionChanged {
                chat_ref: chat_ref.0@,
                settings: *settings,
            },
            SimplexEvent::ChatDeletionFailed(e) => EventView::ChatDeletionFailed(e@),
            SimplexEvent::ConversationFeaturesLoaded { chat_ref, features } => EventView::ConversationFeaturesLoaded {
                chat_ref: chat_ref.0@,
                features: *features,
            },
            SimplexEvent::ConversationFeaturesChanged { chat_ref, features } => EventView::ConversationFeaturesChanged {
                chat_ref: chat_ref.0@,
                features: *features,
            },
            SimplexEvent::ConversationFeaturesFailed(e) => EventView::ConversationFeaturesFailed(e@),
            SimplexEvent::ChatDeleted { chat_ref, chats } => EventView::ChatDeleted {
                chat_ref: chat_ref.0@,
                chats: chats.deep_view(),
            },
            SimplexEvent::ChatDeleteFailed(e) => EventView::ChatDeleteFailed(e@),
            SimplexEvent::FileDownloadStarted { file_id, path } => EventView::FileDownloadStarted {
                file_id: *file_id,
                path: path@,
            },
            SimplexEvent::FileDownloadFailed { file_id, error } => EventView::FileDownloadFailed {
                file_id: *file_id,
                error: error@,
            },
            SimplexEvent::FileDownloadCancelled { file_id } => EventView::FileDownloadCancelled { file_id: *file_id },
            SimplexEvent::FileUpdated { chat_ref, message } => EventView::FileUpdated {
                chat_ref: chat_ref.0@,
                message: message.deep_view(),
            },
            SimplexEvent::ServersLoaded(s) => EventView::ServersLoaded(s.deep_view()),
            SimplexEvent::ServersUpdateFailed(e) => EventView::ServersUpdateFailed(e@),
            SimplexEvent::ChatFeaturesLoaded(f) => EventView::ChatFeaturesLoaded(*f),
            SimplexEvent::InvitationCreated(l) => EventView::InvitationCreated(l@),
            SimplexEvent::InvitationFailed(e) => EventView::InvitationFailed(e@),
            SimplexEvent::ConnectionStarted => EventView::ConnectionStarted,
            SimplexEvent::ConnectionFailed(e) => EventView::ConnectionFailed(e@),
            SimplexEvent::ChatLoaded { chat_ref, messages } => EventView::ChatLoaded {
                chat_ref: chat_ref.0@,
                messages: messages.deep_view(),
            },
            SimplexEvent::ChatMarkedRead(r) => EventView::ChatMarkedRead(r.0@),
            SimplexEvent::ContactConnected { chats, chat_ref } => EventView::ContactConnected {
                chats: chats.deep_view(),
                chat_ref: chat_ref.0@,
            },
            SimplexEvent::MessageReceived { chat_ref, message } => EventView::MessageReceived {
                chat_ref: chat_ref.0@,
                message: message.deep_view(),
            },
            SimplexEvent::ChatLoadFailed { chat_ref, error } => EventView::ChatLoadFailed {
                chat_ref: chat_ref.0@,
                error: error@,
            },
            SimplexEvent::MessageSent { chat_ref, text } => EventView::MessageSent {
                chat_ref: chat_ref.0@,
                text: text@,
            },
            SimplexEvent::MessageSendFailed { chat_ref, error } => EventView::MessageSendFailed {
                chat_ref: chat_ref.0@,
                error: error@,
            },
            SimplexEvent::ReactionChanged { chat_ref, item_id, emoji, added, user_reacted } => EventView::ReactionChanged {
                chat_ref: chat_ref.0@,
                item_id: *item_id,
                emoji: emoji@,
                added: *added,
                user_reacted: *user_reacted,
            },
            SimplexEvent::NoActiveUser => EventView::NoActiveUser,
            SimplexEvent::Failed(e) => EventView::Failed(e@),
        }
    }
}

/// The view of a `Result` whose error is a text.
pub open spec fn result_view<T: DeepView>(r: Result<T, String>) -> Result<T::V, Seq<char>> {
    match r {
        Ok(t) => Ok(t.deep_view()),
        Err(e) => Err(e@),
    }
}

/// `v` as an owned text, or `default` when there is none.
pub fn text_or(v: Option<&String>, default: &str) -> (r: String)
    ensures
        r@ == (match v {
            Some(s) => s@,
            None => default@,
        }),
{
    match v {
        Some(s) => s.clone(),
        None => default.to_owned(),
    }
}

// ---------------------------------------------------------------------------------------
// Reading the core's replies
// ---------------------------------------------------------------------------------------

/// The first of the three places where a reply names what it is.
pub open spec fn reply_kind(v: JsonView) -> Option<JsonView> {
    let a = field(field(get_key(v, "error"@), "errorType"@), "type"@);
    let b = field(get_key(v, "error"@), "type"@);
    let c = field(get_key(v, "result"@), "type"@);
    if a is Some {
        a
    } else if b is Some {
        b
    } else {
        c
    }
}

/// The message for a reply that is not the one a request expects.
pub open spec fn response_error_text(v: JsonView, expected: Seq<char>) -> Seq<char> {
    "expected "@ + expected + ", received "@ + unwrap_text_or(
        str_of(reply_kind(v)),
        "unknown response"@,
    )
}

pub fn response_error(value: &Json, expected: &str) -> (r: String)
    ensures
        r@ == response_error_text(value.deep_view(), expected@),
{
    let a = member(member(value.get("error"), "errorType"), "type");
    let found = if a.is_some() {
        a
    } else {
        let b = member(value.get("error"), "type");
        if b.is_some() {
            b
        } else {
            member(value.get("result"), "type")
        }
    };
    let detail = text_or(text_of(found), "unknown response");
    let pieces = ["expected ", expected, ", received ", detail.as_str()];
    let r = join_all(&pieces);
    proof {
        reveal_with_fuel(crate::text::concat_all, 5);
        assert(pieces@.map_values(|p: &str| p@) =~= seq![
            "expected "@,
            expected@,
            ", received "@,
            detail@,
        ]);
    }
    r
}

/// The text of the `type` member of the `result` of a reply.
pub open spec fn result_type(v: JsonView) -> Option<Seq<char>> {
    str_of(field(get_key(v, "result"@), "type"@))
}

/// Prefix, containing object and id key of the supported conversation types.
pub open spec fn chat_kind(kind: Option<Seq<char>>) -> Option<(Seq<char>, Seq<char>, Seq<char>)> {
    if kind == Some("direct"@) {
        Some(("@"@, "contact"@, "contactId"@))
    } else if kind == Some("group"@) {
        Some(("#"@, "groupInfo"@, "groupId"@))
    } else if kind == Some("local"@) {
        Some(("*"@, "noteFolder"@, "noteFolderId"@))
    } else if kind == Some("contactRequest"@) {
        Some(("<@"@, "contactRequest"@, "contactRequestId"@))
    } else if kind == Some("contactConnection"@) {
        Some((":"@, "contactConnection"@, "pccConnId"@))
    } else {
        None
    }
}

/// The reference of the conversation that `info` describes.
pub open spec fn chat_ref_of(info: JsonView) -> Result<Seq<char>, Seq<char>> {
    match chat_kind(str_of(get_key(info, "type"@))) {
        None => Err("unsupported chat type"@),
        Some((prefix, object, id_key)) => match i64_of(field(get_key(info, object), id_key)) {
            None => Err("chatInfo has no numeric "@ + id_key),
            Some(id) => Ok(prefix + decimal(id as int)),
        },
    }
}

pub fn chat_ref(info: &Json) -> (r: Result<ChatRef, String>)
    ensures
        result_view(r) == chat_ref_of(info.deep_view()),
{
    let kind = text_of(info.get("type"));
    let (prefix, object, id_key): (&str, &str, &str) = if text_is(kind, "direct") {
        ("@", "contact", "contactId")
    } else if text_is(kind, "group") {
        ("#", "groupInfo", "groupId")
    } else if text_is(kind, "local") {
        ("*", "noteFolder", "noteFolderId")
    } else if text_is(kind, "contactRequest") {
        ("<@", "contactRequest", "contactRequestId")
    } else if text_is(kind, "contactConnection") {
        (":", "contactConnection", "pccConnId")
    } else {
        return Err("unsupported chat type".to_owned());
    };
    match int_of(member(info.get(object), id_key)) {
        None => Err(join("chatInfo has no numeric ", id_key)),
        Some(id) => {
            let digits = decimal_text(id);
            Ok(ChatRef(join(prefix, digits.as_str())))
        },
    }
}

/// A user as a profile listing or an active-user reply describes it, once its id is known.
pub open spec fn user_of(user: JsonView, id: i64, active_default: bool) -> UserView {
    UserView {
        id,
        display_name: unwrap_text_or(str_of(get_key(user, "localDisplayName"@)), "SimpleX user"@),
        notifications: unwrap_bool_or(bool_of(get_key(user, "showNtfs"@)), true),
        active: unwrap_bool_or(bool_of(get_key(user, "activeUser"@)), active_default),
    }
}

fn read_user(user: &Json, id: i64, active_default: bool) -> (r: User)
    ensures
        r.deep_view() == user_of(user.deep_view(), id, active_default),
{
    let display_name = text_or(text_of(user.get("localDisplayName")), "SimpleX user");
    let notifications = match flag_of(user.get("showNtfs")) {
        Some(b) => b,
        None => true,
    };
    let active = match flag_of(user.get("activeUser")) {
        Some(b) => b,
        None => active_default,
    };
    User { id, display_name, notifications, active }
}

/// The user of an `activeUser` reply; `None` when the core has no active user.
pub open spec fn active_user_of(v: JsonView) -> Result<Option<UserView>, Seq<char>> {
    if str_of(field(field(get_key(v, "error"@), "errorType"@), "type"@)) == Some("noActiveUser"@) {
        Ok(None)
    } else {
        match get_key(v, "result"@) {
            None => Err(response_error_text(v, "active user"@)),
            Some(result) => if str_of(get_key(result, "type"@)) != Some("activeUser"@) {
                Err(response_error_text(v, "active user"@))
            } else {
                match get_key(result, "user"@) {
                    None => Err("activeUser response has no user"@),
                    Some(user) => match i64_of(get_key(user, "userId"@)) {
                        None => Err("activeUser response has no numeric userId"@),
                        Some(id) => Ok(Some(user_of(user, id, true))),
                    },
                }
            },
        }
    }
}

pub fn active_user(value: &Json) -> (r: Result<Option<User>, String>)
    ensures
        result_view(r) == active_user_of(value.deep_view()),
{
    if text_is(text_of(member(member(value.get("error"), "errorType"), "type")), "noActiveUser") {
        return Ok(None);
    }
    let result = match value.get("result") {
        Some(result) => result,
        None => return Err(response_error(value, "active user")),
    };
    if !text_is(text_of(result.get("type")), "activeUser") {
        return Err(response_error(value, "active user"));
    }
    let user = match result.get("user") {
        Some(user) => user,
        None => return Err("activeUser response has no user".to_owned()),
    };
    let id = match int_of(user.get("userId")) {
        Some(id) => id,
        None => return Err("activeUser response has no numeric userId".to_owned()),
    };
    Ok(Some(read_user(user, id, true)))
}

/// One entry of a `usersList` reply.
pub open spec fn profile_of(info: JsonView) -> Result<UserView, Seq<char>> {
    match get_key(info, "user"@) {
        None => Err("profile has no user"@),
        Some(user) => match i64_of(get_key(user, "userId"@)) {
            None => Err("profile has no numeric userId"@),
            Some(id) => Ok(user_of(user, id, false)),
        },
    }
}

pub open spec fn profile_step(info: JsonView) -> Option<Result<UserView, Seq<char>>> {
    Some(profile_of(info))
}

/// The profiles of a `usersList` reply, in order.
pub open spec fn profiles_of(v: JsonView) -> Result<Seq<UserView>, Seq<char>> {
    match get_key(v, "result"@) {
        None => Err(response_error_text(v, "profiles"@)),
        Some(result) => if str_of(get_key(result, "type"@)) != Some("usersList"@) {
            Err(response_error_text(v, "profiles"@))
        } else {
            match array_of(get_key(result, "users"@)) {
                None => Err("usersList response has no users array"@),
                Some(users) => gather(users, |info: JsonView| profile_step(info)),
            }
        },
    }
}

fn read_profile(info: &Json) -> (r: Result<User, String>)
    ensures
        result_view(r) == profile_of(info.deep_view()),
{
    let user = match info.get("user") {
        Some(user) => user,
        None => return Err("profile has no user".to_owned()),
    };
    let id = match int_of(user.get("userId")) {
        Some(id) => id,
        None => return Err("profile has no numeric userId".to_owned()),
    };
    Ok(read_user(user, id, false))
}

pub fn profiles(value: &Json) -> (r: Result<Vec<Profile>, String>)
    ensures
        result_view(r) == profiles_of(value.deep_view()),
{
    let result = match value.get("result") {
        Some(result) => result,
        None => return Err(response_error(value, "profiles")),
    };
    if !text_is(text_of(result.get("type")), "usersList") {
        return Err(response_error(value, "profiles"));
    }
    let users = match items_of(result.get("users")) {
        Some(users) => users,
        None => return Err("usersList response has no users array".to_owned()),
    };
    let ghost f = |info: JsonView| profile_step(info);
    let ghost all = users.deep_view();
    let mut out: Vec<User> = Vec::new();
    let mut i: usize = 0;
    assert(all.take(0) =~= Seq::<JsonView>::empty());
    assert(out.deep_view() =~= Seq::<UserView>::empty());
    while i < users.len()
        invariant
            i <= users@.len(),
            all == users.deep_view(),
            all.len() == users@.len(),
            f == (|info: JsonView| profile_step(info)),
            profiles_of(value.deep_view()) == gather(all, f),
            gather(all.take(i as int), f) == Ok::<Seq<UserView>, Seq<char>>(out.deep_view()),
        decreases users.len() - i,
    {
        proof {
            lemma_gather_step(all, f, i as int);
        }
        match read_profile(&users[i]) {
            Ok(user) => {
                let ghost before = out.deep_view();
                let ghost uv = user.deep_view();
                out.push(user);
                assert(out.deep_view() =~= before.push(uv));
            },
            Err(e) => {
                proof {
                    lemma_gather_error_stays(all, f, i + 1);
                }
                return Err(e);
            },
        }
        i = i + 1;
    }
    assert(all.take(users@.len() as int) =~= all);
    Ok(out)
}

} // verus!

verus! {

/// The kind of file that a file name suggests, by its extension.
pub open spec fn kind_for_extension(e: Seq<char>) -> AttachmentKind {
    if e == "jpg"@ || e == "jpeg"@ || e == "png"@ || e == "gif"@ || e == "webp"@ || e == "bmp"@
        || e == "svg"@ || e == "heic"@ {
        AttachmentKind::Image
    } else if e == "mp3"@ || e == "m4a"@ || e == "aac"@ || e == "wav"@ || e == "ogg"@ || e
        == "opus"@ || e == "flac"@ {
        AttachmentKind::Audio
    } else if e == "mp4"@ || e == "m4v"@ || e == "mkv"@ || e == "mov"@ || e == "webm"@ || e
        == "avi"@ {
        AttachmentKind::Video
    } else {
        AttachmentKind::File
    }
}

pub open spec fn kind_from_name(name: Seq<char>) -> AttachmentKind {
    kind_for_extension(lowered(crate::text::after_last_dot(name)))
}

fn any_of(ext: &Vec<char>, words: &[&str]) -> (r: bool)
    ensures
        r == (exists|i: int| 0 <= i < words@.len() && lowered(ext@) == (#[trigger] words@[i])@),
{
    let mut i: usize = 0;
    while i < words.len()
        invariant
            i <= words@.len(),
            forall|k: int| 0 <= k < i ==> lowered(ext@) != (#[trigger] words@[k])@,
        decreases words.len() - i,
    {
        if crate::text::lowered_is(ext, words[i]) {
            return true;
        }
        i = i + 1;
    }
    false
}

/// The kind of file that `name` suggests.
pub fn attachment_kind_from_name(name: &str) -> (r: AttachmentKind)
    ensures
        r == kind_from_name(name@),
{
    let ext = crate::text::extension_of(name);
    let images = ["jpg", "jpeg", "png", "gif", "webp", "bmp", "svg", "heic"];
    let audio = ["mp3", "m4a", "aac", "wav", "ogg", "opus", "flac"];
    let video = ["mp4", "m4v", "mkv", "mov", "webm", "avi"];
    let is_image = any_of(&ext, &images);
    let is_audio = any_of(&ext, &audio);
    let is_video = any_of(&ext, &video);
    proof {
        let e = lowered(ext@);
        if e == "jpg"@ { assert(images@[0]@ == e); }
        if e == "jpeg"@ { assert(images@[1]@ == e); }
        if e == "png"@ { assert(images@[2]@ == e); }
        if e == "gif"@ { assert(images@[3]@ == e); }
        if e == "webp"@ { assert(images@[4]@ == e); }
        if e == "bmp"@ { assert(images@[5]@ == e); }
        if e == "svg"@ { assert(images@[6]@ == e); }
        if e == "heic"@ { assert(images@[7]@ == e); }
        if e == "mp3"@ { assert(audio@[0]@ == e); }
        if e == "m4a"@ { assert(audio@[1]@ == e); }
        if e == "aac"@ { assert(audio@[2]@ == e); }
        if e == "wav"@ { assert(audio@[3]@ == e); }
        if e == "ogg"@ { assert(audio@[4]@ == e); }
        if e == "opus"@ { assert(audio@[5]@ == e); }
        if e == "flac"@ { assert(audio@[6]@ == e); }
        if e == "mp4"@ { assert(video@[0]@ == e); }
        if e == "m4v"@ { assert(video@[1]@ == e); }
        if e == "mkv"@ { assert(video@[2]@ == e); }
        if e == "mov"@ { assert(video@[3]@ == e); }
        if e == "webm"@ { assert(video@[4]@ == e); }
        if e == "avi"@ { assert(video@[5]@ == e); }
    }
    if is_image {
        AttachmentKind::Image
    } else if is_audio {
        AttachmentKind::Audio
    } else if is_video {
        AttachmentKind::Video
    } else {
        AttachmentKind::File
    }
}

/// `n * 100`, held within the range of `i64`.
pub open spec fn saturated_hundredfold(n: i64) -> int {
    let m = n * 100;
    if m > i64::MAX {
        i64::MAX as int
    } else if m < i64::MIN {
        i64::MIN as int
    } else {
        m
    }
}

/// The progress `done` of `total` in percent, rounded down and held within 0..=100.
pub open spec fn percent_of(done: i64, total: i64) -> u8 {
    let m = saturated_hundredfold(done);
    if m < 0 {
        0
    } else if m / (total as int) > 100 {
        100
    } else {
        (m / (total as int)) as u8
    }
}

pub fn percent(done: i64, total: i64) -> (r: u8)
    requires
        total > 0,
    ensures
        r == percent_of(done, total),
{
    let wide: i128 = done as i128 * 100;
    let m: i128 = if wide > i64::MAX as i128 {
        i64::MAX as i128
    } else if wide < i64::MIN as i128 {
        i64::MIN as i128
    } else {
        wide
    };
    if m < 0 {
        0
    } else {
        let q: i128 = m / (total as i128);
        if q > 100 {
            100
        } else {
            q as u8
        }
    }
}

/// The progress recorded in a file status, when it has both counts and a positive total.
pub open spec fn progress_of(status: Option<JsonView>) -> Option<u8> {
    match (i64_of(field(status, "rcvProgress"@)), i64_of(field(status, "rcvTotal"@))) {
        (Some(done), Some(total)) => if total > 0 {
            Some(percent_of(done, total))
        } else {
            None
        },
        _ => None,
    }
}

/// The attachment that a `file` member describes; `kind` is the type of the message content.
pub open spec fn attachment_of(file: JsonView, kind: Option<Seq<char>>) -> Option<AttachmentView> {
    match str_of(get_key(file, "fileName"@)) {
        None => None,
        Some(name) => match i64_of(get_key(file, "fileId"@)) {
            None => None,
            Some(id) => Some(
                AttachmentView {
                    id,
                    name,
                    size: match i64_of(get_key(file, "fileSize"@)) {
                        Some(n) => n,
                        None => 0,
                    },
                    kind: if kind == Some("image"@) {
                        AttachmentKind::Image
                    } else if kind == Some("video"@) {
                        AttachmentKind::Video
                    } else if kind == Some("voice"@) {
                        AttachmentKind::Audio
                    } else {
                        kind_from_name(name)
                    },
                    status: unwrap_text_or(
                        str_of(field(get_key(file, "fileStatus"@), "type"@)),
                        "unknown"@,
                    ),
                    progress: progress_of(get_key(file, "fileStatus"@)),
                    path: str_of(field(get_key(file, "fileSource"@), "filePath"@)),
                },
            ),
        },
    }
}

pub fn parse_attachment(file: &Json, kind: Option<&String>) -> (r: Option<Attachment>)
    ensures
        r.deep_view() == attachment_of(
            file.deep_view(),
            match kind {
                Some(k) => Some(k@),
                None => None,
            },
        ),
{
    let name = match text_of(file.get("fileName")) {
        Some(name) => name.clone(),
        None => return None,
    };
    let attachment_kind = if text_is(kind, "image") {
        AttachmentKind::Image
    } else if text_is(kind, "video") {
        AttachmentKind::Video
    } else if text_is(kind, "voice") {
        AttachmentKind::Audio
    } else {
        attachment_kind_from_name(name.as_str())
    };
    let id = match int_of(file.get("fileId")) {
        Some(id) => id,
        None => return None,
    };
    let size = match int_of(file.get("fileSize")) {
        Some(n) => n,
        None => 0,
    };
    let status = text_or(text_of(member(file.get("fileStatus"), "type")), "unknown");
    let progress = match (
        int_of(member(file.get("fileStatus"), "rcvProgress")),
        int_of(member(file.get("fileStatus"), "rcvTotal")),
    ) {
        (Some(done), Some(total)) => if total > 0 {
            Some(percent(done, total))
        } else {
            None
        },
        _ => None,
    };
    let path = match text_of(member(file.get("fileSource"), "filePath")) {
        Some(p) => Some(p.clone()),
        None => None,
    };
    Some(Attachment { id, name, size, kind: attachment_kind, status, progress, path })
}

/// One entry of a message's `reactions` list.
pub open spec fn reaction_of(r: JsonView) -> Option<ReactionView> {
    match (str_of(field(get_key(r, "reaction"@), "emoji"@)), u64_of(get_key(r, "totalReacted"@))) {
        (Some(emoji), Some(count)) => Some(
            ReactionView {
                emoji,
                count,
                user_reacted: unwrap_bool_or(bool_of(get_key(r, "userReacted"@)), false),
            },
        ),
        _ => None,
    }
}

fn read_reaction(r: &Json) -> (out: Option<MessageReaction>)
    ensures
        out.deep_view() == reaction_of(r.deep_view()),
{
    let emoji = match text_of(member(r.get("reaction"), "emoji")) {
        Some(e) => e.clone(),
        None => return None,
    };
    let count = match count_of(r.get("totalReacted")) {
        Some(c) => c,
        None => return None,
    };
    let user_reacted = match flag_of(r.get("userReacted")) {
        Some(b) => b,
        None => false,
    };
    Some(MessageReaction { emoji, count, user_reacted })
}

/// The reactions listed in `items`, skipping malformed entries.
pub open spec fn reactions_of(items: Seq<JsonView>) -> Seq<ReactionView> {
    keep_some(items, |r: JsonView| reaction_of(r))
}

fn read_reactions(items: Option<&Vec<Json>>) -> (out: Vec<MessageReaction>)
    ensures
        out.deep_view() == reactions_of(
            match items {
                Some(v) => v.deep_view(),
                None => Seq::empty(),
            },
        ),
{
    let mut out: Vec<MessageReaction> = Vec::new();
    match items {
        None => {
            assert(out.deep_view() =~= Seq::<ReactionView>::empty());
        },
        Some(v) => {
            let ghost all = v.deep_view();
            let ghost f = |r: JsonView| reaction_of(r);
            let mut i: usize = 0;
            assert(all.take(0) =~= Seq::<JsonView>::empty());
            assert(out.deep_view() =~= Seq::<ReactionView>::empty());
            while i < v.len()
                invariant
                    i <= v@.len(),
                    all == v.deep_view(),
                    all.len() == v@.len(),
                    f == (|r: JsonView| reaction_of(r)),
                    out.deep_view() == keep_some(all.take(i as int), f),
                decreases v.len() - i,
            {
                proof {
                    lemma_keep_some_step(all, f, i as int);
                }
                let ghost before = out.deep_view();
                match read_reaction(&v[i]) {
                    Some(r) => {
                        let ghost rv = r.deep_view();
                        out.push(r);
                        assert(out.deep_view() =~= before.push(rv));
                    },
                    None => {},
                }
                i = i + 1;
            }
            assert(all.take(v@.len() as int) =~= all);
        },
    }
    out
}

/// Whether a chat direction is one of the user's own (it mentions `snd`, in any case).
pub open spec fn sent_direction(direction: Seq<char>) -> bool {
    contains_text(lowered(direction), "snd"@)
}

/// The message that a chat item carries: only sent or received message content that has
/// text or an attachment counts.
pub open spec fn message_of(item: JsonView) -> Option<MessageView> {
    let content_type = str_of(field(get_key(item, "content"@), "type"@));
    if content_type != Some("sndMsgContent"@) && content_type != Some("rcvMsgContent"@) {
        None
    } else {
        match get_key(item, "meta"@) {
            None => None,
            Some(meta) => {
                let text = unwrap_text_or(str_of(get_key(meta, "itemText"@)), Seq::empty());
                let kind = str_of(field(field(get_key(item, "content"@), "msgContent"@), "type"@));
                let attachment = match get_key(item, "file"@) {
                    Some(file) => attachment_of(file, kind),
                    None => None,
                };
                if text.len() == 0 && attachment is None {
                    None
                } else {
                    match i64_of(get_key(meta, "itemId"@)) {
                        None => None,
                        Some(id) => Some(
                            MessageView {
                                id,
                                text,
                                timestamp: unwrap_text_or(
                                    str_of(get_key(meta, "itemTs"@)),
                                    Seq::empty(),
                                ),
                                outgoing: sent_direction(
                                    unwrap_text_or(
                                        str_of(field(get_key(item, "chatDir"@), "type"@)),
                                        Seq::empty(),
                                    ),
                                ),
                                reactions: reactions_of(
                                    match array_of(get_key(item, "reactions"@)) {
                                        Some(items) => items,
                                        None => Seq::empty(),
                                    },
                                ),
                                attachment,
                            },
                        ),
                    }
                }
            },
        }
    }
}

pub fn parse_message(item: &Json) -> (r: Option<Message>)
    ensures
        r.deep_view() == message_of(item.deep_view()),
{
    let content_type = text_of(member(item.get("content"), "type"));
    if !text_is(content_type, "sndMsgContent") && !text_is(content_type, "rcvMsgContent") {
        return None;
    }
    let meta = match item.get("meta") {
        Some(meta) => meta,
        None => return None,
    };
    proof {
        reveal_strlit("");
        reveal_strlit("snd");
    }
    let text = text_or(text_of(meta.get("itemText")), "");
    let kind = text_of(member(member(item.get("content"), "msgContent"), "type"));
    let attachment = match item.get("file") {
        Some(file) => parse_attachment(file, kind),
        None => None,
    };
    if text.as_str().is_empty() && attachment.is_none() {
        return None;
    }
    let direction = text_or(text_of(member(item.get("chatDir"), "type")), "");
    let id = match int_of(meta.get("itemId")) {
        Some(id) => id,
        None => return None,
    };
    let timestamp = text_or(text_of(meta.get("itemTs")), "");
    let outgoing = crate::text::contains_ignoring_ascii_case(direction.as_str(), "snd");
    let reactions = read_reactions(items_of(item.get("reactions")));
    let r = Message { id, text, timestamp, outgoing, reactions, attachment };
    proof {
        let mv = message_of(item.deep_view())->Some_0;
        assert(message_of(item.deep_view()) is Some);
        assert(r.deep_view().id == mv.id);
        assert(r.deep_view().text == mv.text);
        assert(r.deep_view().timestamp == mv.timestamp);
        assert(r.deep_view().outgoing == mv.outgoing);
        assert(r.deep_view().reactions == mv.reactions);
        assert(r.deep_view().attachment == mv.attachment);
    }
    Some(r)
}

} // verus!

verus! {

/// Whether a chat-list entry is shown: it has a `chatInfo`, is not the local notes folder and is
/// not the built-in SimpleX team contact.
pub open spec fn listed_chat(chat: JsonView) -> bool {
    match get_key(chat, "chatInfo"@) {
        None => false,
        Some(info) => str_of(get_key(info, "type"@)) != Some("local"@) && str_of(
            field(get_key(info, "contact"@), "localDisplayName"@),
        ) != Some("Ask SimpleX Team"@),
    }
}

/// The first of the conversation objects that `info` holds.
pub open spec fn name_holder(info: JsonView) -> Option<JsonView> {
    if get_key(info, "contact"@) is Some {
        get_key(info, "contact"@)
    } else if get_key(info, "groupInfo"@) is Some {
        get_key(info, "groupInfo"@)
    } else if get_key(info, "noteFolder"@) is Some {
        get_key(info, "noteFolder"@)
    } else if get_key(info, "contactRequest"@) is Some {
        get_key(info, "contactRequest"@)
    } else {
        get_key(info, "contactConnection"@)
    }
}

pub open spec fn display_name_of(info: JsonView) -> Seq<char> {
    match str_of(field(name_holder(info), "localDisplayName"@)) {
        Some(name) => name,
        None => unwrap_text_or(str_of(get_key(info, "localDisplayName"@)), "Unknown chat"@),
    }
}

pub open spec fn summary_of(chat: JsonView) -> Result<ChatSummaryView, Seq<char>> {
    match get_key(chat, "chatInfo"@) {
        None => Err("chat has no chatInfo"@),
        Some(info) => match chat_ref_of(info) {
            Err(e) => Err(e),
            Ok(chat_ref) => Ok(
                ChatSummaryView {
                    chat_ref,
                    display_name: display_name_of(info),
                    unread_count: match u64_of(field(get_key(chat, "chatStats"@), "unreadCount"@)) {
                        Some(n) => n,
                        None => 0,
                    },
                },
            ),
        },
    }
}

pub open spec fn chat_step(chat: JsonView) -> Option<Result<ChatSummaryView, Seq<char>>> {
    if listed_chat(chat) {
        Some(summary_of(chat))
    } else {
        None
    }
}

/// The shown entries of a chat list, in order; the first malformed one is an error.
pub open spec fn summaries_of(chats: Seq<JsonView>) -> Result<Seq<ChatSummaryView>, Seq<char>> {
    gather(chats, |c: JsonView| chat_step(c))
}

pub open spec fn chats_of(v: JsonView) -> Result<Seq<ChatSummaryView>, Seq<char>> {
    match get_key(v, "result"@) {
        None => Err(response_error_text(v, "chat list"@)),
        Some(result) => {
            let kind = str_of(get_key(result, "type"@));
            if kind != Some("apiChats"@) && kind != Some("chats"@) {
                Err(response_error_text(v, "chat list"@))
            } else {
                match array_of(get_key(result, "chats"@)) {
                    None => Err("chat-list response has no chats array"@),
                    Some(chats) => summaries_of(chats),
                }
            }
        },
    }
}

fn is_listed(chat: &Json) -> (r: bool)
    ensures
        r == listed_chat(chat.deep_view()),
{
    let info = match chat.get("chatInfo") {
        Some(info) => info,
        None => return false,
    };
    if text_is(text_of(info.get("type")), "local") {
        return false;
    }
    !text_is(text_of(member(info.get("contact"), "localDisplayName")), "Ask SimpleX Team")
}

fn read_summary(chat: &Json) -> (r: Result<ChatSummary, String>)
    ensures
        result_view(r) == summary_of(chat.deep_view()),
{
    let info = match chat.get("chatInfo") {
        Some(info) => info,
        None => return Err("chat has no chatInfo".to_owned()),
    };
    let chat_ref = match chat_ref(info) {
        Ok(r) => r,
        Err(e) => return Err(e),
    };
    let holder = if info.get("contact").is_some() {
        info.get("contact")
    } else if info.get("groupInfo").is_some() {
        info.get("groupInfo")
    } else if info.get("noteFolder").is_some() {
        info.get("noteFolder")
    } else if info.get("contactRequest").is_some() {
        info.get("contactRequest")
    } else {
        info.get("contactConnection")
    };
    let display_name = match text_of(member(holder, "localDisplayName")) {
        Some(name) => name.clone(),
        None => text_or(text_of(info.get("localDisplayName")), "Unknown chat"),
    };
    let unread_count = match count_of(member(chat.get("chatStats"), "unreadCount")) {
        Some(n) => n,
        None => 0,
    };
    Ok(ChatSummary { chat_ref, display_name, unread_count })
}

/// The shown entries of a list of chats.
pub fn summaries(chats: &Vec<Json>) -> (r: Result<Vec<ChatSummary>, String>)
    ensures
        result_view(r) == summaries_of(chats.deep_view()),
{
    let ghost f = |c: JsonView| chat_step(c);
    let ghost all = chats.deep_view();
    let mut out: Vec<ChatSummary> = Vec::new();
    let mut i: usize = 0;
    assert(all.take(0) =~= Seq::<JsonView>::empty());
    assert(out.deep_view() =~= Seq::<ChatSummaryView>::empty());
    while i < chats.len()
        invariant
            i <= chats@.len(),
            all == chats.deep_view(),
            all.len() == chats@.len(),
            f == (|c: JsonView| chat_step(c)),
            gather(all.take(i as int), f) == Ok::<Seq<ChatSummaryView>, Seq<char>>(
                out.deep_view(),
            ),
        decreases chats.len() - i,
    {
        proof {
            lemma_gather_step(all, f, i as int);
        }
        if is_listed(&chats[i]) {
            match read_summary(&chats[i]) {
                Ok(summary) => {
                    let ghost before = out.deep_view();
                    let ghost sv = summary.deep_view();
                    out.push(summary);
                    assert(out.deep_view() =~= before.push(sv));
                },
                Err(e) => {
                    proof {
                        lemma_gather_error_stays(all, f, i + 1);
                    }
                    return Err(e);
                },
            }
        }
        i = i + 1;
    }
    assert(all.take(chats@.len() as int) =~= all);
    Ok(out)
}

/// The conversations of a chat-list reply.
pub fn chats(value: &Json) -> (r: Result<Vec<ChatSummary>, String>)
    ensures
        result_view(r) == chats_of(value.deep_view()),
{
    let result = match value.get("result") {
        Some(result) => result,
        None => return Err(response_error(value, "chat list")),
    };
    let kind = text_of(result.get("type"));
    if !text_is(kind, "apiChats") && !text_is(kind, "chats") {
        return Err(response_error(value, "chat list"));
    }
    match items_of(result.get("chats")) {
        None => Err("chat-list response has no chats array".to_owned()),
        Some(list) => summaries(list),
    }
}

/// The messages among chat items, in order.
pub open spec fn messages_of(items: Seq<JsonView>) -> Seq<MessageView> {
    keep_some(items, |i: JsonView| message_of(i))
}

pub fn read_messages(items: &Vec<Json>) -> (r: Vec<Message>)
    ensures
        r.deep_view() == messages_of(items.deep_view()),
{
    let ghost f = |i: JsonView| message_of(i);
    let ghost all = items.deep_view();
    let mut out: Vec<Message> = Vec::new();
    let mut i: usize = 0;
    assert(all.take(0) =~= Seq::<JsonView>::empty());
    assert(out.deep_view() =~= Seq::<MessageView>::empty());
    while i < items.len()
        invariant
            i <= items@.len(),
            all == items.deep_view(),
            all.len() == items@.len(),
            f == (|i: JsonView| message_of(i)),
            out.deep_view() == keep_some(all.take(i as int), f),
        decreases items.len() - i,
    {
        proof {
            lemma_keep_some_step(all, f, i as int);
        }
        match parse_message(&items[i]) {
            Some(m) => {
                let ghost before = out.deep_view();
                let ghost mv = m.deep_view();
                out.push(m);
                assert(out.deep_view() =~= before.push(mv));
            },
            None => {},
        }
        i = i + 1;
    }
    assert(all.take(items@.len() as int) =~= all);
    out
}

/// The conversation and messages of an `apiChat` reply.
pub open spec fn chat_messages_of(v: JsonView) -> Result<(Seq<char>, Seq<MessageView>), Seq<char>> {
    match get_key(v, "result"@) {
        None => Err(response_error_text(v, "chat"@)),
        Some(result) => if str_of(get_key(result, "type"@)) != Some("apiChat"@) {
            Err(response_error_text(v, "chat"@))
        } else {
            match get_key(result, "chat"@) {
                None => Err("apiChat response has no chat"@),
                Some(chat) => match get_key(chat, "chatInfo"@) {
                    None => Err("chat has no chatInfo"@),
                    Some(info) => match chat_ref_of(info) {
                        Err(e) => Err(e),
                        Ok(chat_ref) => match array_of(get_key(chat, "chatItems"@)) {
                            None => Err("chat has no chatItems array"@),
                            Some(items) => Ok((chat_ref, messages_of(items))),
                        },
                    },
                },
            }
        },
    }
}

pub fn chat_messages(value: &Json) -> (r: Result<(ChatRef, Vec<Message>), String>)
    ensures
        result_view(r) == chat_messages_of(value.deep_view()),
{
    let result = match value.get("result") {
        Some(result) => result,
        None => return Err(response_error(value, "chat")),
    };
    if !text_is(text_of(result.get("type")), "apiChat") {
        return Err(response_error(value, "chat"));
    }
    let chat = match result.get("chat") {
        Some(chat) => chat,
        None => return Err("apiChat response has no chat".to_owned()),
    };
    let info = match chat.get("chatInfo") {
        Some(info) => info,
        None => return Err("chat has no chatInfo".to_owned()),
    };
    let chat_ref = match chat_ref(info) {
        Ok(r) => r,
        Err(e) => return Err(e),
    };
    match items_of(chat.get("chatItems")) {
        None => Err("chat has no chatItems array".to_owned()),
        Some(items) => Ok((chat_ref, read_messages(items))),
    }
}

/// A live chat item: its conversation and its message.
pub open spec fn live_item_of(item: JsonView) -> Option<(Seq<char>, MessageView)> {
    match get_key(item, "chatInfo"@) {
        None => None,
        Some(info) => match chat_ref_of(info) {
            Err(_) => None,
            Ok(chat_ref) => match get_key(item, "chatItem"@) {
                None => None,
                Some(chat_item) => match message_of(chat_item) {
                    None => None,
                    Some(m) => Some((chat_ref, m)),
                },
            },
        },
    }
}

/// The messages of a `newChatItems` event; nothing for any other reply.
pub open spec fn new_messages_of(v: JsonView) -> Seq<(Seq<char>, MessageView)> {
    match get_key(v, "result"@) {
        None => Seq::empty(),
        Some(result) => if str_of(get_key(result, "type"@)) != Some("newChatItems"@) {
            Seq::empty()
        } else {
            keep_some(
                match array_of(get_key(result, "chatItems"@)) {
                    Some(items) => items,
                    None => Seq::empty(),
                },
                |i: JsonView| live_item_of(i),
            )
        },
    }
}

fn read_live_item(item: &Json) -> (r: Option<(ChatRef, Message)>)
    ensures
        r.deep_view() == live_item_of(item.deep_view()),
{
    let info = match item.get("chatInfo") {
        Some(info) => info,
        None => return None,
    };
    let chat_ref = match chat_ref(info) {
        Ok(r) => r,
        Err(_) => return None,
    };
    let chat_item = match item.get("chatItem") {
        Some(c) => c,
        None => return None,
    };
    match parse_message(chat_item) {
        Some(m) => Some((chat_ref, m)),
        None => None,
    }
}

pub fn new_messages(value: &Json) -> (r: Vec<(ChatRef, Message)>)
    ensures
        r.deep_view() == new_messages_of(value.deep_view()),
{
    let mut out: Vec<(ChatRef, Message)> = Vec::new();
    let result = match value.get("result") {
        Some(result) => result,
        None => {
            assert(out.deep_view() =~= Seq::<(Seq<char>, MessageView)>::empty());
            return out;
        },
    };
    if !text_is(text_of(result.get("type")), "newChatItems") {
        assert(out.deep_view() =~= Seq::<(Seq<char>, MessageView)>::empty());
        return out;
    }
    let items = match items_of(result.get("chatItems")) {
        Some(items) => items,
        None => {
            assert(out.deep_view() =~= Seq::<(Seq<char>, MessageView)>::empty());
            return out;
        },
    };
    let ghost f = |i: JsonView| live_item_of(i);
    let ghost all = items.deep_view();
    let mut i: usize = 0;
    assert(all.take(0) =~= Seq::<JsonView>::empty());
    assert(out.deep_view() =~= Seq::<(Seq<char>, MessageView)>::empty());
    while i < items.len()
        invariant
            i <= items@.len(),
            all == items.deep_view(),
            all.len() == items@.len(),
            f == (|i: JsonView| live_item_of(i)),
            out.deep_view() == keep_some(all.take(i as int), f),
        decreases items.len() - i,
    {
        proof {
            lemma_keep_some_step(all, f, i as int);
        }
        match read_live_item(&items[i]) {
            Some(pair) => {
                let ghost before = out.deep_view();
                let ghost pv = pair.deep_view();
                out.push(pair);
                assert(out.deep_view() =~= before.push(pv));
            },
            None => {},
        }
        i = i + 1;
    }
    assert(all.take(items@.len() as int) =~= all);
    out
}

} // verus!

verus! {

/// `m` with the attachment's progress replaced by `done` of `total` when there is an
/// attachment and a positive total.
pub open spec fn with_progress(m: MessageView, done: Option<i64>, total: Option<i64>) -> MessageView {
    match (m.attachment, done, total) {
        (Some(a), Some(d), Some(t)) => if t > 0 {
            MessageView {
                attachment: Some(AttachmentView { progress: Some(percent_of(d, t)), ..a }),
                ..m
            }
        } else {
            m
        },
        _ => m,
    }
}

/// The conversation and updated message of a file-transfer event.
pub open spec fn file_update_of(v: JsonView) -> Option<(Seq<char>, MessageView)> {
    match get_key(v, "result"@) {
        None => None,
        Some(result) => {
            let holder = if get_key(result, "chatItem"@) is Some {
                get_key(result, "chatItem"@)
            } else {
                get_key(result, "chatItem_"@)
            };
            match holder {
                None => None,
                Some(item) => match get_key(item, "chatItem"@) {
                    None => None,
                    Some(chat_item) => match message_of(chat_item) {
                        None => None,
                        Some(m) => match get_key(item, "chatInfo"@) {
                            None => None,
                            Some(info) => match chat_ref_of(info) {
                                Err(_) => None,
                                Ok(chat_ref) => Some(
                                    (
                                        chat_ref,
                                        with_progress(
                                            m,
                                            i64_of(get_key(result, "receivedSize"@)),
                                            i64_of(get_key(result, "totalSize"@)),
                                        ),
                                    ),
                                ),
                            },
                        },
                    },
                },
            }
        },
    }
}

pub fn file_update(value: &Json) -> (r: Option<(ChatRef, Message)>)
    ensures
        r.deep_view() == file_update_of(value.deep_view()),
{
    let result = match value.get("result") {
        Some(result) => result,
        None => return None,
    };
    let holder = if result.get("chatItem").is_some() {
        result.get("chatItem")
    } else {
        result.get("chatItem_")
    };
    let item = match holder {
        Some(item) => item,
        None => return None,
    };
    let chat_item = match item.get("chatItem") {
        Some(c) => c,
        None => return None,
    };
    let message = match parse_message(chat_item) {
        Some(m) => m,
        None => return None,
    };
    let done = int_of(result.get("receivedSize"));
    let total = int_of(result.get("totalSize"));
    let message = match (message.attachment, done, total) {
        (Some(a), Some(d), Some(t)) => {
            if t > 0 {
                let p = percent(d, t);
                Message { attachment: Some(Attachment { progress: Some(p), ..a }), ..message }
            } else {
                Message { attachment: Some(a), ..message }
            }
        },
        (attachment, _, _) => Message { attachment, ..message },
    };
    let info = match item.get("chatInfo") {
        Some(info) => info,
        None => return None,
    };
    match chat_ref(info) {
        Ok(chat_ref) => Some((chat_ref, message)),
        Err(_) => None,
    }
}

/// A reaction event: conversation, item, emoji, whether it was added, and whether the user
/// made it.
pub open spec fn reaction_change_of(v: JsonView) -> Option<(Seq<char>, i64, Seq<char>, bool, bool)> {
    match get_key(v, "result"@) {
        None => None,
        Some(result) => if str_of(get_key(result, "type"@)) != Some("chatItemReaction"@) {
            None
        } else {
            match get_key(result, "reaction"@) {
                None => None,
                Some(reaction) => {
                    let chat_reaction = get_key(reaction, "chatReaction"@);
                    match (
                        get_key(reaction, "chatInfo"@),
                        i64_of(field(field(field(chat_reaction, "chatItem"@), "meta"@), "itemId"@)),
                        str_of(field(field(chat_reaction, "reaction"@), "emoji"@)),
                        str_of(field(field(chat_reaction, "chatDir"@), "type"@)),
                        bool_of(get_key(result, "added"@)),
                    ) {
                        (Some(info), Some(item_id), Some(emoji), Some(direction), Some(added)) => {
                            match chat_ref_of(info) {
                                Err(_) => None,
                                Ok(chat_ref) => Some(
                                    (chat_ref, item_id, emoji, added, sent_direction(direction)),
                                ),
                            }
                        },
                        _ => None,
                    }
                },
            }
        },
    }
}

pub fn reaction_change(value: &Json) -> (r: Option<(ChatRef, i64, String, bool, bool)>)
    ensures
        r.deep_view() == reaction_change_of(value.deep_view()),
{
    let result = match value.get("result") {
        Some(result) => result,
        None => return None,
    };
    if !text_is(text_of(result.get("type")), "chatItemReaction") {
        return None;
    }
    let reaction = match result.get("reaction") {
        Some(r) => r,
        None => return None,
    };
    let info = match reaction.get("chatInfo") {
        Some(info) => info,
        None => return None,
    };
    let chat_reaction = reaction.get("chatReaction");
    let item_id = match int_of(member(member(member(chat_reaction, "chatItem"), "meta"), "itemId")) {
        Some(id) => id,
        None => return None,
    };
    let emoji = match text_of(member(member(chat_reaction, "reaction"), "emoji")) {
        Some(e) => e.clone(),
        None => return None,
    };
    let direction = match text_of(member(member(chat_reaction, "chatDir"), "type")) {
        Some(d) => d,
        None => return None,
    };
    let added = match flag_of(result.get("added")) {
        Some(b) => b,
        None => return None,
    };
    let chat_ref = match chat_ref(info) {
        Ok(r) => r,
        Err(_) => return None,
    };
    proof {
        reveal_strlit("snd");
    }
    let user_reacted = crate::text::contains_ignoring_ascii_case(direction.as_str(), "snd");
    Some((chat_ref, item_id, emoji, added, user_reacted))
}

/// The user and the new direct conversation of a `contactConnected` event.
pub open spec fn connected_contact_of(v: JsonView) -> Option<(i64, Seq<char>)> {
    match get_key(v, "result"@) {
        None => None,
        Some(result) => if str_of(get_key(result, "type"@)) != Some("contactConnected"@) {
            None
        } else {
            match (
                i64_of(field(get_key(result, "user"@), "userId"@)),
                i64_of(field(get_key(result, "contact"@), "contactId"@)),
            ) {
                (Some(user_id), Some(contact_id)) => Some(
                    (user_id, "@"@ + decimal(contact_id as int)),
                ),
                _ => None,
            }
        },
    }
}

pub fn connected_contact(value: &Json) -> (r: Option<(i64, ChatRef)>)
    ensures
        r.deep_view() == connected_contact_of(value.deep_view()),
{
    let result = match value.get("result") {
        Some(result) => result,
        None => return None,
    };
    if !text_is(text_of(result.get("type")), "contactConnected") {
        return None;
    }
    let user_id = match int_of(member(result.get("user"), "userId")) {
        Some(id) => id,
        None => return None,
    };
    let contact_id = match int_of(member(result.get("contact"), "contactId")) {
        Some(id) => id,
        None => return None,
    };
    let digits = decimal_text(contact_id);
    Some((user_id, ChatRef(join("@", digits.as_str()))))
}

/// The link of an `invitation` reply: the short link when it is not empty, else the full one.
pub open spec fn invitation_link_of(v: JsonView) -> Result<Seq<char>, Seq<char>> {
    match get_key(v, "result"@) {
        None => Err(response_error_text(v, "invitation"@)),
        Some(result) => if str_of(get_key(result, "type"@)) != Some("invitation"@) {
            Err(response_error_text(v, "invitation"@))
        } else {
            let links = get_key(result, "connLinkInvitation"@);
            let short = str_of(field(links, "connShortLink"@));
            let chosen = match short {
                Some(s) => if s.len() > 0 {
                    short
                } else {
                    str_of(field(links, "connFullLink"@))
                },
                None => str_of(field(links, "connFullLink"@)),
            };
            match chosen {
                Some(link) => Ok(link),
                None => Err("invitation response has no connection link"@),
            }
        },
    }
}

pub fn invitation_link(value: &Json) -> (r: Result<String, String>)
    ensures
        result_view(r) == invitation_link_of(value.deep_view()),
{
    let result = match value.get("result") {
        Some(result) => result,
        None => return Err(response_error(value, "invitation")),
    };
    if !text_is(text_of(result.get("type")), "invitation") {
        return Err(response_error(value, "invitation"));
    }
    let links = result.get("connLinkInvitation");
    let chosen = match text_of(member(links, "connShortLink")) {
        Some(s) => if !s.as_str().is_empty() {
            Some(s)
        } else {
            text_of(member(links, "connFullLink"))
        },
        None => text_of(member(links, "connFullLink")),
    };
    match chosen {
        Some(link) => Ok(link.clone()),
        None => Err("invitation response has no connection link".to_owned()),
    }
}

/// Whether a preference is on: its `allow` is anything but `no`; `default` when it is not set.
pub open spec fn allowed(preferences: Option<JsonView>, name: Seq<char>, default: bool) -> bool {
    match str_of(field(field(preferences, name), "allow"@)) {
        Some(allow) => allow != "no"@,
        None => default,
    }
}

/// The chat features that a user profile's preferences enable.
pub open spec fn features_of(profile: JsonView) -> ChatFeatures {
    let preferences = get_key(profile, "preferences"@);
    ChatFeatures {
        disappearing_messages: allowed(preferences, "timedMessages"@, false),
        full_deletion: allowed(preferences, "fullDelete"@, false),
        reactions: allowed(preferences, "reactions"@, true),
        voice_messages: allowed(preferences, "voice"@, true),
        files_and_media: allowed(preferences, "files"@, true),
    }
}

fn allowed_in(preferences: Option<&Json>, name: &str, default: bool) -> (r: bool)
    ensures
        r == allowed(ref_view(preferences), name@, default),
{
    match text_of(member(member(preferences, name), "allow")) {
        Some(allow) => !text_eq(allow.as_str(), "no"),
        None => default,
    }
}

pub fn read_features(profile: &Json) -> (r: ChatFeatures)
    ensures
        r == features_of(profile.deep_view()),
{
    let preferences = profile.get("preferences");
    ChatFeatures {
        disappearing_messages: allowed_in(preferences, "timedMessages", false),
        full_deletion: allowed_in(preferences, "fullDelete", false),
        reactions: allowed_in(preferences, "reactions", true),
        voice_messages: allowed_in(preferences, "voice", true),
        files_and_media: allowed_in(preferences, "files", true),
    }
}

/// The profile of a `userProfile` reply and the chat features it enables.
pub open spec fn profile_and_features_of(v: JsonView) -> Result<(JsonView, ChatFeatures), Seq<char>> {
    match get_key(v, "result"@) {
        None => Err(response_error_text(v, "user profile"@)),
        Some(result) => if str_of(get_key(result, "type"@)) != Some("userProfile"@) {
            Err(response_error_text(v, "user profile"@))
        } else {
            match get_key(result, "profile"@) {
                None => Err("userProfile response has no profile"@),
                Some(profile) => Ok((profile, features_of(profile))),
            }
        },
    }
}

pub fn profile_and_features(value: &Json) -> (r: Result<(Json, ChatFeatures), String>)
    ensures
        result_view(r) == profile_and_features_of(value.deep_view()),
{
    let result = match value.get("result") {
        Some(result) => result,
        None => return Err(response_error(value, "user profile")),
    };
    if !text_is(text_of(result.get("type")), "userProfile") {
        return Err(response_error(value, "user profile"));
    }
    let profile = match result.get("profile") {
        Some(p) => p.duplicate(),
        None => return Err("userProfile response has no profile".to_owned()),
    };
    let features = read_features(&profile);
    Ok((profile, features))
}

} // verus!

verus! {

/// A listed server of a group: skipped when it has no address or is marked deleted.
pub open spec fn entry_of(server: JsonView, protocol: ServerProtocol) -> Option<ServerEntryView> {
    match str_of(get_key(server, "server"@)) {
        None => None,
        Some(address) => if unwrap_bool_or(bool_of(get_key(server, "deleted"@)), false) {
            None
        } else {
            Some(
                ServerEntryView {
                    protocol,
                    address,
                    enabled: unwrap_bool_or(bool_of(get_key(server, "enabled"@)), true),
                    preset: unwrap_bool_or(bool_of(get_key(server, "preset"@)), false),
                },
            )
        },
    }
}

pub open spec fn entries_for(group: JsonView, protocol: ServerProtocol) -> Seq<ServerEntryView> {
    keep_some(
        match array_of(get_key(group, protocol.key_text())) {
            Some(servers) => servers,
            None => Seq::empty(),
        },
        |s: JsonView| entry_of(s, protocol),
    )
}

/// The servers of one group: its SMP servers, then its XFTP servers.
pub open spec fn group_entries(group: JsonView) -> Seq<ServerEntryView> {
    entries_for(group, ServerProtocol::Smp) + entries_for(group, ServerProtocol::Xftp)
}

/// The servers of all groups, group by group.
pub open spec fn entries_in(groups: Seq<JsonView>) -> Seq<ServerEntryView>
    decreases groups.len(),
{
    if groups.len() == 0 {
        Seq::empty()
    } else {
        entries_in(groups.drop_last()) + group_entries(groups.last())
    }
}

pub open spec fn server_entries_of(v: JsonView) -> Result<Seq<ServerEntryView>, Seq<char>> {
    match array_of(field(get_key(v, "result"@), "userServers"@)) {
        None => Err(response_error_text(v, "user servers"@)),
        Some(groups) => Ok(entries_in(groups)),
    }
}

fn read_entry(server: &Json, protocol: ServerProtocol) -> (r: Option<ServerEntry>)
    ensures
        r.deep_view() == entry_of(server.deep_view(), protocol),
{
    let address = match text_of(server.get("server")) {
        Some(a) => a.clone(),
        None => return None,
    };
    if match flag_of(server.get("deleted")) {
        Some(b) => b,
        None => false,
    } {
        return None;
    }
    let enabled = match flag_of(server.get("enabled")) {
        Some(b) => b,
        None => true,
    };
    let preset = match flag_of(server.get("preset")) {
        Some(b) => b,
        None => false,
    };
    Some(ServerEntry { protocol, address, enabled, preset })
}

fn push_entries(group: &Json, protocol: ServerProtocol, out: &mut Vec<ServerEntry>)
    ensures
        final(out).deep_view() == old(out).deep_view() + entries_for(group.deep_view(), protocol),
{
    let ghost start = out.deep_view();
    let ghost f = |s: JsonView| entry_of(s, protocol);
    match items_of(group.get(protocol.json_key())) {
        None => {
            assert(out.deep_view() =~= start + entries_for(group.deep_view(), protocol));
        },
        Some(servers) => {
            let ghost all = servers.deep_view();
            let mut i: usize = 0;
            assert(all.take(0) =~= Seq::<JsonView>::empty());
            assert(out.deep_view() =~= start + keep_some(all.take(0), f));
            while i < servers.len()
                invariant
                    i <= servers@.len(),
                    all == servers.deep_view(),
                    all.len() == servers@.len(),
                    f == (|s: JsonView| entry_of(s, protocol)),
                    out.deep_view() == start + keep_some(all.take(i as int), f),
                decreases servers.len() - i,
            {
                proof {
                    lemma_keep_some_step(all, f, i as int);
                }
                match read_entry(&servers[i], protocol) {
                    Some(e) => {
                        let ghost before = out.deep_view();
                        let ghost ev = e.deep_view();
                        out.push(e);
                        assert(out.deep_view() =~= before.push(ev));
                        assert(out.deep_view() =~= start + keep_some(all.take(i + 1), f));
                    },
                    None => {},
                }
                i = i + 1;
            }
            assert(all.take(servers@.len() as int) =~= all);
        },
    }
}

/// The SMP and XFTP servers of a `userServers` reply, group by group.
pub fn server_entries(value: &Json) -> (r: Result<Vec<ServerEntry>, String>)
    ensures
        result_view(r) == server_entries_of(value.deep_view()),
{
    let groups = match items_of(member(value.get("result"), "userServers")) {
        Some(groups) => groups,
        None => return Err(response_error(value, "user servers")),
    };
    let ghost all = groups.deep_view();
    let mut out: Vec<ServerEntry> = Vec::new();
    let mut i: usize = 0;
    assert(all.take(0) =~= Seq::<JsonView>::empty());
    assert(out.deep_view() =~= Seq::<ServerEntryView>::empty());
    while i < groups.len()
        invariant
            i <= groups@.len(),
            all == groups.deep_view(),
            all.len() == groups@.len(),
            out.deep_view() == entries_in(all.take(i as int)),
        decreases groups.len() - i,
    {
        assert(all.take(i + 1).drop_last() =~= all.take(i as int));
        assert(all.take(i + 1).last() == all[i as int]);
        push_entries(&groups[i], ServerProtocol::Smp, &mut out);
        push_entries(&groups[i], ServerProtocol::Xftp, &mut out);
        i = i + 1;
    }
    assert(all.take(groups@.len() as int) =~= all);
    Ok(out)
}

/// Every SMP server address anywhere inside `v`, in document order.
pub open spec fn smp_in(v: JsonView) -> Seq<Seq<char>>
    decreases v, 0nat,
{
    match v {
        JsonView::Str(s) => if crate::text::has_prefix(s, "smp://"@) {
            seq![s]
        } else {
            Seq::empty()
        },
        JsonView::Array(items) => smp_in_items(items, items.len()),
        JsonView::Object(members) => smp_in_members(members, members.len()),
        _ => Seq::empty(),
    }
}

/// The SMP server addresses inside the first `n` items.
pub open spec fn smp_in_items(items: Seq<JsonView>, n: nat) -> Seq<Seq<char>>
    decreases items, n,
{
    if n == 0 || n > items.len() {
        Seq::empty()
    } else {
        smp_in_items(items, (n - 1) as nat) + smp_in(items[n - 1])
    }
}

/// The SMP server addresses inside the values of the first `n` members.
pub open spec fn smp_in_members(members: Seq<(Seq<char>, JsonView)>, n: nat) -> Seq<Seq<char>>
    decreases members, n,
{
    if n == 0 || n > members.len() {
        Seq::empty()
    } else {
        smp_in_members(members, (n - 1) as nat) + smp_in(members[n - 1].1)
    }
}

fn collect_smp_servers(value: &Json, servers: &mut Vec<String>)
    ensures
        final(servers).deep_view() == old(servers).deep_view() + smp_in(value.deep_view()),
    decreases value,
{
    let ghost start = servers.deep_view();
    match value {
        Json::Str(s) => {
            if crate::text::starts_with(s.as_str(), "smp://") {
                let ghost sv = s@;
                servers.push(s.clone());
                assert(servers.deep_view() =~= start + seq![sv]);
            } else {
                assert(servers.deep_view() =~= start + Seq::<Seq<char>>::empty());
            }
        },
        Json::Array(items) => {
            proof {
                crate::json::lemma_array_items(*value);
            }
            let ghost vitems = value.deep_view()->Array_0;
            let mut i: usize = 0;
            assert(servers.deep_view() =~= start + smp_in_items(vitems, 0));
            while i < items.len()
                invariant
                    i <= items@.len(),
                    *value == Json::Array(*items),
                    vitems == value.deep_view()->Array_0,
                    vitems.len() == items@.len(),
                    forall|k: int| 0 <= k < items@.len() ==> #[trigger] vitems[k] == items@[k].deep_view(),
                    servers.deep_view() == start + smp_in_items(vitems, i as nat),
                decreases items.len() - i,
            {
                proof {
                    assert(decreases_to!(*value => (*value)->Array_0));
                    assert(decreases_to!(*items => items@));
                    assert(decreases_to!(items@ => items@[i as int]));
                }
                collect_smp_servers(&items[i], servers);
                assert(servers.deep_view() =~= start + smp_in_items(vitems, (i + 1) as nat));
                i = i + 1;
            }
        },
        Json::Object(members) => {
            proof {
                crate::json::lemma_object_members(*value);
            }
            let ghost vmembers = value.deep_view()->Object_0;
            let mut i: usize = 0;
            assert(servers.deep_view() =~= start + smp_in_members(vmembers, 0));
            while i < members.len()
                invariant
                    i <= members@.len(),
                    *value == Json::Object(*members),
                    vmembers == value.deep_view()->Object_0,
                    vmembers.len() == members@.len(),
                    forall|k: int| 0 <= k < members@.len() ==> #[trigger] vmembers[k] == (members@[k].0@, members@[k].1.deep_view()),
                    servers.deep_view() == start + smp_in_members(vmembers, i as nat),
                decreases members.len() - i,
            {
                proof {
                    assert(decreases_to!(*value => (*value)->Object_0));
                    assert(decreases_to!(*members => members@));
                    assert(decreases_to!(members@ => members@[i as int]));
                    assert(decreases_to!(members@[i as int] => members@[i as int].1));
                }
                collect_smp_servers(&members[i].1, servers);
                assert(vmembers[i as int].1 == members@[i as int].1.deep_view());
                assert(servers.deep_view() =~= start + smp_in_members(vmembers, (i + 1) as nat));
                i = i + 1;
            }
        },
        _ => {
            assert(servers.deep_view() =~= start + Seq::<Seq<char>>::empty());
        },
    }
}

} // verus!

verus! {

/// Each text comes strictly before the next, so none occurs twice.
pub open spec fn strictly_sorted(s: Seq<Seq<char>>) -> bool {
    forall|i: int, j: int| 0 <= i < j < s.len() ==> crate::seqs::text_lt(#[trigger] s[i], #[trigger] s[j])
}

proof fn lemma_insert_keeps_sorted(s: Seq<Seq<char>>, p: int, x: Seq<char>)
    requires
        0 <= p <= s.len(),
        strictly_sorted(s),
        forall|k: int| 0 <= k < p ==> crate::seqs::text_lt(#[trigger] s[k], x),
        p < s.len() ==> crate::seqs::text_lt(x, s[p]),
    ensures
        strictly_sorted(s.insert(p, x)),
        s.insert(p, x).to_set() == s.to_set().insert(x),
{
    let t = s.insert(p, x);
    assert forall|i: int, j: int| 0 <= i < j < t.len() implies crate::seqs::text_lt(
        #[trigger] t[i],
        #[trigger] t[j],
    ) by {
        if i < p && j < p {
            assert(t[i] == s[i] && t[j] == s[j]);
        } else if i < p && j == p {
            assert(t[i] == s[i]);
        } else if i < p && j > p {
            assert(t[i] == s[i] && t[j] == s[j - 1]);
            if i < j - 1 {
                assert(crate::seqs::text_lt(s[i], s[j - 1]));
            } else {
                assert(crate::seqs::text_lt(s[i], x));
                crate::seqs::lemma_text_lt_transitive(s[i], x, s[p]);
            }
        } else if i == p {
            assert(t[j] == s[j - 1]);
            if j - 1 > p {
                assert(crate::seqs::text_lt(s[p], s[j - 1]));
                crate::seqs::lemma_text_lt_transitive(x, s[p], s[j - 1]);
            }
        } else {
            assert(t[i] == s[i - 1] && t[j] == s[j - 1]);
        }
    }
    assert forall|y: Seq<char>| t.to_set().contains(y) == s.to_set().insert(x).contains(y) by {
        if t.to_set().contains(y) {
            let k = choose|k: int| 0 <= k < t.len() && t[k] == y;
            if k < p {
                assert(s[k] == y);
            } else if k > p {
                assert(s[k - 1] == y);
            }
        }
        if s.to_set().contains(y) {
            let k = choose|k: int| 0 <= k < s.len() && s[k] == y;
            if k < p {
                assert(t[k] == y);
            } else {
                assert(t[k + 1] == y);
            }
        }
        if y == x {
            assert(t[p] == x);
        }
    }
    assert(t.to_set() =~= s.to_set().insert(x));
}

/// Adds `item` to a strictly sorted list of texts, where it belongs, unless it is there already.
pub fn insert_sorted(list: &mut Vec<String>, item: String)
    requires
        strictly_sorted(old(list).deep_view()),
    ensures
        strictly_sorted(final(list).deep_view()),
        final(list).deep_view().to_set() == old(list).deep_view().to_set().insert(item@),
{
    let mut p: usize = 0;
    while p < list.len()
        invariant
            p <= list@.len(),
            list.deep_view() == old(list).deep_view(),
            strictly_sorted(list.deep_view()),
            forall|k: int| 0 <= k < p ==> crate::seqs::text_lt(#[trigger] list.deep_view()[k], item@),
        ensures
            p <= list@.len(),
            list.deep_view() == old(list).deep_view(),
            strictly_sorted(list.deep_view()),
            forall|k: int| 0 <= k < p ==> crate::seqs::text_lt(#[trigger] list.deep_view()[k], item@),
            p < list@.len() ==> crate::seqs::text_lt(item@, list.deep_view()[p as int]),
        decreases list.len() - p,
    {
        match crate::seqs::compare_texts(list[p].as_str(), item.as_str()) {
            crate::seqs::TextOrder::Less => {},
            crate::seqs::TextOrder::Equal => {
                assert(list.deep_view()[p as int] == item@);
                assert(list.deep_view().to_set().contains(item@));
                assert(list.deep_view().to_set().insert(item@) =~= list.deep_view().to_set());
                return;
            },
            crate::seqs::TextOrder::Greater => {
                break;
            },
        }
        p = p + 1;
    }
    let ghost before = list.deep_view();
    let ghost x = item@;
    proof {
        lemma_insert_keeps_sorted(before, p as int, x);
    }
    list.insert(p, item);
    assert(list.deep_view() =~= before.insert(p as int, x));
}

/// Where a `userServers` reply lists its SMP servers, or why it is not one.
pub open spec fn smp_source(v: JsonView) -> Result<Seq<Seq<char>>, Seq<char>> {
    match get_key(v, "result"@) {
        None => Err(response_error_text(v, "SMP servers"@)),
        Some(result) => if str_of(get_key(result, "type"@)) != Some("userServers"@) {
            Err(response_error_text(v, "SMP servers"@))
        } else {
            Ok(smp_in(result))
        },
    }
}

/// The distinct SMP server addresses of a `userServers` reply, sorted.
pub fn smp_servers(value: &Json) -> (r: Result<Vec<String>, String>)
    ensures
        match (r, smp_source(value.deep_view())) {
            (Ok(list), Ok(found)) => strictly_sorted(list.deep_view()) && list.deep_view().to_set()
                == found.to_set(),
            (Err(e), Err(why)) => e@ == why,
            _ => false,
        },
{
    let result = match value.get("result") {
        Some(result) => result,
        None => return Err(response_error(value, "SMP servers")),
    };
    if !text_is(text_of(result.get("type")), "userServers") {
        return Err(response_error(value, "SMP servers"));
    }
    let mut found: Vec<String> = Vec::new();
    collect_smp_servers(result, &mut found);
    assert(found.deep_view() =~= smp_in(result.deep_view()));
    let mut servers: Vec<String> = Vec::new();
    let mut i: usize = 0;
    assert(servers.deep_view().to_set() =~= found.deep_view().take(0).to_set());
    while i < found.len()
        invariant
            i <= found@.len(),
            strictly_sorted(servers.deep_view()),
            servers.deep_view().to_set() == found.deep_view().take(i as int).to_set(),
        decreases found.len() - i,
    {
        let item = found[i].clone();
        insert_sorted(&mut servers, item);
        assert(found.deep_view().take(i + 1) =~= found.deep_view().take(i as int).push(
            found.deep_view()[i as int],
        ));
        assert(found.deep_view().take(i + 1).to_set() =~= found.deep_view().take(
            i as int,
        ).to_set().insert(found.deep_view()[i as int])) by {
            let a = found.deep_view().take(i as int);
            let e = found.deep_view()[i as int];
            assert forall|y: Seq<char>| a.push(e).to_set().contains(y) == a.to_set().insert(
                e,
            ).contains(y) by {
                if a.push(e).to_set().contains(y) {
                    let k = choose|k: int| 0 <= k < a.push(e).len() && a.push(e)[k] == y;
                    if k < a.len() {
                        assert(a[k] == y);
                    }
                }
                if a.to_set().contains(y) {
                    let k = choose|k: int| 0 <= k < a.len() && a[k] == y;
                    assert(a.push(e)[k] == y);
                }
                if y == e {
                    assert(a.push(e)[a.len() as int] == e);
                }
            }
        }
        i = i + 1;
    }
    assert(found.deep_view().take(found@.len() as int) =~= found.deep_view());
    Ok(servers)
}

proof fn lemma_text_after_last_dot(stem: Seq<char>, ext: Seq<char>)
    requires
        stem.len() == 0 || stem.last() == '.',
        forall|i: int| 0 <= i < ext.len() ==> ext[i] != '.',
    ensures
        crate::text::after_last_dot(stem + ext) == ext,
    decreases ext.len(),
{
    if ext.len() == 0 {
        assert(stem + ext =~= stem);
    } else {
        let shorter = ext.drop_last();
        lemma_text_after_last_dot(stem, shorter);
        assert((stem + ext).drop_last() =~= stem + shorter);
        assert((stem + ext).last() == ext.last());
        assert(shorter.push(ext.last()) =~= ext);
    }
}

/// A file whose name ends in an audio extension (mp3, m4a, aac, wav, ogg, opus or flac, in any
/// letter case), whether after its last dot or as the whole name, is shown as audio.
pub proof fn lemma_audio_names_are_audio(stem: Seq<char>, ext: Seq<char>)
    requires
        stem.len() == 0 || stem.last() == '.',
        forall|i: int| 0 <= i < ext.len() ==> ext[i] != '.',
        lowered(ext) == "mp3"@ || lowered(ext) == "m4a"@ || lowered(ext) == "aac"@ || lowered(ext)
            == "wav"@ || lowered(ext) == "ogg"@ || lowered(ext) == "opus"@ || lowered(ext) == "flac"@,
    ensures
        kind_from_name(stem + ext) == AttachmentKind::Audio,
{
    lemma_text_after_last_dot(stem, ext);
    reveal_strlit("jpg");
    reveal_strlit("jpeg");
    reveal_strlit("png");
    reveal_strlit("gif");
    reveal_strlit("webp");
    reveal_strlit("bmp");
    reveal_strlit("svg");
    reveal_strlit("heic");
    reveal_strlit("mp3");
    reveal_strlit("m4a");
    reveal_strlit("aac");
    reveal_strlit("wav");
    reveal_strlit("ogg");
    reveal_strlit("opus");
    reveal_strlit("flac");
    let e = lowered(ext);
    assert(e[0] == 'm' || e[0] == 'a' || e[0] == 'w' || e[0] == 'o' || e[0] == 'f');
    assert(e[0] == 'w' ==> e.len() == 3);
    assert(e != "jpg"@ && e != "jpeg"@ && e != "png"@ && e != "gif"@ && e != "bmp"@ && e != "svg"@
        && e != "heic"@) by {
        if e == "jpg"@ || e == "jpeg"@ {
            assert(e[0] == 'j');
        }
        if e == "png"@ {
            assert(e[0] == 'p');
        }
        if e == "gif"@ {
            assert(e[0] == 'g');
        }
        if e == "bmp"@ {
            assert(e[0] == 'b');
        }
        if e == "svg"@ {
            assert(e[0] == 's');
        }
        if e == "heic"@ {
            assert(e[0] == 'h');
        }
    }
    assert(e != "webp"@) by {
        if e == "webp"@ {
            assert(e.len() == 4);
        }
    }
}

} // verus!
