use vstd::prelude::*;

use crate::client::{
    address_check, chat_deletion_edit_of, chat_deletion_of, chat_info_of, checked_link,
    conversation_feature_edit_of, conversation_features_from, deletion_suffix_of, ensure_ok_of,
    feature_key, profile_preference_set, servers_enabled_set, timed_set, user_servers_of,
    ChatFeature,
};
use crate::codec::{json_text, parsed_json};
use crate::command::SimplexCommand;
use crate::text::has_prefix;
use crate::config::joined;
use crate::json::{Json, JsonView};
use crate::model::{
    active_user_of, chat_messages_of, chats_of, connected_contact_of, features_of, file_update_of,
    invitation_link_of, new_messages_of, profile_and_features_of, profiles_of, reaction_change_of,
    server_entries_of, ChatDeletionSettings, ChatFeatures, ChatRef, EventView, MessageView,
    ServerProtocol, SimplexEvent, User, UserView,
};
use crate::requests::{CallView, CoreCall, CoreReply};
use crate::worker::{
    auto_delete_of, calls_still_allowed, connection_started_of, download_candidate_of,
    expect_kind_of, message_command_of, migration_check_of, replacement_of, reply_kind_of,
    safe_name_of,
};

verus! {

/// What the loop that runs the worker has to do before the current flow can go on.
pub enum Need {
    /// Send this call to the core and hand back its reply.
    Call(CoreCall),
    /// Open the database whose files start with `database_prefix`, with the encryption key
    /// `key`, answering `confirmation` when it asks to migrate; hand back its migration report.
    Open { database_prefix: String, key: String, confirmation: String },
    /// Create the directory `path`, with its parents, readable by its owner alone when
    /// `private`; hand back whether that worked.
    CreateDirectory { path: String, private: bool },
    /// Hand back whether something exists at this path.
    Probe(String),
    /// The flow is over: take the next command or core event.
    Done,
    /// The worker cannot go on and stops.
    Halt,
}

pub enum NeedView {
    Call(CallView),
    Open { database_prefix: Seq<char>, key: Seq<char>, confirmation: Seq<char> },
    CreateDirectory { path: Seq<char>, private: bool },
    Probe(Seq<char>),
    Done,
    Halt,
}

impl DeepView for Need {
    type V = NeedView;

    open spec fn deep_view(&self) -> NeedView {
        match self {
            Need::Call(c) => NeedView::Call(c.deep_view()),
            Need::Open { database_prefix, key, confirmation } => NeedView::Open {
                database_prefix: database_prefix@,
                key: key@,
                confirmation: confirmation@,
            },
            Need::CreateDirectory { path, private } => NeedView::CreateDirectory {
                path: path@,
                private: *private,
            },
            Need::Probe(p) => NeedView::Probe(p@),
            Need::Done => NeedView::Done,
            Need::Halt => NeedView::Halt,
        }
    }
}

/// What the loop hands back once it has done what a flow needed.
pub enum Answer {
    /// The reply to a call, or to the opening of the database, or why there was none.
    Reply(Result<CoreReply, String>),
    /// Whether a directory could be created.
    Created(Result<(), String>),
    /// Whether a path exists.
    Exists(bool),
}

pub struct ReplyView {
    pub value: JsonView,
    pub text: Seq<char>,
}

pub enum AnswerView {
    Reply(Result<ReplyView, Seq<char>>),
    Created(Result<(), Seq<char>>),
    Exists(bool),
}

impl DeepView for CoreReply {
    type V = ReplyView;

    open spec fn deep_view(&self) -> ReplyView {
        ReplyView { value: self.value.deep_view(), text: self.text@ }
    }
}

impl DeepView for Answer {
    type V = AnswerView;

    open spec fn deep_view(&self) -> AnswerView {
        match self {
            Answer::Reply(Ok(r)) => AnswerView::Reply(Ok(r.deep_view())),
            Answer::Reply(Err(e)) => AnswerView::Reply(Err(e@)),
            Answer::Created(Ok(())) => AnswerView::Created(Ok(())),
            Answer::Created(Err(e)) => AnswerView::Created(Err(e@)),
            Answer::Exists(b) => AnswerView::Exists(*b),
        }
    }
}

/// Why a profile is being made ready: at startup, after switching to it, or after creating it.
#[derive(Clone, Copy, Debug, PartialEq, Eq, Structural)]
pub enum Purpose {
    Startup,
    Activate,
    Create,
}

/// How the server list of a profile is to change.
pub enum ServerChange {
    Toggle { protocol: ServerProtocol, address: String, enabled: bool },
    Add { protocol: ServerProtocol, address: String },
}

pub enum ServerChangeView {
    Toggle { protocol: ServerProtocol, address: Seq<char>, enabled: bool },
    Add { protocol: ServerProtocol, address: Seq<char> },
}

impl DeepView for ServerChange {
    type V = ServerChangeView;

    open spec fn deep_view(&self) -> ServerChangeView {
        match self {
            ServerChange::Toggle { protocol, address, enabled } => ServerChangeView::Toggle {
                protocol: *protocol,
                address: address@,
                enabled: *enabled,
            },
            ServerChange::Add { protocol, address } => ServerChangeView::Add {
                protocol: *protocol,
                address: address@,
            },
        }
    }
}

/// Where the worker stands in carrying out a command: each stage waits for one answer.
pub enum Flow {
    Idle,
    Booting { root: String, database_prefix: String },
    Opening,
    BootProfiles,
    BootUser,
    PreludeStart { purpose: Purpose, user: User },
    PreludeTtl { purpose: Purpose, user: User },
    PreludeServers { purpose: Purpose, user: User },
    PreludeProfile { purpose: Purpose, user: User },
    PreludeCalls { purpose: Purpose, user: User, features: ChatFeatures },
    PreludeProfiles { purpose: Purpose, user: User },
    PreludeChats { purpose: Purpose, user: User, profiles: Vec<User> },
    ChatWait { chat_ref: ChatRef },
    MarkRead { chat_ref: ChatRef },
    Sending { chat_ref: ChatRef, text: String },
    Reacting,
    FileDirectory { file_id: i64, directory: String, name: String },
    FileProbe { file_id: i64, directory: String, name: String, number: u32 },
    FileReceive { file_id: i64, path: String },
    Cancelling { file_id: i64 },
    Activating,
    Creating,
    DeleteUsers { user_id: i64 },
    DeleteSwitch { user_id: i64 },
    Deleting,
    DeletedUsers,
    DeletedActive { profiles: Vec<User> },
    DeletedChats { profiles: Vec<User>, user: User },
    AutoProfile { user_id: i64, seconds: i64 },
    AutoSave { user_id: i64, seconds: i64 },
    AutoTtl { seconds: i64 },
    DeletionLoad { chat_ref: ChatRef },
    DeletionEdit { user_id: i64, chat_ref: ChatRef, seconds: Option<i64> },
    DeletionSave { user_id: i64, chat_ref: ChatRef, seconds: Option<i64>, direct: bool },
    DeletionTtl { chat_ref: ChatRef },
    DeletionReload { chat_ref: ChatRef },
    FeaturesChat { chat_ref: ChatRef, changed: bool },
    FeaturesDefaults { chat_ref: ChatRef, chat: Json, changed: bool },
    FeatureEdit { chat_ref: ChatRef, feature: ChatFeature, enabled: bool },
    FeatureSave { chat_ref: ChatRef, direct: bool },
    ChatDeleting { user_id: i64, chat_ref: ChatRef },
    ChatDeletedList { chat_ref: ChatRef },
    Inviting,
    Connecting,
    ChatFeatureProfile { user_id: i64, feature: ChatFeature, enabled: bool },
    ChatFeatureSave { features: ChatFeatures },
    ServersFetch { user_id: i64, change: ServerChange },
    ServersSave { user_id: i64 },
    ServersReload,
    ContactChats { chat_ref: ChatRef, value: Json },
}

pub enum FlowView {
    Idle,
    Booting { root: Seq<char>, database_prefix: Seq<char> },
    Opening,
    BootProfiles,
    BootUser,
    PreludeStart { purpose: Purpose, user: UserView },
    PreludeTtl { purpose: Purpose, user: UserView },
    PreludeServers { purpose: Purpose, user: UserView },
    PreludeProfile { purpose: Purpose, user: UserView },
    PreludeCalls { purpose: Purpose, user: UserView, features: ChatFeatures },
    PreludeProfiles { purpose: Purpose, user: UserView },
    PreludeChats { purpose: Purpose, user: UserView, profiles: Seq<UserView> },
    ChatWait { chat_ref: Seq<char> },
    MarkRead { chat_ref: Seq<char> },
    Sending { chat_ref: Seq<char>, text: Seq<char> },
    Reacting,
    FileDirectory { file_id: i64, directory: Seq<char>, name: Seq<char> },
    FileProbe { file_id: i64, directory: Seq<char>, name: Seq<char>, number: u32 },
    FileReceive { file_id: i64, path: Seq<char> },
    Cancelling { file_id: i64 },
    Activating,
    Creating,
    DeleteUsers { user_id: i64 },
    DeleteSwitch { user_id: i64 },
    Deleting,
    DeletedUsers,
    DeletedActive { profiles: Seq<UserView> },
    DeletedChats { profiles: Seq<UserView>, user: UserView },
    AutoProfile { user_id: i64, seconds: i64 },
    AutoSave { user_id: i64, seconds: i64 },
    AutoTtl { seconds: i64 },
    DeletionLoad { chat_ref: Seq<char> },
    DeletionEdit { user_id: i64, chat_ref: Seq<char>, seconds: Option<i64> },
    DeletionSave { user_id: i64, chat_ref: Seq<char>, seconds: Option<i64>, direct: bool },
    DeletionTtl { chat_ref: Seq<char> },
    DeletionReload { chat_ref: Seq<char> },
    FeaturesChat { chat_ref: Seq<char>, changed: bool },
    FeaturesDefaults { chat_ref: Seq<char>, chat: JsonView, changed: bool },
    FeatureEdit { chat_ref: Seq<char>, feature: ChatFeature, enabled: bool },
    FeatureSave { chat_ref: Seq<char>, direct: bool },
    ChatDeleting { user_id: i64, chat_ref: Seq<char> },
    ChatDeletedList { chat_ref: Seq<char> },
    Inviting,
    Connecting,
    ChatFeatureProfile { user_id: i64, feature: ChatFeature, enabled: bool },
    ChatFeatureSave { features: ChatFeatures },
    ServersFetch { user_id: i64, change: ServerChangeView },
    ServersSave { user_id: i64 },
    ServersReload,
    ContactChats { chat_ref: Seq<char>, value: JsonView },
}

impl DeepView for Flow {
    type V = FlowView;

    open spec fn deep_view(&self) -> FlowView {
        match self {
            Flow::Idle => FlowView::Idle,
            Flow::Booting { root, database_prefix } => FlowView::Booting {
                root: root@,
                database_prefix: database_prefix@,
            },
            Flow::Opening => FlowView::Opening,
            Flow::BootProfiles => FlowView::BootProfiles,
            Flow::BootUser => FlowView::BootUser,
            Flow::PreludeStart { purpose, user } => FlowView::PreludeStart {
                purpose: *purpose,
                user: user.deep_view(),
            },
            Flow::PreludeTtl { purpose, user } => FlowView::PreludeTtl {
                purpose: *purpose,
                user: user.deep_view(),
            },
            Flow::PreludeServers { purpose, user } => FlowView::PreludeServers {
                purpose: *purpose,
                user: user.deep_view(),
            },
            Flow::PreludeProfile { purpose, user } => FlowView::PreludeProfile {
                purpose: *purpose,
                user: user.deep_view(),
            },
            Flow::PreludeCalls { purpose, user, features } => FlowView::PreludeCalls {
                purpose: *purpose,
                user: user.deep_view(),
                features: *features,
            },
            Flow::PreludeProfiles { purpose, user } => FlowView::PreludeProfiles {
                purpose: *purpose,
                user: user.deep_view(),
            },
            Flow::PreludeChats { purpose, user, profiles } => FlowView::PreludeChats {
                purpose: *purpose,
                user: user.deep_view(),
                profiles: profiles.deep_view(),
            },
            Flow::ChatWait { chat_ref } => FlowView::ChatWait { chat_ref: chat_ref.0@ },
            Flow::MarkRead { chat_ref } => FlowView::MarkRead { chat_ref: chat_ref.0@ },
            Flow::Sending { chat_ref, text } => FlowView::Sending { chat_ref: chat_ref.0@, text: text@ },
            Flow::Reacting => FlowView::Reacting,
            Flow::FileDirectory { file_id, directory, name } => FlowView::FileDirectory {
                file_id: *file_id,
                directory: directory@,
                name: name@,
            },
            Flow::FileProbe { file_id, directory, name, number } => FlowView::FileProbe {
                file_id: *file_id,
                directory: directory@,
                name: name@,
                number: *number,
            },
            Flow::FileReceive { file_id, path } => FlowView::FileReceive { file_id: *file_id, path: path@ },
            Flow::Cancelling { file_id } => FlowView::Cancelling { file_id: *file_id },
            Flow::Activating => FlowView::Activating,
            Flow::Creating => FlowView::Creating,
            Flow::DeleteUsers { user_id } => FlowView::DeleteUsers { user_id: *user_id },
            Flow::DeleteSwitch { user_id } => FlowView::DeleteSwitch { user_id: *user_id },
            Flow::Deleting => FlowView::Deleting,
            Flow::DeletedUsers => FlowView::DeletedUsers,
            Flow::DeletedActive { profiles } => FlowView::DeletedActive { profiles: profiles.deep_view() },
            Flow::DeletedChats { profiles, user } => FlowView::DeletedChats {
                profiles: profiles.deep_view(),
                user: user.deep_view(),
            },
            Flow::AutoProfile { user_id, seconds } => FlowView::AutoProfile {
                user_id: *user_id,
                seconds: *seconds,
            },
            Flow::AutoSave { user_id, seconds } => FlowView::AutoSave { user_id: *user_id, seconds: *seconds },
            Flow::AutoTtl { seconds } => FlowView::AutoTtl { seconds: *seconds },
            Flow::DeletionLoad { chat_ref } => FlowView::DeletionLoad { chat_ref: chat_ref.0@ },
            Flow::DeletionEdit { user_id, chat_ref, seconds } => FlowView::DeletionEdit {
                user_id: *user_id,
                chat_ref: chat_ref.0@,
                seconds: *seconds,
            },
            Flow::DeletionSave { user_id, chat_ref, seconds, direct } => FlowView::DeletionSave {
                user_id: *user_id,
                chat_ref: chat_ref.0@,
                seconds: *seconds,
                direct: *direct,
            },
            Flow::DeletionTtl { chat_ref } => FlowView::DeletionTtl { chat_ref: chat_ref.0@ },
            Flow::DeletionReload { chat_ref } => FlowView::DeletionReload { chat_ref: chat_ref.0@ },
            Flow::FeaturesChat { chat_ref, changed } => FlowView::FeaturesChat {
                chat_ref: chat_ref.0@,
                changed: *changed,
            },
            Flow::FeaturesDefaults { chat_ref, chat, changed } => FlowView::FeaturesDefaults {
                chat_ref: chat_ref.0@,
                chat: chat.deep_view(),
                changed: *changed,
            },
            Flow::FeatureEdit { chat_ref, feature, enabled } => FlowView::FeatureEdit {
                chat_ref: chat_ref.0@,
                feature: *feature,
                enabled: *enabled,
            },
            Flow::FeatureSave { chat_ref, direct } => FlowView::FeatureSave {
                chat_ref: chat_ref.0@,
                direct: *direct,
            },
            Flow::ChatDeleting { user_id, chat_ref } => FlowView::ChatDeleting {
                user_id: *user_id,
                chat_ref: chat_ref.0@,
            },
            Flow::ChatDeletedList { chat_ref } => FlowView::ChatDeletedList { chat_ref: chat_ref.0@ },
            Flow::Inviting => FlowView::Inviting,
            Flow::Connecting => FlowView::Connecting,
            Flow::ChatFeatureProfile { user_id, feature, enabled } => FlowView::ChatFeatureProfile {
                user_id: *user_id,
                feature: *feature,
                enabled: *enabled,
            },
            Flow::ChatFeatureSave { features } => FlowView::ChatFeatureSave { features: *features },
            Flow::ServersFetch { user_id, change } => FlowView::ServersFetch {
                user_id: *user_id,
                change: change.deep_view(),
            },
            Flow::ServersSave { user_id } => FlowView::ServersSave { user_id: *user_id },
            Flow::ServersReload => FlowView::ServersReload,
            Flow::ContactChats { chat_ref, value } => FlowView::ContactChats {
                chat_ref: chat_ref.0@,
                value: value.deep_view(),
            },
        }
    }
}

/// One move of the worker: the stage it goes on in, the events it reports now, and what it
/// needs next.
pub struct Step {
    pub flow: Flow,
    pub events: Vec<SimplexEvent>,
    pub need: Need,
}

pub struct StepView {
    pub flow: FlowView,
    pub events: Seq<EventView>,
    pub need: NeedView,
}

impl DeepView for Step {
    type V = StepView;

    open spec fn deep_view(&self) -> StepView {
        StepView {
            flow: self.flow.deep_view(),
            events: self.events.deep_view(),
            need: self.need.deep_view(),
        }
    }
}

/// A flow that ends after reporting `events`.
pub open spec fn done(events: Seq<EventView>) -> StepView {
    StepView { flow: FlowView::Idle, events, need: NeedView::Done }
}

/// The worker reports `error` and stops.
pub open spec fn halt(error: Seq<char>) -> StepView {
    StepView { flow: FlowView::Idle, events: seq![EventView::Failed(error)], need: NeedView::Halt }
}

/// A flow that reports `events` and goes on in `flow` once `call` is answered.
pub open spec fn ask(flow: FlowView, events: Seq<EventView>, call: CallView) -> StepView {
    StepView { flow, events, need: NeedView::Call(call) }
}

/// What the worker does when handed an answer that its flow did not ask for.
pub open spec fn unexpected() -> StepView {
    halt("the worker was handed an answer it did not ask for"@)
}

/// The events that report messages that arrived.
pub open spec fn received(items: Seq<(Seq<char>, MessageView)>) -> Seq<EventView> {
    items.map_values(|p: (Seq<char>, MessageView)| EventView::MessageReceived { chat_ref: p.0, message: p.1 })
}

/// The event that reports a changed file transfer, if there is one.
pub open spec fn updated(change: Option<(Seq<char>, MessageView)>) -> Seq<EventView> {
    match change {
        Some((k, m)) => seq![EventView::FileUpdated { chat_ref: k, message: m }],
        None => seq![],
    }
}

/// The event that reports a changed reaction, if there is one.
pub open spec fn reacted(change: Option<(Seq<char>, i64, Seq<char>, bool, bool)>) -> Seq<EventView> {
    match change {
        Some((k, i, e, a, u)) => seq![
            EventView::ReactionChanged { chat_ref: k, item_id: i, emoji: e, added: a, user_reacted: u },
        ],
        None => seq![],
    }
}

/// How a flow ends when one of its steps fails with `e`.
pub open spec fn failed_in(flow: FlowView, e: Seq<char>) -> StepView {
    match flow {
        FlowView::PreludeStart { purpose, .. }
        | FlowView::PreludeTtl { purpose, .. }
        | FlowView::PreludeServers { purpose, .. }
        | FlowView::PreludeProfile { purpose, .. }
        | FlowView::PreludeCalls { purpose, .. }
        | FlowView::PreludeProfiles { purpose, .. }
        | FlowView::PreludeChats { purpose, .. } => if purpose == Purpose::Startup {
            halt(e)
        } else {
            done(seq![EventView::Failed(e)])
        },
        FlowView::ChatWait { chat_ref } => done(seq![EventView::ChatLoadFailed { chat_ref, error: e }]),
        FlowView::Sending { chat_ref, .. } => done(seq![EventView::MessageSendFailed { chat_ref, error: e }]),
        FlowView::FileReceive { file_id, .. } | FlowView::Cancelling { file_id } => done(
            seq![EventView::FileDownloadFailed { file_id, error: e }],
        ),
        FlowView::Activating | FlowView::Creating => done(seq![EventView::Failed(e)]),
        FlowView::DeleteUsers { .. }
        | FlowView::DeleteSwitch { .. }
        | FlowView::Deleting
        | FlowView::DeletedUsers
        | FlowView::DeletedActive { .. }
        | FlowView::DeletedChats { .. } => done(seq![EventView::ProfileDeleteFailed(e)]),
        FlowView::AutoProfile { .. } | FlowView::AutoSave { .. } | FlowView::AutoTtl { .. } => done(
            seq![EventView::AutoDeleteFailed(e)],
        ),
        FlowView::DeletionLoad { .. }
        | FlowView::DeletionEdit { .. }
        | FlowView::DeletionSave { .. }
        | FlowView::DeletionTtl { .. }
        | FlowView::DeletionReload { .. } => done(seq![EventView::ChatDeletionFailed(e)]),
        FlowView::FeaturesChat { .. }
        | FlowView::FeaturesDefaults { .. }
        | FlowView::FeatureEdit { .. }
        | FlowView::FeatureSave { .. } => done(seq![EventView::ConversationFeaturesFailed(e)]),
        FlowView::ChatDeleting { .. } | FlowView::ChatDeletedList { .. } => done(
            seq![EventView::ChatDeleteFailed(e)],
        ),
        FlowView::Inviting => done(seq![EventView::InvitationFailed(e)]),
        FlowView::Connecting => done(seq![EventView::ConnectionFailed(e)]),
        FlowView::ChatFeatureProfile { .. } | FlowView::ChatFeatureSave { .. } => done(
            seq![EventView::SettingChanged("Could not update chat feature: "@ + e)],
        ),
        FlowView::ServersFetch { .. } | FlowView::ServersSave { .. } | FlowView::ServersReload => done(
            seq![EventView::ServersUpdateFailed(e)],
        ),
        _ => halt(e),
    }
}

/// How the worker starts: it makes the data directory, then opens the database inside it.
pub open spec fn boot_of(data_directory: Seq<char>) -> StepView {
    StepView {
        flow: FlowView::Booting {
            root: data_directory,
            database_prefix: joined(data_directory, "simplex"@),
        },
        events: seq![],
        need: NeedView::CreateDirectory { path: data_directory, private: true },
    }
}

/// The first move of a command; downloads go into `directory`.
pub open spec fn start_of(command: SimplexCommand, directory: Seq<char>) -> StepView {
    match command {
        SimplexCommand::LoadChat(k) => ask(
            FlowView::ChatWait { chat_ref: k.0@ },
            seq![],
            CallView::LoadChat { chat_ref: k.0@, count: 100 },
        ),
        SimplexCommand::MarkChatRead(k) => ask(
            FlowView::MarkRead { chat_ref: k.0@ },
            seq![],
            CallView::ReadChat { chat_ref: k.0@ },
        ),
        SimplexCommand::SendMessage { chat_ref, text } => match message_command_of(chat_ref.0@, text@) {
            None => done(
                seq![
                    EventView::MessageSendFailed {
                        chat_ref: chat_ref.0@,
                        error: "messages cannot be sent to this chat type"@,
                    },
                ],
            ),
            Some(c) => ask(
                FlowView::Sending { chat_ref: chat_ref.0@, text: text@ },
                seq![],
                CallView::Send { command: c },
            ),
        },
        SimplexCommand::SendReaction { chat_ref, item_id, emoji } => ask(
            FlowView::Reacting,
            seq![],
            CallView::SendReaction { chat_ref: chat_ref.0@, item_id, emoji: emoji@ },
        ),
        SimplexCommand::ReceiveFile { file_id, file_name } => StepView {
            flow: FlowView::FileDirectory {
                file_id,
                directory,
                name: safe_name_of(file_name@),
            },
            events: seq![],
            need: NeedView::CreateDirectory { path: directory, private: false },
        },
        SimplexCommand::CancelFile { file_id } => ask(
            FlowView::Cancelling { file_id },
            seq![],
            CallView::CancelFile { file_id },
        ),
        SimplexCommand::ActivateProfile(user_id) => ask(
            FlowView::Activating,
            seq![],
            CallView::ActivateUser { user_id },
        ),
        SimplexCommand::CreateProfile(name) => ask(
            FlowView::Creating,
            seq![],
            CallView::CreateUser { display_name: name@ },
        ),
        SimplexCommand::DeleteProfile(user_id) => ask(
            FlowView::DeleteUsers { user_id },
            seq![],
            CallView::Users,
        ),
        SimplexCommand::SetAutoDelete { user_id, seconds } => ask(
            FlowView::AutoProfile { user_id, seconds },
            seq![],
            CallView::Profile,
        ),
        SimplexCommand::LoadChatDeletion { chat_ref } => ask(
            FlowView::DeletionLoad { chat_ref: chat_ref.0@ },
            seq![],
            CallView::LoadChat { chat_ref: chat_ref.0@, count: 1 },
        ),
        SimplexCommand::SetChatDeletion { user_id, chat_ref, seconds } => ask(
            FlowView::DeletionEdit { user_id, chat_ref: chat_ref.0@, seconds },
            seq![],
            CallView::LoadChat { chat_ref: chat_ref.0@, count: 1 },
        ),
        SimplexCommand::LoadConversationFeatures { chat_ref } => ask(
            FlowView::FeaturesChat { chat_ref: chat_ref.0@, changed: false },
            seq![],
            CallView::LoadChat { chat_ref: chat_ref.0@, count: 1 },
        ),
        SimplexCommand::SetConversationFeature { chat_ref, feature, enabled } => ask(
            FlowView::FeatureEdit { chat_ref: chat_ref.0@, feature, enabled },
            seq![],
            CallView::LoadChat { chat_ref: chat_ref.0@, count: 1 },
        ),
        SimplexCommand::DeleteChat { user_id, chat_ref, mode } => match deletion_suffix_of(chat_ref.0@, mode) {
            Err(e) => done(seq![EventView::ChatDeleteFailed(e)]),
            Ok(suffix) => ask(
                FlowView::ChatDeleting { user_id, chat_ref: chat_ref.0@ },
                seq![],
                CallView::DeleteChat { chat_ref: chat_ref.0@, suffix },
            ),
        },
        SimplexCommand::CreateInvitation { user_id } => ask(
            FlowView::Inviting,
            seq![],
            CallView::CreateInvitation { user_id },
        ),
        SimplexCommand::ConnectInvitation { user_id, link } => match checked_link(link@) {
            Err(e) => done(seq![EventView::ConnectionFailed(e)]),
            Ok(l) => ask(FlowView::Connecting, seq![], CallView::Connect { user_id, link: l }),
        },
        SimplexCommand::SetChatFeature { user_id, feature, enabled } => ask(
            FlowView::ChatFeatureProfile { user_id, feature, enabled },
            seq![],
            CallView::Profile,
        ),
        SimplexCommand::SetServerEnabled { user_id, protocol, address, enabled } => ask(
            FlowView::ServersFetch {
                user_id,
                change: ServerChangeView::Toggle { protocol, address: address@, enabled },
            },
            seq![],
            CallView::Servers { user_id },
        ),
        SimplexCommand::AddServer { user_id, protocol, address } => match address_check(protocol, address@) {
            Err(e) => done(seq![EventView::ServersUpdateFailed(e)]),
            Ok(_) => ask(
                FlowView::ServersFetch {
                    user_id,
                    change: ServerChangeView::Add { protocol, address: address@ },
                },
                seq![],
                CallView::Servers { user_id },
            ),
        },
    }
}

/// What the worker does with an event that the core sent on its own.
/// The message by which a text of the core that is not JSON is reported.
pub open spec fn invalid_json(error: Seq<char>) -> Seq<char> {
    "SimpleX returned invalid JSON: "@ + error
}

/// The reply that the core's `text` stands for: the document read from it, with the text
/// `serde_json` writes for that document.
pub open spec fn reply_of(text: Seq<char>) -> Result<ReplyView, Seq<char>> {
    match parsed_json(text) {
        Ok(doc) => Ok(ReplyView { value: doc, text: json_text(doc) }),
        Err(error) => Err(invalid_json(error)),
    }
}

/// What the worker does with `text`, an event that the core sent on its own: the event's
/// document is handled, and a text that is not JSON stops the worker.
pub open spec fn received_text_of(text: Seq<char>) -> StepView {
    match parsed_json(text) {
        Ok(doc) => incoming_of(doc),
        Err(error) => halt(invalid_json(error)),
    }
}

pub open spec fn incoming_of(value: JsonView) -> StepView {
    let head = reacted(reaction_change_of(value)) + updated(file_update_of(value));
    match connected_contact_of(value) {
        Some((user_id, k)) => ask(FlowView::ContactChats { chat_ref: k, value }, head, CallView::Chats { user_id }),
        None => done(head + received(new_messages_of(value))),
    }
}

/// The event that ends a prelude, once the chats of the profile are known.
pub open spec fn prelude_end(
    purpose: Purpose,
    user: UserView,
    profiles: Seq<UserView>,
    chats: Seq<crate::model::ChatSummaryView>,
) -> EventView {
    match purpose {
        Purpose::Startup => EventView::Ready { user, chats },
        Purpose::Activate => EventView::ProfileActivated { user, chats },
        Purpose::Create => EventView::ProfileCreated { user, profiles, chats },
    }
}

/// The move after the chat features of a profile were reported: a new profile also reloads
/// the list of profiles before its chats.
pub open spec fn features_known(purpose: Purpose, user: UserView, features: ChatFeatures) -> StepView {
    if purpose == Purpose::Create {
        ask(
            FlowView::PreludeProfiles { purpose, user },
            seq![EventView::ChatFeaturesLoaded(features)],
            CallView::Users,
        )
    } else {
        ask(
            FlowView::PreludeChats { purpose, user, profiles: seq![] },
            seq![EventView::ChatFeaturesLoaded(features)],
            CallView::Chats { user_id: user.id },
        )
    }
}

/// The move of a prelude or a startup stage once its call was answered with `r`.
pub open spec fn boot_reply(flow: FlowView, r: ReplyView) -> StepView {
    let v = r.value;
    match flow {
        FlowView::Opening => match migration_check_of(v, r.text) {
            Err(e) => halt(e),
            Ok(_) => ask(FlowView::BootProfiles, seq![], CallView::Users),
        },
        FlowView::BootProfiles => match profiles_of(v) {
            Err(e) => halt(e),
            Ok(ps) => ask(FlowView::BootUser, seq![EventView::ProfilesLoaded(ps)], CallView::ActiveUser),
        },
        FlowView::BootUser => match active_user_of(v) {
            Err(e) => halt(e),
            Ok(None) => done(seq![EventView::NoActiveUser]),
            Ok(Some(u)) => ask(FlowView::PreludeStart { purpose: Purpose::Startup, user: u }, seq![], CallView::Start),
        },
        FlowView::PreludeStart { purpose, user } => ask(
            FlowView::PreludeTtl { purpose, user },
            seq![],
            CallView::GlobalTtl { user_id: user.id },
        ),
        FlowView::PreludeTtl { purpose, user } => ask(
            FlowView::PreludeServers { purpose, user },
            seq![EventView::AutoDeleteLoaded(auto_delete_of(v))],
            CallView::Servers { user_id: user.id },
        ),
        FlowView::PreludeServers { purpose, user } => match server_entries_of(v) {
            Err(e) => failed_in(flow, e),
            Ok(s) => ask(
                FlowView::PreludeProfile { purpose, user },
                seq![EventView::ServersLoaded(s)],
                CallView::Profile,
            ),
        },
        FlowView::PreludeProfile { purpose, user } => match profile_and_features_of(v) {
            Err(e) => failed_in(flow, e),
            Ok((profile, features)) => if calls_still_allowed(profile) {
                match profile_preference_set(profile, "calls"@, false) {
                    Err(e) => failed_in(flow, e),
                    Ok(p) => ask(
                        FlowView::PreludeCalls { purpose, user, features },
                        seq![],
                        CallView::UpdateProfile { user_id: user.id, profile: p },
                    ),
                }
            } else {
                features_known(purpose, user, features)
            },
        },
        FlowView::PreludeCalls { purpose, user, features } => match ensure_ok_of(v, r.text, "chat preferences"@) {
            Err(e) => failed_in(flow, e),
            Ok(_) => features_known(purpose, user, features),
        },
        FlowView::PreludeProfiles { purpose, user } => match profiles_of(v) {
            Err(e) => failed_in(flow, e),
            Ok(ps) => ask(
                FlowView::PreludeChats { purpose, user, profiles: ps },
                seq![],
                CallView::Chats { user_id: user.id },
            ),
        },
        FlowView::PreludeChats { purpose, user, profiles } => match chats_of(v) {
            Err(e) => failed_in(flow, e),
            Ok(cs) => done(seq![prelude_end(purpose, user, profiles, cs)]),
        },
        _ => unexpected(),
    }
}

/// The move of a chat, message or file flow once its call was answered with `r`.
pub open spec fn chat_reply(flow: FlowView, r: ReplyView) -> StepView {
    let v = r.value;
    match flow {
        FlowView::ChatWait { chat_ref } => match chat_messages_of(v) {
            Err(e) => failed_in(flow, e),
            Ok((k, ms)) => ask(
                FlowView::MarkRead { chat_ref },
                seq![EventView::ChatLoaded { chat_ref: k, messages: ms }],
                CallView::ReadChat { chat_ref },
            ),
        },
        FlowView::MarkRead { chat_ref } => match ensure_ok_of(v, r.text, "mark chat as read"@) {
            Err(e) => failed_in(flow, e),
            Ok(_) => done(seq![EventView::ChatMarkedRead(chat_ref)]),
        },
        FlowView::Sending { chat_ref, text } => if reply_kind_of(v) == Some("newChatItems"@) {
            done(received(new_messages_of(v)).push(EventView::MessageSent { chat_ref, text }))
        } else {
            done(seq![EventView::MessageSendFailed { chat_ref, error: "send failed: "@ + r.text }])
        },
        FlowView::Reacting => done(reacted(reaction_change_of(v))),
        FlowView::FileReceive { file_id, path } => match expect_kind_of(
            v,
            r.text,
            "rcvFileAccepted"@,
            "file download was not accepted: "@,
        ) {
            Err(e) => failed_in(flow, e),
            Ok(_) => done(seq![EventView::FileDownloadStarted { file_id, path }] + updated(file_update_of(v))),
        },
        FlowView::Cancelling { file_id } => match expect_kind_of(
            v,
            r.text,
            "rcvFileCancelled"@,
            "file download was not cancelled: "@,
        ) {
            Err(e) => failed_in(flow, e),
            Ok(_) => done(seq![EventView::FileDownloadCancelled { file_id }] + updated(file_update_of(v))),
        },
        FlowView::ContactChats { chat_ref, value } => match chats_of(v) {
            Err(e) => failed_in(flow, e),
            Ok(cs) => done(
                seq![EventView::ContactConnected { chats: cs, chat_ref }] + received(new_messages_of(value)),
            ),
        },
        _ => unexpected(),
    }
}

/// The move of a profile flow once its call was answered with `r`.
pub open spec fn profile_reply(flow: FlowView, r: ReplyView) -> StepView {
    let v = r.value;
    match flow {
        FlowView::Activating => match active_user_of(v) {
            Err(e) => failed_in(flow, e),
            Ok(None) => failed_in(flow, "SimpleX did not activate the selected profile"@),
            Ok(Some(u)) => ask(FlowView::PreludeStart { purpose: Purpose::Activate, user: u }, seq![], CallView::Start),
        },
        FlowView::Creating => match active_user_of(v) {
            Err(e) => failed_in(flow, e),
            Ok(None) => failed_in(flow, "SimpleX did not create the profile"@),
            Ok(Some(u)) => ask(FlowView::PreludeStart { purpose: Purpose::Create, user: u }, seq![], CallView::Start),
        },
        FlowView::DeleteUsers { user_id } => match profiles_of(v) {
            Err(e) => failed_in(flow, e),
            Ok(ps) => match replacement_of(ps, user_id) {
                Some(other) => ask(FlowView::DeleteSwitch { user_id }, seq![], CallView::ActivateUser { user_id: other }),
                None => ask(FlowView::Deleting, seq![], CallView::DeleteUser { user_id }),
            },
        },
        FlowView::DeleteSwitch { user_id } => match active_user_of(v) {
            Err(e) => failed_in(flow, e),
            Ok(None) => failed_in(flow, "SimpleX did not activate the replacement profile"@),
            Ok(Some(_)) => ask(FlowView::Deleting, seq![], CallView::DeleteUser { user_id }),
        },
        FlowView::Deleting => match ensure_ok_of(v, r.text, "profile deletion"@) {
            Err(e) => failed_in(flow, e),
            Ok(_) => ask(FlowView::DeletedUsers, seq![], CallView::Users),
        },
        FlowView::DeletedUsers => match profiles_of(v) {
            Err(e) => failed_in(flow, e),
            Ok(ps) => ask(FlowView::DeletedActive { profiles: ps }, seq![], CallView::ActiveUser),
        },
        FlowView::DeletedActive { profiles } => match active_user_of(v) {
            Err(e) => failed_in(flow, e),
            Ok(None) => done(
                seq![EventView::ProfileDeleted { profiles, active_user: None, chats: seq![] }],
            ),
            Ok(Some(u)) => ask(FlowView::DeletedChats { profiles, user: u }, seq![], CallView::Chats { user_id: u.id }),
        },
        FlowView::DeletedChats { profiles, user } => match chats_of(v) {
            Err(e) => failed_in(flow, e),
            Ok(cs) => done(
                seq![EventView::ProfileDeleted { profiles, active_user: Some(user), chats: cs }],
            ),
        },
        FlowView::AutoProfile { user_id, seconds } => match profile_and_features_of(v) {
            Err(e) => failed_in(flow, e),
            Ok((profile, _)) => match timed_set(profile, Some(seconds)) {
                Err(e) => failed_in(flow, e),
                Ok(p) => match profile_preference_set(p, "calls"@, false) {
                    Err(e) => failed_in(flow, e),
                    Ok(p2) => ask(
                        FlowView::AutoSave { user_id, seconds },
                        seq![],
                        CallView::UpdateProfile { user_id, profile: p2 },
                    ),
                },
            },
        },
        FlowView::AutoSave { user_id, seconds } => match ensure_ok_of(v, r.text, "chat preferences"@) {
            Err(e) => failed_in(flow, e),
            Ok(_) => ask(FlowView::AutoTtl { seconds }, seq![], CallView::SetGlobalTtl { user_id, seconds }),
        },
        FlowView::AutoTtl { seconds } => match ensure_ok_of(v, r.text, "automatic deletion"@) {
            Err(e) => failed_in(flow, e),
            Ok(_) => done(seq![EventView::AutoDeleteChanged(seconds)]),
        },
        FlowView::ChatFeatureProfile { user_id, feature, enabled } => match profile_and_features_of(v) {
            Err(e) => failed_in(flow, e),
            Ok((profile, _)) => match profile_preference_set(profile, feature_key(feature), enabled) {
                Err(e) => failed_in(flow, e),
                Ok(p) => match profile_preference_set(p, "calls"@, false) {
                    Err(e) => failed_in(flow, e),
                    Ok(p2) => ask(
                        FlowView::ChatFeatureSave { features: features_of(p2) },
                        seq![],
                        CallView::UpdateProfile { user_id, profile: p2 },
                    ),
                },
            },
        },
        FlowView::ChatFeatureSave { features } => match ensure_ok_of(v, r.text, "chat preferences"@) {
            Err(e) => failed_in(flow, e),
            Ok(_) => done(
                seq![EventView::ChatFeaturesLoaded(features), EventView::SettingChanged("Chat feature updated"@)],
            ),
        },
        _ => unexpected(),
    }
}

/// The call that saves an edited contact preference or group profile.
pub open spec fn edit_call(chat_ref: Seq<char>, direct: bool, document: JsonView) -> CallView {
    if direct {
        CallView::SetContactPreferences { chat_ref, preferences: document }
    } else {
        CallView::SetGroupProfile { chat_ref, profile: document }
    }
}

/// The move of a conversation-settings or server flow once its call was answered with `r`.
pub open spec fn settings_reply(flow: FlowView, r: ReplyView) -> StepView {
    let v = r.value;
    match flow {
        FlowView::DeletionLoad { chat_ref } => match chat_deletion_of(v) {
            Err(e) => failed_in(flow, e),
            Ok(s) => done(seq![EventView::ChatDeletionLoaded { chat_ref, settings: s }]),
        },
        FlowView::DeletionEdit { user_id, chat_ref, seconds } => match chat_deletion_edit_of(v, seconds) {
            Err(e) => failed_in(flow, e),
            Ok((direct, document)) => ask(
                FlowView::DeletionSave { user_id, chat_ref, seconds, direct },
                seq![],
                edit_call(chat_ref, direct, document),
            ),
        },
        FlowView::DeletionSave { user_id, chat_ref, seconds, direct } => match ensure_ok_of(
            v,
            r.text,
            if direct {
                "contact disappearing messages"@
            } else {
                "group disappearing messages"@
            },
        ) {
            Err(e) => failed_in(flow, e),
            Ok(_) => ask(
                FlowView::DeletionTtl { chat_ref },
                seq![],
                CallView::SetChatTtl { user_id, chat_ref, seconds },
            ),
        },
        FlowView::DeletionTtl { chat_ref } => match ensure_ok_of(v, r.text, "local chat deletion"@) {
            Err(e) => failed_in(flow, e),
            Ok(_) => ask(
                FlowView::DeletionReload { chat_ref },
                seq![],
                CallView::LoadChat { chat_ref, count: 1 },
            ),
        },
        FlowView::DeletionReload { chat_ref } => match chat_deletion_of(v) {
            Err(e) => failed_in(flow, e),
            Ok(s) => done(seq![EventView::ChatDeletionChanged { chat_ref, settings: s }]),
        },
        FlowView::FeaturesChat { chat_ref, changed } => match chat_info_of(v) {
            None => failed_in(flow, "chat response has no chatInfo"@),
            Some(_) => ask(FlowView::FeaturesDefaults { chat_ref, chat: v, changed }, seq![], CallView::Profile),
        },
        FlowView::FeaturesDefaults { chat_ref, chat, changed } => match profile_and_features_of(v) {
            Err(e) => failed_in(flow, e),
            Ok((_, defaults)) => match conversation_features_from(chat, defaults) {
                Err(e) => failed_in(flow, e),
                Ok(f) => done(
                    seq![
                        if changed {
                            EventView::ConversationFeaturesChanged { chat_ref, features: f }
                        } else {
                            EventView::ConversationFeaturesLoaded { chat_ref, features: f }
                        },
                    ],
                ),
            },
        },
        FlowView::FeatureEdit { chat_ref, feature, enabled } => match conversation_feature_edit_of(
            v,
            feature_key(feature),
            enabled,
        ) {
            Err(e) => failed_in(flow, e),
            Ok((direct, document)) => ask(
                FlowView::FeatureSave { chat_ref, direct },
                seq![],
                edit_call(chat_ref, direct, document),
            ),
        },
        FlowView::FeatureSave { chat_ref, direct } => match ensure_ok_of(
            v,
            r.text,
            if direct {
                "contact feature"@
            } else {
                "group feature"@
            },
        ) {
            Err(e) => failed_in(flow, e),
            Ok(_) => ask(
                FlowView::FeaturesChat { chat_ref, changed: true },
                seq![],
                CallView::LoadChat { chat_ref, count: 1 },
            ),
        },
        FlowView::ChatDeleting { user_id, chat_ref } => match ensure_ok_of(v, r.text, "chat deletion"@) {
            Err(e) => failed_in(flow, e),
            Ok(_) => ask(FlowView::ChatDeletedList { chat_ref }, seq![], CallView::Chats { user_id }),
        },
        FlowView::ChatDeletedList { chat_ref } => match chats_of(v) {
            Err(e) => failed_in(flow, e),
            Ok(cs) => done(seq![EventView::ChatDeleted { chat_ref, chats: cs }]),
        },
        FlowView::Inviting => match invitation_link_of(v) {
            Err(e) => failed_in(flow, e),
            Ok(l) => done(seq![EventView::InvitationCreated(l)]),
        },
        FlowView::Connecting => match connection_started_of(v) {
            Err(e) => failed_in(flow, e),
            Ok(_) => done(seq![EventView::ConnectionStarted]),
        },
        FlowView::ServersFetch { user_id, change } => match user_servers_of(v, r.text) {
            Err(e) => failed_in(flow, e),
            Ok(groups) => match (match change {
                ServerChangeView::Toggle { protocol, address, enabled } => servers_enabled_set(
                    groups,
                    protocol,
                    address,
                    enabled,
                ),
                ServerChangeView::Add { protocol, address } => crate::client::server_add(groups, protocol, address),
            }) {
                Err(e) => failed_in(flow, e),
                Ok(g) => ask(FlowView::ServersSave { user_id }, seq![], CallView::SaveServers { user_id, groups: g }),
            },
        },
        FlowView::ServersSave { user_id } => match ensure_ok_of(v, r.text, "server configuration"@) {
            Err(e) => failed_in(flow, e),
            Ok(_) => ask(FlowView::ServersReload, seq![], CallView::Servers { user_id }),
        },
        FlowView::ServersReload => match server_entries_of(v) {
            Err(e) => failed_in(flow, e),
            Ok(s) => done(seq![EventView::ServersLoaded(s)]),
        },
        _ => unexpected(),
    }
}

/// The probe for the `number`th candidate name of a download.
pub open spec fn probe(file_id: i64, directory: Seq<char>, name: Seq<char>, number: u32) -> StepView {
    StepView {
        flow: FlowView::FileProbe { file_id, directory, name, number },
        events: seq![],
        need: NeedView::Probe(download_candidate_of(directory, name, number as int)),
    }
}

/// Which family of flows waits for an answer in `flow`.
pub open spec fn family(flow: FlowView) -> int {
    match flow {
        FlowView::Opening
        | FlowView::BootProfiles
        | FlowView::BootUser
        | FlowView::PreludeStart { .. }
        | FlowView::PreludeTtl { .. }
        | FlowView::PreludeServers { .. }
        | FlowView::PreludeProfile { .. }
        | FlowView::PreludeCalls { .. }
        | FlowView::PreludeProfiles { .. }
        | FlowView::PreludeChats { .. } => 1,
        FlowView::ChatWait { .. }
        | FlowView::MarkRead { .. }
        | FlowView::Sending { .. }
        | FlowView::Reacting
        | FlowView::FileReceive { .. }
        | FlowView::Cancelling { .. }
        | FlowView::ContactChats { .. } => 2,
        FlowView::Activating
        | FlowView::Creating
        | FlowView::DeleteUsers { .. }
        | FlowView::DeleteSwitch { .. }
        | FlowView::Deleting
        | FlowView::DeletedUsers
        | FlowView::DeletedActive { .. }
        | FlowView::DeletedChats { .. }
        | FlowView::AutoProfile { .. }
        | FlowView::AutoSave { .. }
        | FlowView::AutoTtl { .. }
        | FlowView::ChatFeatureProfile { .. }
        | FlowView::ChatFeatureSave { .. } => 3,
        FlowView::DeletionLoad { .. }
        | FlowView::DeletionEdit { .. }
        | FlowView::DeletionSave { .. }
        | FlowView::DeletionTtl { .. }
        | FlowView::DeletionReload { .. }
        | FlowView::FeaturesChat { .. }
        | FlowView::FeaturesDefaults { .. }
        | FlowView::FeatureEdit { .. }
        | FlowView::FeatureSave { .. }
        | FlowView::ChatDeleting { .. }
        | FlowView::ChatDeletedList { .. }
        | FlowView::Inviting
        | FlowView::Connecting
        | FlowView::ServersFetch { .. }
        | FlowView::ServersSave { .. }
        | FlowView::ServersReload => 4,
        _ => 0,
    }
}

/// The move of a flow that waits for a call and gets `reply`.
pub open spec fn replied(flow: FlowView, reply: Result<ReplyView, Seq<char>>) -> StepView {
    match reply {
        Err(e) => if family(flow) == 0 {
            unexpected()
        } else {
            failed_in(flow, e)
        },
        Ok(r) => {
            let f = family(flow);
            if f == 1 {
                boot_reply(flow, r)
            } else if f == 2 {
                chat_reply(flow, r)
            } else if f == 3 {
                profile_reply(flow, r)
            } else if f == 4 {
                settings_reply(flow, r)
            } else {
                unexpected()
            }
        },
    }
}

/// The move of the worker in `flow` once it is handed `answer`.
pub open spec fn resume_of(flow: FlowView, answer: AnswerView) -> StepView {
    match answer {
        AnswerView::Reply(reply) => replied(flow, reply),
        AnswerView::Created(created) => match flow {
            FlowView::Booting { root, database_prefix } => match created {
                Err(e) => halt("cannot create "@ + root + ": "@ + e),
                Ok(_) => StepView {
                    flow: FlowView::Opening,
                    events: seq![],
                    need: NeedView::Open { database_prefix, key: ""@, confirmation: "yesUp"@ },
                },
            },
            FlowView::FileDirectory { file_id, directory, name } => match created {
                Err(e) => done(
                    seq![
                        EventView::FileDownloadFailed {
                            file_id,
                            error: "could not create "@ + directory + ": "@ + e,
                        },
                    ],
                ),
                Ok(_) => probe(file_id, directory, name, 0),
            },
            _ => unexpected(),
        },
        AnswerView::Exists(exists) => match flow {
            FlowView::FileProbe { file_id, directory, name, number } => if !exists {
                let path = download_candidate_of(directory, name, number as int);
                ask(FlowView::FileReceive { file_id, path }, seq![], CallView::ReceiveFile { file_id, path })
            } else if number < u32::MAX {
                probe(file_id, directory, name, (number + 1) as u32)
            } else {
                done(
                    seq![
                        EventView::FileDownloadFailed {
                            file_id,
                            error: "no unused file name is left in "@ + directory,
                        },
                    ],
                )
            },
            _ => unexpected(),
        },
    }
}

/// A pasted invitation link reaches the core only as one word: when the worker calls the core
/// for it, the call carries the trimmed link, which is not empty and holds no white space;
/// a link with white space inside is refused before any call.
pub proof fn lemma_link_sent_as_one_word(user_id: i64, link: String, directory: Seq<char>)
    ensures
        ({
            let s = start_of(SimplexCommand::ConnectInvitation { user_id, link }, directory);
            let t = crate::text::trimmed(link@);
            &&& (exists|i: int| 0 <= i < t.len() && crate::text::is_space(#[trigger] t[i])) ==> s == done(
                seq![EventView::ConnectionFailed("invitation link contains whitespace"@)],
            )
            &&& s.need is Call ==> {
                &&& s.need == NeedView::Call(CallView::Connect { user_id, link: t })
                &&& t.len() > 0
                &&& forall|i: int| 0 <= i < t.len() ==> !crate::text::is_space(#[trigger] t[i])
            }
        }),
{
}

/// A download goes to the path that was probed last and found free; a path found taken is
/// never downloaded to: the worker probes the next candidate name instead.
pub proof fn lemma_download_lands_where_probed(
    file_id: i64,
    directory: Seq<char>,
    name: Seq<char>,
    number: u32,
)
    ensures
        ({
            let p = probe(file_id, directory, name, number);
            let free = resume_of(p.flow, AnswerView::Exists(false));
            let taken = resume_of(p.flow, AnswerView::Exists(true));
            &&& p.need matches NeedView::Probe(path) && free.need == NeedView::Call(
                CallView::ReceiveFile { file_id, path },
            )
            &&& taken.need is Probe || taken.need is Done
            &&& taken.need matches NeedView::Probe(other) ==> other == download_candidate_of(
                directory,
                name,
                number + 1,
            )
        }),
{
}

/// A command that fails is reported and the worker goes on: only a failure while starting up,
/// while marking a chat read, while reacting, or while loading the chats of a new contact
/// stops it.
pub proof fn lemma_command_failure_keeps_worker(flow: FlowView, e: Seq<char>)
    requires
        family(flow) >= 2,
        !(flow is MarkRead),
        !(flow is Reacting),
        !(flow is ContactChats),
    ensures
        failed_in(flow, e).need == NeedView::Done,
        failed_in(flow, e).events.len() == 1,
{
}

/// Every call answered with an error ends the flow that made it, and reports it: the worker
/// never retries on its own.
pub proof fn lemma_failed_call_ends_flow(flow: FlowView, e: Seq<char>)
    requires
        family(flow) != 0,
    ensures
        resume_of(flow, AnswerView::Reply(Err(e))) == failed_in(flow, e),
        resume_of(flow, AnswerView::Reply(Err(e))).need is Done || resume_of(flow, AnswerView::Reply(Err(e))).need is Halt,
        resume_of(flow, AnswerView::Reply(Err(e))).flow == FlowView::Idle,
{
}

/// Whether the worker, at step `s` with `answers` still to come, stops there: the step needs
/// nothing more, stops the worker, or no answer is left.
pub open spec fn stops_at(s: StepView, answers: Seq<AnswerView>) -> bool {
    answers.len() == 0 || s.need is Done || s.need is Halt
}

/// The events the worker reports from step `s` on, when it is handed `answers` in turn.
pub open spec fn reported(s: StepView, answers: Seq<AnswerView>) -> Seq<EventView>
    decreases answers.len(),
{
    if stops_at(s, answers) {
        s.events
    } else {
        s.events + reported(resume_of(s.flow, answers[0]), answers.drop_first())
    }
}

/// The step at which the worker stops, from step `s` on, when it is handed `answers` in turn.
pub open spec fn last_step(s: StepView, answers: Seq<AnswerView>) -> StepView
    decreases answers.len(),
{
    if stops_at(s, answers) {
        s
    } else {
        last_step(resume_of(s.flow, answers[0]), answers.drop_first())
    }
}

/// The stages of the worker's start.
pub open spec fn startup_flow(f: FlowView) -> bool {
    match f {
        FlowView::Booting { .. } | FlowView::Opening | FlowView::BootProfiles | FlowView::BootUser => true,
        FlowView::PreludeStart { purpose, .. }
        | FlowView::PreludeTtl { purpose, .. }
        | FlowView::PreludeServers { purpose, .. }
        | FlowView::PreludeProfile { purpose, .. }
        | FlowView::PreludeCalls { purpose, .. }
        | FlowView::PreludeProfiles { purpose, .. }
        | FlowView::PreludeChats { purpose, .. } => purpose == Purpose::Startup,
        _ => false,
    }
}

/// A step of the worker's start: it waits in a stage of the start, has stopped the worker, or
/// is over, and then its last event says whether a profile is active.
pub open spec fn startup_step(s: StepView) -> bool {
    ||| startup_flow(s.flow) && !(s.need is Done) && !(s.need is Halt)
    ||| s.need is Halt
    ||| s.need is Done && s.events.len() > 0 && (s.events.last() is NoActiveUser || s.events.last() is Ready)
}

pub proof fn lemma_startup_step(s: StepView, a: AnswerView)
    requires
        startup_flow(s.flow),
    ensures
        startup_step(resume_of(s.flow, a)),
{
    let f = s.flow;
    match a {
        AnswerView::Reply(Ok(r)) => {
            if let FlowView::PreludeProfile { purpose, user } = f {
                match profile_and_features_of(r.value) {
                    Ok((profile, features)) => {
                        if calls_still_allowed(profile) {
                            assert(startup_step(boot_reply(f, r)));
                        } else {
                            assert(startup_step(features_known(purpose, user, features)));
                        }
                    },
                    Err(_) => {},
                }
            }
        },
        _ => {},
    }
}

proof fn lemma_startup_run(s: StepView, answers: Seq<AnswerView>)
    requires
        startup_step(s),
    ensures
        startup_step(last_step(s, answers)),
    decreases answers.len(),
{
    if !stops_at(s, answers) {
        lemma_startup_step(s, answers[0]);
        lemma_startup_run(resume_of(s.flow, answers[0]), answers.drop_first());
    }
}

/// The worker's start reports first the profiles it found, or the failure that stopped it;
/// and once the start is over, its last event says that no profile is active, or that the
/// active profile is ready.
pub proof fn lemma_startup_reports_in_order(data_directory: Seq<char>, answers: Seq<AnswerView>)
    ensures
        ({
            let ev = reported(boot_of(data_directory), answers);
            ev.len() > 0 ==> (ev[0] is ProfilesLoaded || ev[0] is Failed)
        }),
        ({
            let end = last_step(boot_of(data_directory), answers);
            end.need is Done ==> end.events.len() > 0 && (end.events.last() is NoActiveUser
                || end.events.last() is Ready)
        }),
{
    let s0 = boot_of(data_directory);
    lemma_startup_run(s0, answers);
    if answers.len() > 0 {
        let s1 = resume_of(s0.flow, answers[0]);
        let r1 = answers.drop_first();
        assert(reported(s0, answers) == s0.events + reported(s1, r1));
        assert(s0.events + reported(s1, r1) =~= reported(s1, r1));
        if !stops_at(s1, r1) {
            let s2 = resume_of(s1.flow, r1[0]);
            let r2 = r1.drop_first();
            assert(s1.flow == FlowView::Opening && s1.events.len() == 0);
            assert(s1.events + reported(s2, r2) =~= reported(s2, r2));
            if !stops_at(s2, r2) {
                let s3 = resume_of(s2.flow, r2[0]);
                let r3 = r2.drop_first();
                assert(s2.flow == FlowView::BootProfiles && s2.events.len() == 0);
                assert(s2.events + reported(s3, r3) =~= reported(s3, r3));
                assert(s3.events.len() > 0);
                assert((s3.events + reported(resume_of(s3.flow, r3[0]), r3.drop_first()))[0] == s3.events[0]);
            }
        }
    }
}

/// A message to a contact (`@`) or a group (`#`) is sent with one call of the core, whose
/// command line is `/_send`, the conversation, `live=off ttl=default sign=off text` and the text;
/// a note (`*`) is kept with `/_create`, the conversation, `text` and the text.
pub proof fn lemma_messages_go_to_contacts_groups_and_notes(chat_ref: ChatRef, text: String, directory: Seq<char>)
    requires
        chat_ref.0@.len() > 0,
        chat_ref.0@[0] == '@' || chat_ref.0@[0] == '#' || chat_ref.0@[0] == '*',
    ensures
        ({
            let k = chat_ref.0@;
            let s = start_of(SimplexCommand::SendMessage { chat_ref, text }, directory);
            &&& s.events.len() == 0
            &&& (k[0] == '@' || k[0] == '#') ==> s.need == NeedView::Call(
                CallView::Send { command: "/_send "@ + k + " live=off ttl=default sign=off text "@ + text@ },
            )
            &&& k[0] == '*' ==> s.need == NeedView::Call(
                CallView::Send { command: "/_create "@ + k + " text "@ + text@ },
            )
        }),
{
    let k = chat_ref.0@;
    reveal_strlit("*");
    reveal_strlit("@");
    reveal_strlit("#");
    assert(k.take(1) =~= seq![k[0]]);
    assert("*"@ =~= seq!['*']);
    assert("@"@ =~= seq!['@']);
    assert("#"@ =~= seq!['#']);
    let c = SimplexCommand::SendMessage { chat_ref, text };
    if k[0] == '*' {
        assert(has_prefix(k, "*"@));
        assert(message_command_of(k, text@) == Some("/_create "@ + k + " text "@ + text@));
    } else {
        assert(!has_prefix(k, "*"@)) by {
            if has_prefix(k, "*"@) {
                assert(k.take(1)[0] == '*');
            }
        }
        if k[0] == '@' {
            assert(has_prefix(k, "@"@));
        } else {
            assert(has_prefix(k, "#"@));
        }
        assert(message_command_of(k, text@) == Some(
            "/_send "@ + k + " live=off ttl=default sign=off text "@ + text@,
        ));
    }
}

} // verus!
