use vstd::prelude::*;

use crate::client::{
    chat_deletion_edit, chat_deletion_settings, chat_info, check_server_address, conversation_feature_edit,
    conversation_features, deletion_suffix, ensure_ok, feature_name, set_profile_preference,
    set_server_enabled, set_timed_preference, user_servers, validate_connection_link,
};
use crate::codec::{parse_json, write_json};
use crate::command::SimplexCommand;
use crate::config::join_path;
use crate::flow::{
    ask, boot_of, boot_reply, chat_reply, done, edit_call, failed_in, family, features_known, halt,
    incoming_of, invalid_json, prelude_end, received_text_of, reply_of, probe, profile_reply, reacted, received, replied, resume_of,
    settings_reply, start_of, unexpected, updated, Answer, Flow, FlowView, Need, Purpose, ReplyView,
    ServerChange, Step,
};
use crate::json::Json;
use crate::model::{
    active_user, chat_messages, chats, connected_contact, file_update, invitation_link, new_messages,
    profile_and_features, profiles, reaction_change, read_features, server_entries, ChatRef,
    ChatFeatures, ChatSummary, Message, SimplexEvent, User,
};
use crate::requests::{text2, text4, CoreCall, CoreReply};
use crate::state::copy_ref;
use crate::worker::{
    auto_delete_seconds, calls_allowed, connection_started, download_accepted, download_cancelled,
    download_candidate, message_command, migration_check, replacement_profile, reply_is,
    safe_file_name,
};

verus! {

fn none() -> (v: Vec<SimplexEvent>)
    ensures
        v.deep_view() == Seq::<crate::model::EventView>::empty(),
{
    let v: Vec<SimplexEvent> = Vec::new();
    assert(v.deep_view() =~= Seq::<crate::model::EventView>::empty());
    v
}

fn one(e: SimplexEvent) -> (v: Vec<SimplexEvent>)
    ensures
        v.deep_view() == seq![e.deep_view()],
{
    let ghost ev = e.deep_view();
    let mut v: Vec<SimplexEvent> = Vec::new();
    v.push(e);
    assert(v.deep_view() =~= seq![ev]);
    v
}

fn two(a: SimplexEvent, b: SimplexEvent) -> (v: Vec<SimplexEvent>)
    ensures
        v.deep_view() == seq![a.deep_view(), b.deep_view()],
{
    let ghost va = a.deep_view();
    let ghost vb = b.deep_view();
    let mut v: Vec<SimplexEvent> = Vec::new();
    v.push(a);
    v.push(b);
    assert(v.deep_view() =~= seq![va, vb]);
    v
}

fn then(v: Vec<SimplexEvent>, e: SimplexEvent) -> (r: Vec<SimplexEvent>)
    ensures
        r.deep_view() == v.deep_view().push(e.deep_view()),
{
    let ghost before = v.deep_view();
    let ghost ev = e.deep_view();
    let mut r = v;
    r.push(e);
    assert(r.deep_view() =~= before.push(ev));
    r
}

fn extend(a: Vec<SimplexEvent>, b: Vec<SimplexEvent>) -> (r: Vec<SimplexEvent>)
    ensures
        r.deep_view() == a.deep_view() + b.deep_view(),
{
    let ghost va = a.deep_view();
    let ghost vb = b.deep_view();
    let mut r = a;
    let mut rest = b;
    r.append(&mut rest);
    assert(r.deep_view() =~= va + vb);
    r
}

fn finish(events: Vec<SimplexEvent>) -> (s: Step)
    ensures
        s.deep_view() == done(events.deep_view()),
{
    Step { flow: Flow::Idle, events, need: Need::Done }
}

fn stop(e: String) -> (s: Step)
    ensures
        s.deep_view() == halt(e@),
{
    Step { flow: Flow::Idle, events: one(SimplexEvent::Failed(e)), need: Need::Halt }
}

fn ask_core(flow: Flow, events: Vec<SimplexEvent>, call: CoreCall) -> (s: Step)
    ensures
        s.deep_view() == ask(flow.deep_view(), events.deep_view(), call.deep_view()),
{
    Step { flow, events, need: Need::Call(call) }
}

fn unexpected_step() -> (s: Step)
    ensures
        s.deep_view() == unexpected(),
{
    stop("the worker was handed an answer it did not ask for".to_owned())
}

/// The events that report `items` as arrived messages, in order.
fn received_events(items: Vec<(ChatRef, Message)>) -> (r: Vec<SimplexEvent>)
    ensures
        r.deep_view() == received(items.deep_view()),
{
    let ghost all = items.deep_view();
    let mut rest = items;
    let mut out = none();
    assert(all =~= rest.deep_view());
    while rest.len() > 0
        invariant
            out.deep_view() + received(rest.deep_view()) == received(all),
        decreases rest.len(),
    {
        let ghost before = rest.deep_view();
        let (k, m) = rest.remove(0);
        assert(rest.deep_view() =~= before.drop_first());
        assert(received(before) =~= seq![received(before)[0]] + received(rest.deep_view()));
        let ghost o = out.deep_view();
        out = then(out, SimplexEvent::MessageReceived { chat_ref: k, message: m });
        assert(out.deep_view() + received(rest.deep_view()) =~= o + received(before));
    }
    assert(received(rest.deep_view()) =~= Seq::<crate::model::EventView>::empty());
    assert(out.deep_view() =~= received(all));
    out
}

fn update_events(change: Option<(ChatRef, Message)>) -> (r: Vec<SimplexEvent>)
    ensures
        r.deep_view() == updated(change.deep_view()),
{
    match change {
        Some((k, m)) => one(SimplexEvent::FileUpdated { chat_ref: k, message: m }),
        None => none(),
    }
}

fn reaction_events(change: Option<(ChatRef, i64, String, bool, bool)>) -> (r: Vec<SimplexEvent>)
    ensures
        r.deep_view() == reacted(change.deep_view()),
{
    match change {
        Some((k, i, e, a, u)) => one(
            SimplexEvent::ReactionChanged { chat_ref: k, item_id: i, emoji: e, added: a, user_reacted: u },
        ),
        None => none(),
    }
}

fn prelude_failed(purpose: Purpose, e: String) -> (s: Step)
    ensures
        s.deep_view() == (if purpose == Purpose::Startup {
            halt(e@)
        } else {
            done(seq![crate::model::EventView::Failed(e@)])
        }),
{
    if purpose == Purpose::Startup {
        stop(e)
    } else {
        finish(one(SimplexEvent::Failed(e)))
    }
}

/// How `flow` ends when one of its steps fails with `e`.
fn fail(flow: Flow, e: String) -> (s: Step)
    ensures
        s.deep_view() == failed_in(flow.deep_view(), e@),
{
    match flow {
        Flow::PreludeStart { purpose, .. }
        | Flow::PreludeTtl { purpose, .. }
        | Flow::PreludeServers { purpose, .. }
        | Flow::PreludeProfile { purpose, .. }
        | Flow::PreludeCalls { purpose, .. }
        | Flow::PreludeProfiles { purpose, .. }
        | Flow::PreludeChats { purpose, .. } => prelude_failed(purpose, e),
        Flow::ChatWait { chat_ref } => finish(one(SimplexEvent::ChatLoadFailed { chat_ref, error: e })),
        Flow::Sending { chat_ref, .. } => finish(one(SimplexEvent::MessageSendFailed { chat_ref, error: e })),
        Flow::FileReceive { file_id, .. } | Flow::Cancelling { file_id } => finish(
            one(SimplexEvent::FileDownloadFailed { file_id, error: e }),
        ),
        Flow::Activating | Flow::Creating => finish(one(SimplexEvent::Failed(e))),
        Flow::DeleteUsers { .. }
        | Flow::DeleteSwitch { .. }
        | Flow::Deleting
        | Flow::DeletedUsers
        | Flow::DeletedActive { .. }
        | Flow::DeletedChats { .. } => finish(one(SimplexEvent::ProfileDeleteFailed(e))),
        Flow::AutoProfile { .. } | Flow::AutoSave { .. } | Flow::AutoTtl { .. } => finish(
            one(SimplexEvent::AutoDeleteFailed(e)),
        ),
        Flow::DeletionLoad { .. }
        | Flow::DeletionEdit { .. }
        | Flow::DeletionSave { .. }
        | Flow::DeletionTtl { .. }
        | Flow::DeletionReload { .. } => finish(one(SimplexEvent::ChatDeletionFailed(e))),
        Flow::FeaturesChat { .. }
        | Flow::FeaturesDefaults { .. }
        | Flow::FeatureEdit { .. }
        | Flow::FeatureSave { .. } => finish(one(SimplexEvent::ConversationFeaturesFailed(e))),
        Flow::ChatDeleting { .. } | Flow::ChatDeletedList { .. } => finish(one(SimplexEvent::ChatDeleteFailed(e))),
        Flow::Inviting => finish(one(SimplexEvent::InvitationFailed(e))),
        Flow::Connecting => finish(one(SimplexEvent::ConnectionFailed(e))),
        Flow::ChatFeatureProfile { .. } | Flow::ChatFeatureSave { .. } => finish(
            one(SimplexEvent::SettingChanged(text2("Could not update chat feature: ", e.as_str()))),
        ),
        Flow::ServersFetch { .. } | Flow::ServersSave { .. } | Flow::ServersReload => finish(
            one(SimplexEvent::ServersUpdateFailed(e)),
        ),
        _ => stop(e),
    }
}

/// Which family of flows waits in `flow`.
fn family_of(flow: &Flow) -> (r: u8)
    ensures
        r == family(flow.deep_view()),
{
    match flow {
        Flow::Opening
        | Flow::BootProfiles
        | Flow::BootUser
        | Flow::PreludeStart { .. }
        | Flow::PreludeTtl { .. }
        | Flow::PreludeServers { .. }
        | Flow::PreludeProfile { .. }
        | Flow::PreludeCalls { .. }
        | Flow::PreludeProfiles { .. }
        | Flow::PreludeChats { .. } => 1,
        Flow::ChatWait { .. }
        | Flow::MarkRead { .. }
        | Flow::Sending { .. }
        | Flow::Reacting
        | Flow::FileReceive { .. }
        | Flow::Cancelling { .. }
        | Flow::ContactChats { .. } => 2,
        Flow::Activating
        | Flow::Creating
        | Flow::DeleteUsers { .. }
        | Flow::DeleteSwitch { .. }
        | Flow::Deleting
        | Flow::DeletedUsers
        | Flow::DeletedActive { .. }
        | Flow::DeletedChats { .. }
        | Flow::AutoProfile { .. }
        | Flow::AutoSave { .. }
        | Flow::AutoTtl { .. }
        | Flow::ChatFeatureProfile { .. }
        | Flow::ChatFeatureSave { .. } => 3,
        Flow::DeletionLoad { .. }
        | Flow::DeletionEdit { .. }
        | Flow::DeletionSave { .. }
        | Flow::DeletionTtl { .. }
        | Flow::DeletionReload { .. }
        | Flow::FeaturesChat { .. }
        | Flow::FeaturesDefaults { .. }
        | Flow::FeatureEdit { .. }
        | Flow::FeatureSave { .. }
        | Flow::ChatDeleting { .. }
        | Flow::ChatDeletedList { .. }
        | Flow::Inviting
        | Flow::Connecting
        | Flow::ServersFetch { .. }
        | Flow::ServersSave { .. }
        | Flow::ServersReload => 4,
        _ => 0,
    }
}

/// The first move of the worker: it makes the data directory under `data_directory`, then
/// opens the database there.
pub fn boot(data_directory: &str) -> (s: Step)
    ensures
        s.deep_view() == boot_of(data_directory@),
{
    Step {
        flow: Flow::Booting {
            root: data_directory.to_owned(),
            database_prefix: join_path(data_directory, "simplex"),
        },
        events: none(),
        need: Need::CreateDirectory { path: data_directory.to_owned(), private: true },
    }
}

/// The first move of `command`; downloads go into `directory`.
pub fn start(command: SimplexCommand, directory: &str) -> (s: Step)
    ensures
        s.deep_view() == start_of(command, directory@),
{
    match command {
        SimplexCommand::LoadChat(k) => {
            let again = copy_ref(&k);
            ask_core(Flow::ChatWait { chat_ref: k }, none(), CoreCall::LoadChat { chat_ref: again, count: 100 })
        },
        SimplexCommand::MarkChatRead(k) => {
            let again = copy_ref(&k);
            ask_core(Flow::MarkRead { chat_ref: k }, none(), CoreCall::ReadChat { chat_ref: again })
        },
        SimplexCommand::SendMessage { chat_ref, text } => match message_command(&chat_ref, text.as_str()) {
            None => finish(
                one(
                    SimplexEvent::MessageSendFailed {
                        chat_ref,
                        error: "messages cannot be sent to this chat type".to_owned(),
                    },
                ),
            ),
            Some(c) => ask_core(Flow::Sending { chat_ref, text }, none(), CoreCall::Send { command: c }),
        },
        SimplexCommand::SendReaction { chat_ref, item_id, emoji } => ask_core(
            Flow::Reacting,
            none(),
            CoreCall::SendReaction { chat_ref, item_id, emoji },
        ),
        SimplexCommand::ReceiveFile { file_id, file_name } => Step {
            flow: Flow::FileDirectory {
                file_id,
                directory: directory.to_owned(),
                name: safe_file_name(file_name.as_str()),
            },
            events: none(),
            need: Need::CreateDirectory { path: directory.to_owned(), private: false },
        },
        SimplexCommand::CancelFile { file_id } => ask_core(
            Flow::Cancelling { file_id },
            none(),
            CoreCall::CancelFile { file_id },
        ),
        SimplexCommand::ActivateProfile(user_id) => ask_core(
            Flow::Activating,
            none(),
            CoreCall::ActivateUser { user_id },
        ),
        SimplexCommand::CreateProfile(name) => ask_core(
            Flow::Creating,
            none(),
            CoreCall::CreateUser { display_name: name },
        ),
        SimplexCommand::DeleteProfile(user_id) => ask_core(Flow::DeleteUsers { user_id }, none(), CoreCall::Users),
        SimplexCommand::SetAutoDelete { user_id, seconds } => ask_core(
            Flow::AutoProfile { user_id, seconds },
            none(),
            CoreCall::Profile,
        ),
        SimplexCommand::LoadChatDeletion { chat_ref } => {
            let again = copy_ref(&chat_ref);
            ask_core(Flow::DeletionLoad { chat_ref }, none(), CoreCall::LoadChat { chat_ref: again, count: 1 })
        },
        SimplexCommand::SetChatDeletion { user_id, chat_ref, seconds } => {
            let again = copy_ref(&chat_ref);
            ask_core(
                Flow::DeletionEdit { user_id, chat_ref, seconds },
                none(),
                CoreCall::LoadChat { chat_ref: again, count: 1 },
            )
        },
        SimplexCommand::LoadConversationFeatures { chat_ref } => {
            let again = copy_ref(&chat_ref);
            ask_core(
                Flow::FeaturesChat { chat_ref, changed: false },
                none(),
                CoreCall::LoadChat { chat_ref: again, count: 1 },
            )
        },
        SimplexCommand::SetConversationFeature { chat_ref, feature, enabled } => {
            let again = copy_ref(&chat_ref);
            ask_core(
                Flow::FeatureEdit { chat_ref, feature, enabled },
                none(),
                CoreCall::LoadChat { chat_ref: again, count: 1 },
            )
        },
        SimplexCommand::DeleteChat { user_id, chat_ref, mode } => match deletion_suffix(&chat_ref, mode) {
            Err(e) => finish(one(SimplexEvent::ChatDeleteFailed(e))),
            Ok(suffix) => {
                let again = copy_ref(&chat_ref);
                ask_core(
                    Flow::ChatDeleting { user_id, chat_ref },
                    none(),
                    CoreCall::DeleteChat { chat_ref: again, suffix: suffix.to_owned() },
                )
            },
        },
        SimplexCommand::CreateInvitation { user_id } => ask_core(
            Flow::Inviting,
            none(),
            CoreCall::CreateInvitation { user_id },
        ),
        SimplexCommand::ConnectInvitation { user_id, link } => match validate_connection_link(link.as_str()) {
            Err(e) => finish(one(SimplexEvent::ConnectionFailed(e))),
            Ok(l) => ask_core(Flow::Connecting, none(), CoreCall::Connect { user_id, link: l }),
        },
        SimplexCommand::SetChatFeature { user_id, feature, enabled } => ask_core(
            Flow::ChatFeatureProfile { user_id, feature, enabled },
            none(),
            CoreCall::Profile,
        ),
        SimplexCommand::SetServerEnabled { user_id, protocol, address, enabled } => ask_core(
            Flow::ServersFetch { user_id, change: ServerChange::Toggle { protocol, address, enabled } },
            none(),
            CoreCall::Servers { user_id },
        ),
        SimplexCommand::AddServer { user_id, protocol, address } => match check_server_address(
            protocol,
            address.as_str(),
        ) {
            Err(e) => finish(one(SimplexEvent::ServersUpdateFailed(e))),
            Ok(()) => ask_core(
                Flow::ServersFetch { user_id, change: ServerChange::Add { protocol, address } },
                none(),
                CoreCall::Servers { user_id },
            ),
        },
    }
}

fn invalid_json_message(error: &str) -> (r: String)
    ensures
        r@ == invalid_json(error@),
{
    proof {
        reveal_strlit("SimpleX returned invalid JSON: ");
    }
    text2("SimpleX returned invalid JSON: ", error)
}

/// The reply that the core's `text` stands for.
pub fn reply_of_text(text: &str) -> (r: Result<CoreReply, String>)
    ensures
        match r {
            Ok(reply) => reply_of(text@) == Ok::<ReplyView, Seq<char>>(reply.deep_view()),
            Err(error) => reply_of(text@) == Err::<ReplyView, Seq<char>>(error@),
        },
{
    match parse_json(text) {
        Ok(value) => {
            let written = write_json(&value);
            Ok(CoreReply { value, text: written })
        },
        Err(error) => Err(invalid_json_message(error.as_str())),
    }
}

/// What the worker does with `text`, an event that the core sent on its own.
pub fn received_text(text: &str) -> (s: Step)
    ensures
        s.deep_view() == received_text_of(text@),
{
    match parse_json(text) {
        Ok(value) => incoming(value),
        Err(error) => stop(invalid_json_message(error.as_str())),
    }
}

/// What the worker does with `value`, an event that the core sent on its own.
pub fn incoming(value: Json) -> (s: Step)
    ensures
        s.deep_view() == incoming_of(value.deep_view()),
{
    let head = extend(reaction_events(reaction_change(&value)), update_events(file_update(&value)));
    match connected_contact(&value) {
        Some((user_id, k)) => ask_core(Flow::ContactChats { chat_ref: k, value }, head, CoreCall::Chats { user_id }),
        None => {
            let arrived = received_events(new_messages(&value));
            finish(extend(head, arrived))
        },
    }
}

fn probe_step(file_id: i64, directory: String, name: String, number: u32) -> (s: Step)
    ensures
        s.deep_view() == probe(file_id, directory@, name@, number),
{
    let path = download_candidate(directory.as_str(), name.as_str(), number as i64);
    Step {
        flow: Flow::FileProbe { file_id, directory, name, number },
        events: none(),
        need: Need::Probe(path),
    }
}

/// The move of the worker in `flow` once it is handed `answer`.
pub fn resume(flow: Flow, answer: Answer) -> (s: Step)
    ensures
        s.deep_view() == resume_of(flow.deep_view(), answer.deep_view()),
{
    match answer {
        Answer::Reply(reply) => reply_step(flow, reply),
        Answer::Created(created) => match flow {
            Flow::Booting { root, database_prefix } => match created {
                Err(e) => stop(text4("cannot create ", root.as_str(), ": ", e.as_str())),
                Ok(()) => Step {
                    flow: Flow::Opening,
                    events: none(),
                    need: Need::Open { database_prefix, key: "".to_owned(), confirmation: "yesUp".to_owned() },
                },
            },
            Flow::FileDirectory { file_id, directory, name } => match created {
                Err(e) => {
                    let error = text4("could not create ", directory.as_str(), ": ", e.as_str());
                    finish(one(SimplexEvent::FileDownloadFailed { file_id, error }))
                },
                Ok(()) => probe_step(file_id, directory, name, 0),
            },
            _ => unexpected_step(),
        },
        Answer::Exists(exists) => match flow {
            Flow::FileProbe { file_id, directory, name, number } => if !exists {
                let path = download_candidate(directory.as_str(), name.as_str(), number as i64);
                let again = path.clone();
                ask_core(
                    Flow::FileReceive { file_id, path },
                    none(),
                    CoreCall::ReceiveFile { file_id, path: again },
                )
            } else if number < u32::MAX {
                probe_step(file_id, directory, name, number + 1)
            } else {
                let error = text2("no unused file name is left in ", directory.as_str());
                finish(one(SimplexEvent::FileDownloadFailed { file_id, error }))
            },
            _ => unexpected_step(),
        },
    }
}

fn reply_step(flow: Flow, reply: Result<CoreReply, String>) -> (s: Step)
    ensures
        s.deep_view() == replied(flow.deep_view(), match reply {
            Ok(r) => Ok(r.deep_view()),
            Err(e) => Err(e@),
        }),
{
    let f = family_of(&flow);
    match reply {
        Err(e) => if f == 0 {
            unexpected_step()
        } else {
            fail(flow, e)
        },
        Ok(r) => if f == 1 {
            boot_step(flow, r)
        } else if f == 2 {
            chat_step(flow, r)
        } else if f == 3 {
            profile_step(flow, r)
        } else if f == 4 {
            settings_step(flow, r)
        } else {
            unexpected_step()
        },
    }
}

fn features_step(purpose: Purpose, user: User, features: ChatFeatures) -> (s: Step)
    ensures
        s.deep_view() == features_known(purpose, user.deep_view(), features),
{
    let id = user.id;
    let event = one(SimplexEvent::ChatFeaturesLoaded(features));
    if purpose == Purpose::Create {
        ask_core(Flow::PreludeProfiles { purpose, user }, event, CoreCall::Users)
    } else {
        let none_yet: Vec<User> = Vec::new();
        assert(none_yet.deep_view() =~= Seq::<crate::model::UserView>::empty());
        ask_core(Flow::PreludeChats { purpose, user, profiles: none_yet }, event, CoreCall::Chats { user_id: id })
    }
}

fn prelude_event(purpose: Purpose, user: User, profiles: Vec<User>, chats: Vec<ChatSummary>) -> (e: SimplexEvent)
    ensures
        e.deep_view() == prelude_end(purpose, user.deep_view(), profiles.deep_view(), chats.deep_view()),
{
    match purpose {
        Purpose::Startup => SimplexEvent::Ready { user, chats },
        Purpose::Activate => SimplexEvent::ProfileActivated { user, chats },
        Purpose::Create => SimplexEvent::ProfileCreated { user, profiles, chats },
    }
}

fn boot_step(flow: Flow, r: CoreReply) -> (s: Step)
    requires
        family(flow.deep_view()) == 1,
    ensures
        s.deep_view() == boot_reply(flow.deep_view(), r.deep_view()),
{
    match flow {
        Flow::Opening => match migration_check(&r.value, r.text.as_str()) {
            Err(e) => stop(e),
            Ok(()) => ask_core(Flow::BootProfiles, none(), CoreCall::Users),
        },
        Flow::BootProfiles => match profiles(&r.value) {
            Err(e) => stop(e),
            Ok(ps) => ask_core(Flow::BootUser, one(SimplexEvent::ProfilesLoaded(ps)), CoreCall::ActiveUser),
        },
        Flow::BootUser => match active_user(&r.value) {
            Err(e) => stop(e),
            Ok(None) => finish(one(SimplexEvent::NoActiveUser)),
            Ok(Some(u)) => ask_core(
                Flow::PreludeStart { purpose: Purpose::Startup, user: u },
                none(),
                CoreCall::Start,
            ),
        },
        Flow::PreludeStart { purpose, user } => {
            let id = user.id;
            ask_core(Flow::PreludeTtl { purpose, user }, none(), CoreCall::GlobalTtl { user_id: id })
        },
        Flow::PreludeTtl { purpose, user } => {
            let id = user.id;
            let seconds = auto_delete_seconds(&r.value);
            ask_core(
                Flow::PreludeServers { purpose, user },
                one(SimplexEvent::AutoDeleteLoaded(seconds)),
                CoreCall::Servers { user_id: id },
            )
        },
        Flow::PreludeServers { purpose, user } => match server_entries(&r.value) {
            Err(e) => fail(Flow::PreludeServers { purpose, user }, e),
            Ok(servers) => ask_core(
                Flow::PreludeProfile { purpose, user },
                one(SimplexEvent::ServersLoaded(servers)),
                CoreCall::Profile,
            ),
        },
        Flow::PreludeProfile { purpose, user } => match profile_and_features(&r.value) {
            Err(e) => fail(Flow::PreludeProfile { purpose, user }, e),
            Ok((profile, features)) => if calls_allowed(&profile) {
                match set_profile_preference(profile, "calls", false) {
                    Err(e) => fail(Flow::PreludeProfile { purpose, user }, e),
                    Ok(p) => {
                        let id = user.id;
                        ask_core(
                            Flow::PreludeCalls { purpose, user, features },
                            none(),
                            CoreCall::UpdateProfile { user_id: id, profile: p },
                        )
                    },
                }
            } else {
                features_step(purpose, user, features)
            },
        },
        Flow::PreludeCalls { purpose, user, features } => match ensure_ok(
            &r.value,
            r.text.as_str(),
            "chat preferences",
        ) {
            Err(e) => fail(Flow::PreludeCalls { purpose, user, features }, e),
            Ok(()) => features_step(purpose, user, features),
        },
        Flow::PreludeProfiles { purpose, user } => match profiles(&r.value) {
            Err(e) => fail(Flow::PreludeProfiles { purpose, user }, e),
            Ok(ps) => {
                let id = user.id;
                ask_core(Flow::PreludeChats { purpose, user, profiles: ps }, none(), CoreCall::Chats { user_id: id })
            },
        },
        Flow::PreludeChats { purpose, user, profiles } => match chats(&r.value) {
            Err(e) => fail(Flow::PreludeChats { purpose, user, profiles }, e),
            Ok(cs) => finish(one(prelude_event(purpose, user, profiles, cs))),
        },
        _ => unexpected_step(),
    }
}

fn chat_step(flow: Flow, r: CoreReply) -> (s: Step)
    requires
        family(flow.deep_view()) == 2,
    ensures
        s.deep_view() == chat_reply(flow.deep_view(), r.deep_view()),
{
    match flow {
        Flow::ChatWait { chat_ref } => match chat_messages(&r.value) {
            Err(e) => fail(Flow::ChatWait { chat_ref }, e),
            Ok((k, ms)) => {
                let again = copy_ref(&chat_ref);
                ask_core(
                    Flow::MarkRead { chat_ref },
                    one(SimplexEvent::ChatLoaded { chat_ref: k, messages: ms }),
                    CoreCall::ReadChat { chat_ref: again },
                )
            },
        },
        Flow::MarkRead { chat_ref } => match ensure_ok(&r.value, r.text.as_str(), "mark chat as read") {
            Err(e) => fail(Flow::MarkRead { chat_ref }, e),
            Ok(()) => finish(one(SimplexEvent::ChatMarkedRead(chat_ref))),
        },
        Flow::Sending { chat_ref, text } => if reply_is(&r.value, "newChatItems") {
            let arrived = received_events(new_messages(&r.value));
            finish(then(arrived, SimplexEvent::MessageSent { chat_ref, text }))
        } else {
            let error = text2("send failed: ", r.text.as_str());
            finish(one(SimplexEvent::MessageSendFailed { chat_ref, error }))
        },
        Flow::Reacting => finish(reaction_events(reaction_change(&r.value))),
        Flow::FileReceive { file_id, path } => match download_accepted(&r.value, r.text.as_str()) {
            Err(e) => fail(Flow::FileReceive { file_id, path }, e),
            Ok(()) => {
                let first = one(SimplexEvent::FileDownloadStarted { file_id, path });
                finish(extend(first, update_events(file_update(&r.value))))
            },
        },
        Flow::Cancelling { file_id } => match download_cancelled(&r.value, r.text.as_str()) {
            Err(e) => fail(Flow::Cancelling { file_id }, e),
            Ok(()) => {
                let first = one(SimplexEvent::FileDownloadCancelled { file_id });
                finish(extend(first, update_events(file_update(&r.value))))
            },
        },
        Flow::ContactChats { chat_ref, value } => match chats(&r.value) {
            Err(e) => fail(Flow::ContactChats { chat_ref, value }, e),
            Ok(cs) => {
                let first = one(SimplexEvent::ContactConnected { chats: cs, chat_ref });
                finish(extend(first, received_events(new_messages(&value))))
            },
        },
        _ => unexpected_step(),
    }
}

fn profile_step(flow: Flow, r: CoreReply) -> (s: Step)
    requires
        family(flow.deep_view()) == 3,
    ensures
        s.deep_view() == profile_reply(flow.deep_view(), r.deep_view()),
{
    match flow {
        Flow::Activating | Flow::Creating => switch_step(flow, r),
        Flow::DeleteUsers { .. }
        | Flow::DeleteSwitch { .. }
        | Flow::Deleting
        | Flow::DeletedUsers
        | Flow::DeletedActive { .. }
        | Flow::DeletedChats { .. } => removal_step(flow, r),
        _ => preference_step(flow, r),
    }
}

fn switch_step(flow: Flow, r: CoreReply) -> (s: Step)
    requires
        flow is Activating || flow is Creating,
    ensures
        s.deep_view() == profile_reply(flow.deep_view(), r.deep_view()),
{
    match flow {
        Flow::Activating => match active_user(&r.value) {
            Err(e) => fail(Flow::Activating, e),
            Ok(None) => fail(Flow::Activating, "SimpleX did not activate the selected profile".to_owned()),
            Ok(Some(u)) => ask_core(
                Flow::PreludeStart { purpose: Purpose::Activate, user: u },
                none(),
                CoreCall::Start,
            ),
        },
        Flow::Creating => match active_user(&r.value) {
            Err(e) => fail(Flow::Creating, e),
            Ok(None) => fail(Flow::Creating, "SimpleX did not create the profile".to_owned()),
            Ok(Some(u)) => ask_core(Flow::PreludeStart { purpose: Purpose::Create, user: u }, none(), CoreCall::Start),
        },
        _ => unexpected_step(),
    }
}

fn removal_step(flow: Flow, r: CoreReply) -> (s: Step)
    requires
        flow is DeleteUsers || flow is DeleteSwitch || flow is Deleting || flow is DeletedUsers || flow is DeletedActive || flow is DeletedChats,
    ensures
        s.deep_view() == profile_reply(flow.deep_view(), r.deep_view()),
{
    match flow {
        Flow::DeleteUsers { user_id } => match profiles(&r.value) {
            Err(e) => fail(Flow::DeleteUsers { user_id }, e),
            Ok(ps) => match replacement_profile(&ps, user_id) {
                Some(other) => ask_core(
                    Flow::DeleteSwitch { user_id },
                    none(),
                    CoreCall::ActivateUser { user_id: other },
                ),
                None => ask_core(Flow::Deleting, none(), CoreCall::DeleteUser { user_id }),
            },
        },
        Flow::DeleteSwitch { user_id } => match active_user(&r.value) {
            Err(e) => fail(Flow::DeleteSwitch { user_id }, e),
            Ok(None) => fail(
                Flow::DeleteSwitch { user_id },
                "SimpleX did not activate the replacement profile".to_owned(),
            ),
            Ok(Some(_)) => ask_core(Flow::Deleting, none(), CoreCall::DeleteUser { user_id }),
        },
        Flow::Deleting => match ensure_ok(&r.value, r.text.as_str(), "profile deletion") {
            Err(e) => fail(Flow::Deleting, e),
            Ok(()) => ask_core(Flow::DeletedUsers, none(), CoreCall::Users),
        },
        Flow::DeletedUsers => match profiles(&r.value) {
            Err(e) => fail(Flow::DeletedUsers, e),
            Ok(ps) => ask_core(Flow::DeletedActive { profiles: ps }, none(), CoreCall::ActiveUser),
        },
        Flow::DeletedActive { profiles } => match active_user(&r.value) {
            Err(e) => fail(Flow::DeletedActive { profiles }, e),
            Ok(None) => {
                let no_chats: Vec<ChatSummary> = Vec::new();
                assert(no_chats.deep_view() =~= Seq::<crate::model::ChatSummaryView>::empty());
                finish(one(SimplexEvent::ProfileDeleted { profiles, active_user: None, chats: no_chats }))
            },
            Ok(Some(u)) => {
                let id = u.id;
                ask_core(Flow::DeletedChats { profiles, user: u }, none(), CoreCall::Chats { user_id: id })
            },
        },
        Flow::DeletedChats { profiles, user } => match chats(&r.value) {
            Err(e) => fail(Flow::DeletedChats { profiles, user }, e),
            Ok(cs) => finish(one(SimplexEvent::ProfileDeleted { profiles, active_user: Some(user), chats: cs })),
        },
        _ => unexpected_step(),
    }
}

fn preference_step(flow: Flow, r: CoreReply) -> (s: Step)
    requires
        flow is AutoProfile || flow is AutoSave || flow is AutoTtl || flow is ChatFeatureProfile
            || flow is ChatFeatureSave,
    ensures
        s.deep_view() == profile_reply(flow.deep_view(), r.deep_view()),
{
    match flow {
        Flow::AutoProfile { .. } | Flow::AutoSave { .. } | Flow::AutoTtl { .. } => auto_step(flow, r),
        _ => chat_feature_step(flow, r),
    }
}

fn auto_step(flow: Flow, r: CoreReply) -> (s: Step)
    requires
        flow is AutoProfile || flow is AutoSave || flow is AutoTtl,
    ensures
        s.deep_view() == profile_reply(flow.deep_view(), r.deep_view()),
{
    match flow {
        Flow::AutoProfile { user_id, seconds } => match profile_and_features(&r.value) {
            Err(e) => fail(Flow::AutoProfile { user_id, seconds }, e),
            Ok((profile, _)) => match set_timed_preference(profile, Some(seconds)) {
                Err(e) => fail(Flow::AutoProfile { user_id, seconds }, e),
                Ok(p) => match set_profile_preference(p, "calls", false) {
                    Err(e) => fail(Flow::AutoProfile { user_id, seconds }, e),
                    Ok(p2) => ask_core(
                        Flow::AutoSave { user_id, seconds },
                        none(),
                        CoreCall::UpdateProfile { user_id, profile: p2 },
                    ),
                },
            },
        },
        Flow::AutoSave { user_id, seconds } => match ensure_ok(&r.value, r.text.as_str(), "chat preferences") {
            Err(e) => fail(Flow::AutoSave { user_id, seconds }, e),
            Ok(()) => ask_core(Flow::AutoTtl { seconds }, none(), CoreCall::SetGlobalTtl { user_id, seconds }),
        },
        Flow::AutoTtl { seconds } => match ensure_ok(&r.value, r.text.as_str(), "automatic deletion") {
            Err(e) => fail(Flow::AutoTtl { seconds }, e),
            Ok(()) => finish(one(SimplexEvent::AutoDeleteChanged(seconds))),
        },
        _ => unexpected_step(),
    }
}

fn chat_feature_step(flow: Flow, r: CoreReply) -> (s: Step)
    requires
        flow is ChatFeatureProfile || flow is ChatFeatureSave,
    ensures
        s.deep_view() == profile_reply(flow.deep_view(), r.deep_view()),
{
    match flow {
        Flow::ChatFeatureProfile { user_id, feature, enabled } => match profile_and_features(&r.value) {
            Err(e) => fail(Flow::ChatFeatureProfile { user_id, feature, enabled }, e),
            Ok((profile, _)) => match set_profile_preference(profile, feature_name(feature), enabled) {
                Err(e) => fail(Flow::ChatFeatureProfile { user_id, feature, enabled }, e),
                Ok(p) => match set_profile_preference(p, "calls", false) {
                    Err(e) => fail(Flow::ChatFeatureProfile { user_id, feature, enabled }, e),
                    Ok(p2) => {
                        let features = read_features(&p2);
                        ask_core(
                            Flow::ChatFeatureSave { features },
                            none(),
                            CoreCall::UpdateProfile { user_id, profile: p2 },
                        )
                    },
                },
            },
        },
        Flow::ChatFeatureSave { features } => match ensure_ok(&r.value, r.text.as_str(), "chat preferences") {
            Err(e) => fail(Flow::ChatFeatureSave { features }, e),
            Ok(()) => {
                finish(
                    two(
                        SimplexEvent::ChatFeaturesLoaded(features),
                        SimplexEvent::SettingChanged("Chat feature updated".to_owned()),
                    ),
                )
            },
        },
        _ => unexpected_step(),
    }
}

fn edit_core_call(chat_ref: ChatRef, direct: bool, document: Json) -> (c: CoreCall)
    ensures
        c.deep_view() == edit_call(chat_ref.0@, direct, document.deep_view()),
{
    if direct {
        CoreCall::SetContactPreferences { chat_ref, preferences: document }
    } else {
        CoreCall::SetGroupProfile { chat_ref, profile: document }
    }
}

fn settings_step(flow: Flow, r: CoreReply) -> (s: Step)
    requires
        family(flow.deep_view()) == 4,
    ensures
        s.deep_view() == settings_reply(flow.deep_view(), r.deep_view()),
{
    match flow {
        Flow::DeletionLoad { .. }
        | Flow::DeletionEdit { .. }
        | Flow::DeletionSave { .. }
        | Flow::DeletionTtl { .. }
        | Flow::DeletionReload { .. } => deletion_step(flow, r),
        Flow::FeaturesChat { .. }
        | Flow::FeaturesDefaults { .. }
        | Flow::FeatureEdit { .. }
        | Flow::FeatureSave { .. } => feature_step(flow, r),
        Flow::ChatDeleting { .. } | Flow::ChatDeletedList { .. } | Flow::Inviting | Flow::Connecting => contact_step(flow, r),
        _ => server_step(flow, r),
    }
}

fn deletion_step(flow: Flow, r: CoreReply) -> (s: Step)
    requires
        flow is DeletionLoad || flow is DeletionEdit || flow is DeletionSave || flow is DeletionTtl || flow is DeletionReload,
    ensures
        s.deep_view() == settings_reply(flow.deep_view(), r.deep_view()),
{
    match flow {
        Flow::DeletionLoad { chat_ref } => match chat_deletion_settings(&r.value) {
            Err(e) => fail(Flow::DeletionLoad { chat_ref }, e),
            Ok(settings) => finish(one(SimplexEvent::ChatDeletionLoaded { chat_ref, settings })),
        },
        Flow::DeletionEdit { user_id, chat_ref, seconds } => match chat_deletion_edit(&r.value, seconds) {
            Err(e) => fail(Flow::DeletionEdit { user_id, chat_ref, seconds }, e),
            Ok((direct, document)) => {
                let again = copy_ref(&chat_ref);
                ask_core(
                    Flow::DeletionSave { user_id, chat_ref, seconds, direct },
                    none(),
                    edit_core_call(again, direct, document),
                )
            },
        },
        Flow::DeletionSave { user_id, chat_ref, seconds, direct } => {
            let operation = if direct {
                "contact disappearing messages"
            } else {
                "group disappearing messages"
            };
            match ensure_ok(&r.value, r.text.as_str(), operation) {
                Err(e) => fail(Flow::DeletionSave { user_id, chat_ref, seconds, direct }, e),
                Ok(()) => {
                    let again = copy_ref(&chat_ref);
                    ask_core(
                        Flow::DeletionTtl { chat_ref },
                        none(),
                        CoreCall::SetChatTtl { user_id, chat_ref: again, seconds },
                    )
                },
            }
        },
        Flow::DeletionTtl { chat_ref } => match ensure_ok(&r.value, r.text.as_str(), "local chat deletion") {
            Err(e) => fail(Flow::DeletionTtl { chat_ref }, e),
            Ok(()) => {
                let again = copy_ref(&chat_ref);
                ask_core(Flow::DeletionReload { chat_ref }, none(), CoreCall::LoadChat { chat_ref: again, count: 1 })
            },
        },
        Flow::DeletionReload { chat_ref } => match chat_deletion_settings(&r.value) {
            Err(e) => fail(Flow::DeletionReload { chat_ref }, e),
            Ok(settings) => finish(one(SimplexEvent::ChatDeletionChanged { chat_ref, settings })),
        },
        _ => unexpected_step(),
    }
}

fn feature_step(flow: Flow, r: CoreReply) -> (s: Step)
    requires
        flow is FeaturesChat || flow is FeaturesDefaults || flow is FeatureEdit || flow is FeatureSave,
    ensures
        s.deep_view() == settings_reply(flow.deep_view(), r.deep_view()),
{
    match flow {
        Flow::FeaturesChat { chat_ref, changed } => {
            let present = chat_info(&r.value).is_some();
            if !present {
                fail(Flow::FeaturesChat { chat_ref, changed }, "chat response has no chatInfo".to_owned())
            } else {
                ask_core(Flow::FeaturesDefaults { chat_ref, chat: r.value, changed }, none(), CoreCall::Profile)
            }
        },
        Flow::FeaturesDefaults { chat_ref, chat, changed } => match profile_and_features(&r.value) {
            Err(e) => fail(Flow::FeaturesDefaults { chat_ref, chat, changed }, e),
            Ok((_, defaults)) => match conversation_features(&chat, defaults) {
                Err(e) => fail(Flow::FeaturesDefaults { chat_ref, chat, changed }, e),
                Ok(features) => if changed {
                    finish(one(SimplexEvent::ConversationFeaturesChanged { chat_ref, features }))
                } else {
                    finish(one(SimplexEvent::ConversationFeaturesLoaded { chat_ref, features }))
                },
            },
        },
        Flow::FeatureEdit { chat_ref, feature, enabled } => match conversation_feature_edit(
            &r.value,
            feature_name(feature),
            enabled,
        ) {
            Err(e) => fail(Flow::FeatureEdit { chat_ref, feature, enabled }, e),
            Ok((direct, document)) => {
                let again = copy_ref(&chat_ref);
                ask_core(Flow::FeatureSave { chat_ref, direct }, none(), edit_core_call(again, direct, document))
            },
        },
        Flow::FeatureSave { chat_ref, direct } => {
            let operation = if direct {
                "contact feature"
            } else {
                "group feature"
            };
            match ensure_ok(&r.value, r.text.as_str(), operation) {
                Err(e) => fail(Flow::FeatureSave { chat_ref, direct }, e),
                Ok(()) => {
                    let again = copy_ref(&chat_ref);
                    ask_core(
                        Flow::FeaturesChat { chat_ref, changed: true },
                        none(),
                        CoreCall::LoadChat { chat_ref: again, count: 1 },
                    )
                },
            }
        },
        _ => unexpected_step(),
    }
}

fn contact_step(flow: Flow, r: CoreReply) -> (s: Step)
    requires
        flow is ChatDeleting || flow is ChatDeletedList || flow is Inviting || flow is Connecting,
    ensures
        s.deep_view() == settings_reply(flow.deep_view(), r.deep_view()),
{
    match flow {
        Flow::ChatDeleting { user_id, chat_ref } => match ensure_ok(&r.value, r.text.as_str(), "chat deletion") {
            Err(e) => fail(Flow::ChatDeleting { user_id, chat_ref }, e),
            Ok(()) => ask_core(Flow::ChatDeletedList { chat_ref }, none(), CoreCall::Chats { user_id }),
        },
        Flow::ChatDeletedList { chat_ref } => match chats(&r.value) {
            Err(e) => fail(Flow::ChatDeletedList { chat_ref }, e),
            Ok(cs) => finish(one(SimplexEvent::ChatDeleted { chat_ref, chats: cs })),
        },
        Flow::Inviting => match invitation_link(&r.value) {
            Err(e) => fail(Flow::Inviting, e),
            Ok(link) => finish(one(SimplexEvent::InvitationCreated(link))),
        },
        Flow::Connecting => match connection_started(&r.value) {
            Err(e) => fail(Flow::Connecting, e),
            Ok(()) => finish(one(SimplexEvent::ConnectionStarted)),
        },
        _ => unexpected_step(),
    }
}

fn server_step(flow: Flow, r: CoreReply) -> (s: Step)
    requires
        flow is ServersFetch || flow is ServersSave || flow is ServersReload,
    ensures
        s.deep_view() == settings_reply(flow.deep_view(), r.deep_view()),
{
    match flow {
        Flow::ServersFetch { user_id, change } => match user_servers(&r.value, r.text.as_str()) {
            Err(e) => fail(Flow::ServersFetch { user_id, change }, e),
            Ok(groups) => {
                let edited = match &change {
                    ServerChange::Toggle { protocol, address, enabled } => set_server_enabled(
                        &groups,
                        *protocol,
                        address.as_str(),
                        *enabled,
                    ),
                    ServerChange::Add { protocol, address } => crate::client::add_server(
                        &groups,
                        *protocol,
                        address.as_str(),
                    ),
                };
                match edited {
                    Err(e) => fail(Flow::ServersFetch { user_id, change }, e),
                    Ok(g) => ask_core(Flow::ServersSave { user_id }, none(), CoreCall::SaveServers { user_id, groups: g }),
                }
            },
        },
        Flow::ServersSave { user_id } => match ensure_ok(&r.value, r.text.as_str(), "server configuration") {
            Err(e) => fail(Flow::ServersSave { user_id }, e),
            Ok(()) => ask_core(Flow::ServersReload, none(), CoreCall::Servers { user_id }),
        },
        Flow::ServersReload => match server_entries(&r.value) {
            Err(e) => fail(Flow::ServersReload, e),
            Ok(servers) => finish(one(SimplexEvent::ServersLoaded(servers))),
        },
        _ => unexpected_step(),
    }
}

} // verus!
