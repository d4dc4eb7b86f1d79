use vstd::prelude::*;

use crate::cache::MessageCache;
use crate::messages::{
    copy_message, copy_messages, first_with_id, has_id, ids_distinct, lemma_first_with_id_exists, lemma_index_of_id, index_of_id, lacking, lemma_merged_adds_lacking, lemma_rearranged_ids_distinct, in_time_order, merge_cached, merged, reaction_applied,
    replace_message, replaced, sort_messages, stably_rearranged, status_updated, update_attachment_status,
    update_message_reaction,
};
use crate::model::{
    ChatDeletionSettings, ChatFeatures, ChatRef, ChatSummary, Message, MessageView, ServerEntry,
    SimplexEvent, User, UserView,
};
use crate::state::{
    chat_index, clamp_selection, copy_ref, find_chat, same_chat, clamped, is_chat, lists_chat, position_or_first, servers_of, synced_profile,
    unread_set, AppState, ChatDeletionDialog, InputMode, Section, StartupState,
};
use crate::text::join;
use crate::json::text_eq;

verus! {

/// The notice shows `t`.
pub open spec fn says(n: Option<String>, t: Seq<char>) -> bool {
    n matches Some(s) && s@ == t
}

fn notice(a: &str, b: &str) -> (r: Option<String>)
    ensures
        says(r, a@ + b@),
{
    Some(join(a, b))
}

fn notice_text(a: &str) -> (r: Option<String>)
    ensures
        says(r, a@),
{
    Some(a.to_owned())
}

/// A session's conversation data is dropped: shown and cached messages, the loaded
/// conversation and a pending change of automatic deletion.
pub open spec fn conversations_reset(new: AppState) -> bool {
    &&& new.messages@.len() == 0
    &&& new.message_cache.view() == Map::<Seq<char>, Seq<MessageView>>::empty()
    &&& new.loaded_chat is None
    &&& new.auto_delete_pending is None
}

/// The profiles with only the one of `id` marked active.
pub open spec fn marked_active(ps: Seq<UserView>, id: i64) -> Seq<UserView> {
    ps.map_values(|p: UserView| UserView { active: p.id == id, ..p })
}

/// The deletion dialog is open on conversation `k`.
pub open spec fn dialog_on(s: AppState, k: Seq<char>) -> bool {
    s.chat_deletion_dialog matches Some(d) && d.chat_ref.0@ == k
}

/// Every cached conversation after a file changed transfer status.
pub open spec fn cache_status_updated(
    old: Map<Seq<char>, Seq<MessageView>>,
    new: Map<Seq<char>, Seq<MessageView>>,
    file_id: i64,
    status: Seq<char>,
    path: Option<Seq<char>>,
) -> bool {
    &&& new.dom() == old.dom()
    &&& forall|k: Seq<char>| #[trigger]
        old.contains_key(k) ==> new[k] == status_updated(old[k], file_id, status, path)
}

/// The cache after `m` was added to conversation `k`.
pub open spec fn cached_added(old: MessageCache, k: Seq<char>, m: MessageView, new: MessageCache) -> bool {
    &&& new.view() == old.view().insert(k, new.view()[k])
    &&& has_id(old.cached(k), m.id) ==> new.view()[k] == old.cached(k)
    &&& !has_id(old.cached(k), m.id) ==> {
        &&& new.view()[k].to_multiset() == old.cached(k).to_multiset().insert(m)
        &&& in_time_order(new.view()[k])
        &&& stably_rearranged(new.view()[k], old.cached(k).push(m))
    }
}

/// The file-transfer events, as one step on the messages.
pub open spec fn after_file_status(
    old: AppState,
    file_id: i64,
    status: Seq<char>,
    path: Option<Seq<char>>,
    text: Seq<char>,
    new: AppState,
) -> bool {
    &&& new == AppState {
        messages: new.messages,
        message_cache: new.message_cache,
        notice: new.notice,
        ..old
    }
    &&& new.messages.deep_view() == status_updated(old.messages.deep_view(), file_id, status, path)
    &&& cache_status_updated(
        old.message_cache.view(),
        new.message_cache.view(),
        file_id,
        status,
        path,
    )
    &&& says(new.notice, text)
}

/// The dialog after the worker failed for it.
pub open spec fn dialog_failed(old: AppState, error: String, new: AppState) -> bool {
    match old.chat_deletion_dialog {
        Some(d) => new == AppState {
            chat_deletion_dialog: Some(
                ChatDeletionDialog { pending: false, error: Some(error), ..d },
            ),
            ..old
        },
        None => new == old,
    }
}

impl AppState {
    fn on_ready(&mut self, user: User, chats: Vec<ChatSummary>)
        ensures
            step_ready(*old(self), user, chats, *final(self)),
    {
        self.startup = StartupState::Ready(user);
        self.chats = chats;
        self.selected_chat = crate::state::clamp_selection(self.selected_chat, self.chats.len());
    }

    fn on_profiles_loaded(&mut self, profiles: Vec<User>)
        ensures
            step_profiles_loaded(*old(self), profiles, *final(self)),
    {
        self.profiles = profiles;
        self.sync_selected_profile();
    }

    fn reset_conversations(&mut self)
        ensures
            *final(self) == (AppState {
                messages: final(self).messages,
                message_cache: final(self).message_cache,
                loaded_chat: None,
                auto_delete_pending: None,
                ..*old(self)
            }),
            conversations_reset(*final(self)),
    {
        self.messages = Vec::new();
        self.message_cache.clear();
        self.loaded_chat = None;
        self.auto_delete_pending = None;
    }

    fn mark_active(&mut self, id: i64)
        ensures
            *final(self) == (AppState { profiles: final(self).profiles, ..*old(self) }),
            final(self).profiles.deep_view() == marked_active(old(self).profiles.deep_view(), id),
    {
        let ghost ps = self.profiles.deep_view();
        let mut out: Vec<User> = Vec::new();
        let mut i: usize = 0;
        while i < self.profiles.len()
            invariant
                i <= self.profiles@.len(),
                ps == self.profiles.deep_view(),
                ps.len() == self.profiles@.len(),
                *self == *old(self),
                out.deep_view() == marked_active(ps, id).take(i as int),
            decreases self.profiles.len() - i,
        {
            let p = &self.profiles[i];
            let u = User {
                id: p.id,
                display_name: p.display_name.clone(),
                notifications: p.notifications,
                active: p.id == id,
            };
            let ghost before = out.deep_view();
            out.push(u);
            assert(out.deep_view() =~= before.push(u.deep_view()));
            assert(marked_active(ps, id).take(i + 1) =~= marked_active(ps, id).take(i as int).push(
                u.deep_view(),
            ));
            i = i + 1;
        }
        assert(marked_active(ps, id).take(ps.len() as int) =~= marked_active(ps, id));
        self.profiles = out;
    }

    fn on_profile_activated(&mut self, user: User, chats: Vec<ChatSummary>)
        ensures
            after_profile_activated(*old(self), user, chats, *final(self)),
    {
        let id = user.id;
        self.startup = StartupState::Ready(user);
        self.chats = chats;
        self.reset_conversations();
        self.invitation_link = None;
        self.invitation_error = None;
        self.notice = notice_text("Profile activated");
        self.mark_active(id);
        self.sync_selected_profile();
    }

    fn on_profile_created(&mut self, user: User, profiles: Vec<User>, chats: Vec<ChatSummary>)
        ensures
            after_profile_created(*old(self), user, profiles, chats, *final(self)),
    {
        self.startup = StartupState::Ready(user);
        self.profiles = profiles;
        self.chats = chats;
        self.reset_conversations();
        self.profile_create_pending = false;
        self.input_mode = InputMode::Idle;
        self.input = String::new();
        self.invitation_link = None;
        self.invitation_error = None;
        self.notice = notice_text("Profile created");
        self.sync_selected_profile();
    }

    fn on_profile_deleted(
        &mut self,
        profiles: Vec<User>,
        active_user: Option<User>,
        chats: Vec<ChatSummary>,
    )
        ensures
            after_profile_deleted(*old(self), profiles, active_user, chats, *final(self)),
    {
        self.profiles = profiles;
        self.chats = chats;
        self.reset_conversations();
        self.selected_chat = 0;
        self.startup = match active_user {
            Some(u) => StartupState::Ready(u),
            None => StartupState::NoActiveUser,
        };
        self.notice = notice_text("Profile deleted");
        self.sync_selected_profile();
    }

    fn on_dialog_data(
        &mut self,
        chat_ref: &ChatRef,
        settings: Option<ChatDeletionSettings>,
        features: Option<ChatFeatures>,
    ) -> (matched: bool)
        ensures
            matched == dialog_on(*old(self), chat_ref.0@),
            matched ==> *final(self) == (AppState {
                chat_deletion_dialog: Some(
                    loaded_dialog(old(self).chat_deletion_dialog->0, settings, features),
                ),
                ..*old(self)
            }),
            !matched ==> *final(self) == *old(self),
    {
        let matched = match &self.chat_deletion_dialog {
            Some(d) => crate::json::text_eq(d.chat_ref.0.as_str(), chat_ref.0.as_str()),
            None => false,
        };
        if matched {
            let d = self.chat_deletion_dialog.take();
            match d {
                Some(d) => {
                    let settings = match settings {
                        Some(s) => Some(s),
                        None => d.settings,
                    };
                    let features = match features {
                        Some(f) => Some(f),
                        None => d.features,
                    };
                    self.chat_deletion_dialog = Some(
                        ChatDeletionDialog {
                            chat_ref: d.chat_ref,
                            settings,
                            features,
                            selected: d.selected,
                            pending: false,
                            error: None,
                        },
                    );
                },
                None => {},
            }
        }
        matched
    }

    fn on_dialog_failed(&mut self, error: String)
        ensures
            dialog_failed(*old(self), error, *final(self)),
    {
        let d = self.chat_deletion_dialog.take();
        match d {
            Some(d) => {
                self.chat_deletion_dialog = Some(
                    ChatDeletionDialog {
                        chat_ref: d.chat_ref,
                        settings: d.settings,
                        features: d.features,
                        selected: d.selected,
                        pending: false,
                        error: Some(error),
                    },
                );
            },
            None => {},
        }
    }

    fn on_file_status(&mut self, file_id: i64, status: &str, path: Option<&str>, text: String)
        ensures
            after_file_status(
                *old(self),
                file_id,
                status@,
                match path {
                    Some(p) => Some(p@),
                    None => None,
                },
                text@,
                *final(self),
            ),
    {
        update_attachment_status(&mut self.messages, file_id, status, path);
        self.message_cache.update_attachment_status(file_id, status, path);
        self.notice = Some(text);
    }
}

/// What a change of active profile does.
pub open spec fn after_profile_activated(
    old: AppState,
    user: User,
    chats: Vec<ChatSummary>,
    new: AppState,
) -> bool {
    &&& new == AppState {
        startup: StartupState::Ready(user),
        chats: chats,
        messages: new.messages,
        message_cache: new.message_cache,
        loaded_chat: None,
        auto_delete_pending: None,
        invitation_link: None,
        invitation_error: None,
        notice: new.notice,
        profiles: new.profiles,
        selected_profile: synced_profile(new.profiles.deep_view(), old.selected_profile),
        ..old
    }
    &&& conversations_reset(new)
    &&& new.profiles.deep_view() == marked_active(old.profiles.deep_view(), user.id)
    &&& says(new.notice, "Profile activated"@)
}

/// What a new profile does.
pub open spec fn after_profile_created(
    old: AppState,
    user: User,
    profiles: Vec<User>,
    chats: Vec<ChatSummary>,
    new: AppState,
) -> bool {
    &&& new == AppState {
        startup: StartupState::Ready(user),
        profiles: profiles,
        chats: chats,
        messages: new.messages,
        message_cache: new.message_cache,
        loaded_chat: None,
        auto_delete_pending: None,
        profile_create_pending: false,
        input_mode: InputMode::Idle,
        input: new.input,
        invitation_link: None,
        invitation_error: None,
        notice: new.notice,
        selected_profile: synced_profile(profiles.deep_view(), old.selected_profile),
        ..old
    }
    &&& conversations_reset(new)
    &&& new.input@.len() == 0
    &&& says(new.notice, "Profile created"@)
}

/// What the deletion of a profile does.
pub open spec fn after_profile_deleted(
    old: AppState,
    profiles: Vec<User>,
    active_user: Option<User>,
    chats: Vec<ChatSummary>,
    new: AppState,
) -> bool {
    &&& new == AppState {
        profiles: profiles,
        chats: chats,
        messages: new.messages,
        message_cache: new.message_cache,
        loaded_chat: None,
        auto_delete_pending: None,
        selected_chat: 0,
        startup: match active_user {
            Some(u) => StartupState::Ready(u),
            None => StartupState::NoActiveUser,
        },
        notice: new.notice,
        selected_profile: synced_profile(profiles.deep_view(), old.selected_profile),
        ..old
    }
    &&& conversations_reset(new)
    &&& says(new.notice, "Profile deleted"@)
}

/// A conversation is shown: the Chats section selects it, it is loaded and not loading.
pub open spec fn shown(s: AppState, k: Seq<char>) -> bool {
    &&& s.section == Section::Chats
    &&& s.selected_ref() == Some(k)
    &&& is_chat(s.loaded_chat, k)
    &&& !s.chat_loading
}

pub open spec fn usize_up(x: usize) -> usize {
    if x == usize::MAX {
        x
    } else {
        (x + 1) as usize
    }
}

/// The message `m` of conversation `k` was cached before.
pub open spec fn cached_already(s: AppState, k: Seq<char>, id: i64) -> bool {
    s.message_cache.view().contains_key(k) && has_id(s.message_cache.view()[k], id)
}

/// What a new message does. A message whose id is cached already changes nothing. The bell
/// rings for an incoming message when the user asked for it. The rest depends on whether its
/// conversation is shown.
pub open spec fn after_message(old: AppState, chat_ref: ChatRef, m: Message, new: AppState, bell: bool) -> bool {
    let k = chat_ref.0@;
    if cached_already(old, k, m.id) {
        new == old && !bell
    } else {
        &&& bell == (!m.outgoing && old.preferences.notification_sound)
        &&& if shown(old, k) {
            after_shown_message(old, k, m, new)
        } else {
            after_hidden_message(old, k, m, new)
        }
    }
}

/// A shown conversation gets the message at its end (once); an incoming one counts as unread
/// and keeps the viewport, an outgoing one keeps the viewport only when it is scrolled up. The
/// message is cached.
pub open spec fn after_shown_message(old: AppState, k: Seq<char>, m: Message, new: AppState) -> bool {
    if has_id(old.messages.deep_view(), m.id) {
        new == old
    } else {
        &&& new == AppState {
            messages: new.messages,
            message_cache: new.message_cache,
            chat_scroll: new.chat_scroll,
            new_messages_below: new.new_messages_below,
            chats: new.chats,
            ..old
        }
        &&& new.messages.deep_view() == old.messages.deep_view().push(m.deep_view())
        &&& cached_added(old.message_cache, k, m.deep_view(), new.message_cache)
        &&& if !m.outgoing {
            &&& new.chat_scroll == usize_up(old.chat_scroll)
            &&& new.new_messages_below == usize_up(old.new_messages_below)
            &&& new.chats.deep_view() == unread_set(
                old.chats.deep_view(),
                k,
                |c: u64| crate::messages::count_up(c),
            )
        } else {
            &&& new.chats == old.chats
            &&& new.new_messages_below == old.new_messages_below
            &&& new.chat_scroll == if old.chat_scroll > 0 {
                usize_up(old.chat_scroll)
            } else {
                old.chat_scroll
            }
        }
    }
}

/// For a conversation that is not shown, an incoming message counts as unread; the message is
/// cached.
pub open spec fn after_hidden_message(old: AppState, k: Seq<char>, m: Message, new: AppState) -> bool {
    &&& new == AppState { chats: new.chats, message_cache: new.message_cache, ..old }
    &&& new.chats.deep_view() == if !m.outgoing {
        unread_set(old.chats.deep_view(), k, |c: u64| (c + 1) as u64)
    } else {
        old.chats.deep_view()
    }
    &&& cached_added(old.message_cache, k, m.deep_view(), new.message_cache)
}

/// What a loaded conversation does: when it is still the selected one, its messages merged with
/// the cached ones, in time order (messages with the same time stamp and id in the order the
/// merge gave them), are shown from the newest and cached.
pub open spec fn after_chat_loaded(old: AppState, chat_ref: ChatRef, messages: Vec<Message>, new: AppState) -> bool {
    let k = chat_ref.0@;
    if old.selected_ref() == Some(k) {
        let all = merged(messages.deep_view(), old.message_cache.cached(k));
        &&& new == AppState {
            message_cache: new.message_cache,
            loaded_chat: new.loaded_chat,
            chat_loading: false,
            messages: new.messages,
            chat_error: None,
            chat_scroll: 0,
            new_messages_below: 0,
            ..old
        }
        &&& is_chat(new.loaded_chat, k)
        &&& new.messages.deep_view().to_multiset() == all.to_multiset()
        &&& in_time_order(new.messages.deep_view())
        &&& stably_rearranged(new.messages.deep_view(), all)
        &&& new.message_cache.view() == old.message_cache.view().insert(k, new.messages.deep_view())
    } else {
        new == old
    }
}

/// The dialog once data of its conversation arrived.
pub open spec fn loaded_dialog(
    d: ChatDeletionDialog,
    settings: Option<ChatDeletionSettings>,
    features: Option<ChatFeatures>,
) -> ChatDeletionDialog {
    ChatDeletionDialog {
        settings: if settings is Some {
            settings
        } else {
            d.settings
        },
        features: if features is Some {
            features
        } else {
            d.features
        },
        pending: false,
        error: None,
        ..d
    }
}

/// What each event of the worker does to the interface, and whether the terminal bell rings.
pub open spec fn event_applied(old: AppState, e: SimplexEvent, new: AppState, bell: bool) -> bool {
    match e {
        SimplexEvent::MessageReceived { chat_ref, message } => after_message(
            old,
            chat_ref,
            message,
            new,
            bell,
        ),
        _ => !bell && event_step(old, e, new),
    }
}

/// What each event other than a new message does.
pub open spec fn event_step(old: AppState, e: SimplexEvent, new: AppState) -> bool {
    match e {
        SimplexEvent::Ready { user, chats } => step_ready(old, user, chats, new),
        SimplexEvent::ProfilesLoaded(profiles) => step_profiles_loaded(old, profiles, new),
        SimplexEvent::ProfileActivated { user, chats } => after_profile_activated(
            old,
            user,
            chats,
            new,
        ),
        SimplexEvent::ProfileCreated { user, profiles, chats } => after_profile_created(
            old,
            user,
            profiles,
            chats,
            new,
        ),
        SimplexEvent::ProfileDeleted { profiles, active_user, chats } => after_profile_deleted(
            old,
            profiles,
            active_user,
            chats,
            new,
        ),
        SimplexEvent::ProfileDeleteFailed(error) => noticed(
            old,
            "Could not delete profile: "@ + error@,
            new,
        ),
        SimplexEvent::SettingChanged(message) => step_setting_changed(old, message, new),
        SimplexEvent::AutoDeleteLoaded(seconds) => step_auto_delete(old, seconds, false, new),
        SimplexEvent::AutoDeleteChanged(seconds) => step_auto_delete(old, seconds, true, new),
        SimplexEvent::AutoDeleteFailed(error) => step_auto_delete_failed(old, error, new),
        SimplexEvent::ChatDeletionLoaded { chat_ref, settings } => step_dialog_data(
            old,
            chat_ref.0@,
            Some(settings),
            None,
            false,
            new,
        ),
        SimplexEvent::ChatDeletionChanged { chat_ref, settings } => step_dialog_data(
            old,
            chat_ref.0@,
            Some(settings),
            None,
            true,
            new,
        ),
        SimplexEvent::ChatDeletionFailed(error) => dialog_failed(old, error, new),
        SimplexEvent::ConversationFeaturesLoaded { chat_ref, features } => step_dialog_data(
            old,
            chat_ref.0@,
            None,
            Some(features),
            false,
            new,
        ),
        SimplexEvent::ConversationFeaturesChanged { chat_ref, features } => step_dialog_data(
            old,
            chat_ref.0@,
            None,
            Some(features),
            false,
            new,
        ),
        SimplexEvent::ConversationFeaturesFailed(error) => dialog_failed(old, error, new),
        SimplexEvent::ChatDeleted { chat_ref, chats } => step_chat_deleted(old, chat_ref, chats, new),
        SimplexEvent::ChatDeleteFailed(error) => step_chat_delete_failed(old, error, new),
        SimplexEvent::FileDownloadStarted { file_id, path } => after_file_status(
            old,
            file_id,
            "rcvTransfer"@,
            Some(path@),
            "Downloading to "@ + path@,
            new,
        ),
        SimplexEvent::FileDownloadFailed { file_id, error } => after_file_status(
            old,
            file_id,
            "rcvError"@,
            None,
            "Could not download file: "@ + error@,
            new,
        ),
        SimplexEvent::FileDownloadCancelled { file_id } => after_file_status(
            old,
            file_id,
            "rcvCancelled"@,
            None,
            "Download cancelled"@,
            new,
        ),
        SimplexEvent::FileUpdated { chat_ref, message } => step_file_updated(
            old,
            chat_ref,
            message,
            new,
        ),
        SimplexEvent::ServersLoaded(servers) => step_servers_loaded(old, servers, new),
        SimplexEvent::ServersUpdateFailed(error) => noticed(
            old,
            "Could not update servers: "@ + error@,
            new,
        ),
        SimplexEvent::ChatFeaturesLoaded(features) => step_chat_features(old, features, new),
        SimplexEvent::InvitationCreated(link) => step_invitation(old, Some(link), None, new),
        SimplexEvent::InvitationFailed(error) => step_invitation(old, None, Some(error), new),
        SimplexEvent::ConnectionStarted => step_connection_started(old, new),
        SimplexEvent::ConnectionFailed(error) => step_connection_failed(old, error, new),
        SimplexEvent::ChatLoaded { chat_ref, messages } => after_chat_loaded(
            old,
            chat_ref,
            messages,
            new,
        ),
        SimplexEvent::ChatMarkedRead(chat_ref) => step_marked_read(old, chat_ref, new),
        SimplexEvent::ContactConnected { chats, chat_ref } => step_contact_connected(
            old,
            chats,
            chat_ref,
            new,
        ),
        SimplexEvent::MessageReceived { chat_ref, message } => false,
        SimplexEvent::ChatLoadFailed { chat_ref, error } => step_chat_load_failed(
            old,
            chat_ref,
            error,
            new,
        ),
        SimplexEvent::MessageSent { chat_ref, text } => step_message_sent(old, chat_ref, text, new),
        SimplexEvent::MessageSendFailed { chat_ref, error } => step_send_failed(
            old,
            chat_ref,
            error,
            new,
        ),
        SimplexEvent::ReactionChanged { chat_ref, item_id, emoji, added, user_reacted } =>
            step_reaction_changed(old, chat_ref, item_id, emoji, added, user_reacted, new),
        SimplexEvent::NoActiveUser => step_startup(old, StartupState::NoActiveUser, new),
        SimplexEvent::Failed(error) => step_startup(old, StartupState::Failed(error), new),
    }
}

pub open spec fn step_ready(old: AppState, user: User, chats: Vec<ChatSummary>, new: AppState) -> bool {
    new == AppState {
        startup: StartupState::Ready(user),
        chats: chats,
        selected_chat: clamped(old.selected_chat, chats@.len() as int),
        ..old
    }
}

pub open spec fn step_profiles_loaded(old: AppState, profiles: Vec<User>, new: AppState) -> bool {
    new == AppState {
        profiles: profiles,
        selected_profile: synced_profile(profiles.deep_view(), old.selected_profile),
        ..old
    }
}

/// Only the notice changes, to `text`.
pub open spec fn noticed(old: AppState, text: Seq<char>, new: AppState) -> bool {
    new == AppState { notice: new.notice, ..old } && says(new.notice, text)
}

pub open spec fn step_setting_changed(old: AppState, message: String, new: AppState) -> bool {
    new == AppState { notice: Some(message), ..old }
}

/// The automatic deletion period that the core reports; a change is announced.
pub open spec fn step_auto_delete(old: AppState, seconds: i64, changed: bool, new: AppState) -> bool {
    &&& new == AppState {
        auto_delete_seconds: seconds,
        auto_delete_pending: None,
        notice: new.notice,
        ..old
    }
    &&& if changed {
        says(new.notice, "Automatic deletion updated"@)
    } else {
        new.notice == old.notice
    }
}

pub open spec fn step_auto_delete_failed(old: AppState, error: String, new: AppState) -> bool {
    &&& new == AppState { auto_delete_pending: None, notice: new.notice, ..old }
    &&& says(new.notice, "Could not update automatic deletion: "@ + error@)
}

/// Data for the deletion dialog of conversation `k`: ignored unless the dialog is open on it; a
/// change of the deletion settings is announced.
pub open spec fn step_dialog_data(
    old: AppState,
    k: Seq<char>,
    settings: Option<ChatDeletionSettings>,
    features: Option<ChatFeatures>,
    announce: bool,
    new: AppState,
) -> bool {
    if dialog_on(old, k) {
        &&& new == AppState {
            chat_deletion_dialog: Some(
                loaded_dialog(old.chat_deletion_dialog->0, settings, features),
            ),
            notice: new.notice,
            ..old
        }
        &&& if announce {
            says(new.notice, "Chat deletion updated"@)
        } else {
            new.notice == old.notice
        }
    } else {
        new == old
    }
}

pub open spec fn step_chat_deleted(old: AppState, chat_ref: ChatRef, chats: Vec<ChatSummary>, new: AppState) -> bool {
    &&& new == AppState {
        chats: chats,
        message_cache: new.message_cache,
        selected_chat: clamped(old.selected_chat, chats@.len() as int),
        loaded_chat: None,
        messages: new.messages,
        chat_deletion_dialog: None,
        chat_delete_confirmation: None,
        notice: new.notice,
        ..old
    }
    &&& new.message_cache.view() == old.message_cache.view().remove(chat_ref.0@)
    &&& new.messages@.len() == 0
    &&& says(new.notice, "Chat updated"@)
}

pub open spec fn step_chat_delete_failed(old: AppState, error: String, new: AppState) -> bool {
    match old.chat_deletion_dialog {
        Some(d) => new == AppState {
            chat_delete_confirmation: None,
            chat_deletion_dialog: Some(ChatDeletionDialog { pending: false, error: Some(error), ..d }),
            ..old
        },
        None => new == AppState { chat_delete_confirmation: None, notice: new.notice, ..old }
            && says(new.notice, "Could not delete chat: "@ + error@),
    }
}

pub open spec fn step_file_updated(old: AppState, chat_ref: ChatRef, message: Message, new: AppState) -> bool {
    &&& new == AppState { messages: new.messages, message_cache: new.message_cache, ..old }
    &&& new.messages.deep_view() == if is_chat(old.loaded_chat, chat_ref.0@) {
        replaced(old.messages.deep_view(), message.deep_view())
    } else {
        old.messages.deep_view()
    }
    &&& new.message_cache.view() == if old.message_cache.view().contains_key(chat_ref.0@) {
        old.message_cache.view().insert(
            chat_ref.0@,
            replaced(old.message_cache.view()[chat_ref.0@], message.deep_view()),
        )
    } else {
        old.message_cache.view()
    }
}

pub open spec fn step_servers_loaded(old: AppState, servers: Vec<ServerEntry>, new: AppState) -> bool {
    new == AppState {
        servers: servers,
        selected_server: clamped(
            old.selected_server,
            servers_of(servers.deep_view(), old.server_protocol),
        ),
        ..old
    }
}

pub open spec fn step_chat_features(old: AppState, features: ChatFeatures, new: AppState) -> bool {
    new == AppState { chat_features: features, ..old }
}

/// An invitation link was made, or could not be.
pub open spec fn step_invitation(old: AppState, link: Option<String>, error: Option<String>, new: AppState) -> bool {
    new == AppState {
        invitation_link: if link is Some {
            link
        } else {
            old.invitation_link
        },
        invitation_loading: false,
        invitation_error: error,
        ..old
    }
}

pub open spec fn step_connection_started(old: AppState, new: AppState) -> bool {
    &&& new == AppState {
        connection_loading: false,
        connection_error: None,
        notice: new.notice,
        ..old
    }
    &&& says(new.notice, "Connection request sent; waiting for contact…"@)
}

pub open spec fn step_connection_failed(old: AppState, error: String, new: AppState) -> bool {
    new == AppState { connection_loading: false, connection_error: Some(error), ..old }
}

pub open spec fn step_marked_read(old: AppState, chat_ref: ChatRef, new: AppState) -> bool {
    &&& new == AppState { chats: new.chats, ..old }
    &&& new.chats.deep_view() == unread_set(old.chats.deep_view(), chat_ref.0@, |c: u64| 0u64)
}

pub open spec fn step_contact_connected(
    old: AppState,
    chats: Vec<ChatSummary>,
    chat_ref: ChatRef,
    new: AppState,
) -> bool {
    &&& new == AppState {
        chats: chats,
        section: Section::Chats,
        selected_chat: position_or_first(chats.deep_view(), chat_ref.0@) as usize,
        loaded_chat: None,
        messages: new.messages,
        chat_loading: false,
        chat_error: None,
        invitation_link: None,
        invitation_loading: false,
        invitation_error: None,
        connection_loading: false,
        connection_error: None,
        chat_scroll: 0,
        new_messages_below: 0,
        notice: new.notice,
        ..old
    }
    &&& new.messages@.len() == 0
    &&& says(new.notice, "Contact connected"@)
}

pub open spec fn step_chat_load_failed(old: AppState, chat_ref: ChatRef, error: String, new: AppState) -> bool {
    if old.selected_ref() == Some(chat_ref.0@) {
        &&& new == AppState {
            loaded_chat: new.loaded_chat,
            chat_loading: false,
            messages: new.messages,
            chat_error: Some(error),
            ..old
        }
        &&& is_chat(new.loaded_chat, chat_ref.0@)
        &&& new.messages@.len() == 0
    } else {
        new == old
    }
}

/// A sent message ends the sending; the composer is emptied when it still holds the sent text.
pub open spec fn step_message_sent(old: AppState, chat_ref: ChatRef, text: String, new: AppState) -> bool {
    if old.selected_ref() == Some(chat_ref.0@) {
        &&& new == AppState { composer: new.composer, sending: false, chat_error: None, ..old }
        &&& if old.composer@ == text@ {
            new.composer@.len() == 0
        } else {
            new.composer == old.composer
        }
    } else {
        new == old
    }
}

pub open spec fn step_send_failed(old: AppState, chat_ref: ChatRef, error: String, new: AppState) -> bool {
    if old.selected_ref() == Some(chat_ref.0@) {
        new == AppState { sending: false, chat_error: Some(error), ..old }
    } else {
        new == old
    }
}

pub open spec fn step_reaction_changed(
    old: AppState,
    chat_ref: ChatRef,
    item_id: i64,
    emoji: String,
    added: bool,
    user_reacted: bool,
    new: AppState,
) -> bool {
    &&& new == AppState { messages: new.messages, message_cache: new.message_cache, ..old }
    &&& new.messages.deep_view() == if is_chat(old.loaded_chat, chat_ref.0@) {
        reaction_applied(old.messages.deep_view(), item_id, emoji@, added, user_reacted)
    } else {
        old.messages.deep_view()
    }
    &&& new.message_cache.view() == if old.message_cache.view().contains_key(chat_ref.0@) {
        old.message_cache.view().insert(
            chat_ref.0@,
            reaction_applied(
                old.message_cache.view()[chat_ref.0@],
                item_id,
                emoji@,
                added,
                user_reacted,
            ),
        )
    } else {
        old.message_cache.view()
    }
}

pub open spec fn step_startup(old: AppState, startup: StartupState, new: AppState) -> bool {
    new == AppState { startup: startup, ..old }
}

/// The events that the interface can take: a new incoming message for a conversation that is
/// not shown may not find that conversation's unread count at its largest value.
pub open spec fn event_allowed(s: AppState, e: SimplexEvent) -> bool {
    match e {
        SimplexEvent::MessageReceived { chat_ref, message } => {
            let k = chat_ref.0@;
            (!(s.message_cache.view().contains_key(k) && has_id(s.message_cache.view()[k], message.id))
                && !message.outgoing && !shown(s, k) && lists_chat(s.chats.deep_view(), k))
                ==> s.chats.deep_view()[chat_index(s.chats.deep_view(), k)].unread_count < u64::MAX
        },
        _ => true,
    }
}

impl AppState {
    fn selects(&self, chat_ref: &ChatRef) -> (r: bool)
        ensures
            r == (self.selected_ref() == Some(chat_ref.0@)),
    {
        match self.selected_chat_ref() {
            Some(k) => text_eq(k.0.as_str(), chat_ref.0.as_str()),
            None => false,
        }
    }

    fn shows(&self, chat_ref: &ChatRef) -> (r: bool)
        ensures
            r == shown(*self, chat_ref.0@),
    {
        self.section == Section::Chats && self.selects(chat_ref) && same_chat(
            &self.loaded_chat,
            chat_ref,
        ) && !self.chat_loading
    }

    /// Whether the interface can take the event (see `event_allowed`).
    pub fn accepts(&self, event: &SimplexEvent) -> (r: bool)
        ensures
            r == event_allowed(*self, *event),
    {
        match event {
            SimplexEvent::MessageReceived { chat_ref, message } => {
                if self.message_cache.has_message(chat_ref, message.id) || message.outgoing
                    || self.shows(chat_ref) {
                    true
                } else {
                    match find_chat(&self.chats, chat_ref) {
                        Some(i) => self.chats[i].unread_count < u64::MAX,
                        None => true,
                    }
                }
            },
            _ => true,
        }
    }

    fn bump_unread(&mut self, chat_ref: &ChatRef, saturate: bool)
        requires
            !saturate && lists_chat(old(self).chats.deep_view(), chat_ref.0@) ==> old(
                self,
            ).chats.deep_view()[chat_index(old(self).chats.deep_view(), chat_ref.0@)].unread_count
                < u64::MAX,
        ensures
            *final(self) == (AppState { chats: final(self).chats, ..*old(self) }),
            saturate ==> final(self).chats.deep_view() == unread_set(
                old(self).chats.deep_view(),
                chat_ref.0@,
                |c: u64| crate::messages::count_up(c),
            ),
            !saturate ==> final(self).chats.deep_view() == unread_set(
                old(self).chats.deep_view(),
                chat_ref.0@,
                |c: u64| (c + 1) as u64,
            ),
    {
        match find_chat(&self.chats, chat_ref) {
            Some(i) => {
                let c = self.chats[i].unread_count;
                let n = if c == u64::MAX {
                    c
                } else {
                    c + 1
                };
                self.set_unread_at(i, n);
            },
            None => {},
        }
    }

    fn deliver_shown(&mut self, chat_ref: &ChatRef, message: Message)
        requires
            !cached_already(*old(self), chat_ref.0@, message.id),
        ensures
            after_shown_message(*old(self), chat_ref.0@, message, *final(self)),
    {
        if crate::messages::contains_id(&self.messages, message.id) {
            return ;
        }
        let outgoing = message.outgoing;
        let copy = copy_message(&message);
        let ghost before = self.messages.deep_view();
        self.messages.push(copy);
        assert(self.messages.deep_view() =~= before.push(message.deep_view()));
        self.message_cache.cache_message(chat_ref, message);
        if !outgoing {
            self.chat_scroll = if self.chat_scroll == usize::MAX {
                self.chat_scroll
            } else {
                self.chat_scroll + 1
            };
            self.new_messages_below = if self.new_messages_below == usize::MAX {
                self.new_messages_below
            } else {
                self.new_messages_below + 1
            };
            self.bump_unread(chat_ref, true);
        } else if self.chat_scroll > 0 {
            self.chat_scroll = if self.chat_scroll == usize::MAX {
                self.chat_scroll
            } else {
                self.chat_scroll + 1
            };
        }
    }

    fn deliver_hidden(&mut self, chat_ref: &ChatRef, message: Message)
        requires
            !message.outgoing && lists_chat(old(self).chats.deep_view(), chat_ref.0@) ==> old(
                self,
            ).chats.deep_view()[chat_index(old(self).chats.deep_view(), chat_ref.0@)].unread_count
                < u64::MAX,
        ensures
            after_hidden_message(*old(self), chat_ref.0@, message, *final(self)),
    {
        if !message.outgoing {
            self.bump_unread(chat_ref, false);
        }
        self.message_cache.cache_message(chat_ref, message);
    }

    fn on_message(&mut self, chat_ref: ChatRef, message: Message) -> (bell: bool)
        requires
            event_allowed(*old(self), SimplexEvent::MessageReceived { chat_ref, message }),
        ensures
            after_message(*old(self), chat_ref, message, *final(self), bell),
    {
        if self.message_cache.has_message(&chat_ref, message.id) {
            return false;
        }
        let bell = !message.outgoing && self.preferences.notification_sound;
        if self.shows(&chat_ref) {
            self.deliver_shown(&chat_ref, message);
        } else {
            self.deliver_hidden(&chat_ref, message);
        }
        bell
    }

    fn say(&mut self, a: &str, b: &str)
        ensures
            noticed(*old(self), a@ + b@, *final(self)),
    {
        self.notice = notice(a, b);
    }

    fn on_setting_changed(&mut self, message: String)
        ensures
            step_setting_changed(*old(self), message, *final(self)),
    {
        self.notice = Some(message);
    }

    fn on_auto_delete(&mut self, seconds: i64, changed: bool)
        ensures
            step_auto_delete(*old(self), seconds, changed, *final(self)),
    {
        self.auto_delete_seconds = seconds;
        self.auto_delete_pending = None;
        if changed {
            self.notice = notice_text("Automatic deletion updated");
        }
    }

    fn on_auto_delete_failed(&mut self, error: String)
        ensures
            step_auto_delete_failed(*old(self), error, *final(self)),
    {
        self.auto_delete_pending = None;
        self.notice = notice("Could not update automatic deletion: ", error.as_str());
    }

    fn on_dialog_event(
        &mut self,
        chat_ref: &ChatRef,
        settings: Option<ChatDeletionSettings>,
        features: Option<ChatFeatures>,
        announce: bool,
    )
        ensures
            step_dialog_data(*old(self), chat_ref.0@, settings, features, announce, *final(self)),
    {
        if self.on_dialog_data(chat_ref, settings, features) && announce {
            self.notice = notice_text("Chat deletion updated");
        }
    }

    fn on_chat_features(&mut self, features: ChatFeatures)
        ensures
            step_chat_features(*old(self), features, *final(self)),
    {
        self.chat_features = features;
    }

    fn on_invitation(&mut self, link: Option<String>, error: Option<String>)
        ensures
            step_invitation(*old(self), link, error, *final(self)),
    {
        if link.is_some() {
            self.invitation_link = link;
        }
        self.invitation_loading = false;
        self.invitation_error = error;
    }

    fn on_connection_started(&mut self)
        ensures
            step_connection_started(*old(self), *final(self)),
    {
        self.connection_loading = false;
        self.connection_error = None;
        self.notice = notice_text("Connection request sent; waiting for contact…");
    }

    fn on_connection_failed(&mut self, error: String)
        ensures
            step_connection_failed(*old(self), error, *final(self)),
    {
        self.connection_loading = false;
        self.connection_error = Some(error);
    }

    fn on_startup(&mut self, startup: StartupState)
        ensures
            step_startup(*old(self), startup, *final(self)),
    {
        self.startup = startup;
    }

    fn on_chat_loaded(&mut self, chat_ref: ChatRef, messages: Vec<Message>)
        ensures
            after_chat_loaded(*old(self), chat_ref, messages, *final(self)),
    {
        if !self.selects(&chat_ref) {
            return ;
        }
        let ghost k = chat_ref.0@;
        let mut all = messages;
        match self.message_cache.get(&chat_ref) {
            Some(cached) => merge_cached(&mut all, cached),
            None => {
                assert(merged(all.deep_view(), self.message_cache.cached(k)) =~= all.deep_view());
            },
        }
        sort_messages(&mut all);
        self.message_cache.insert(copy_ref(&chat_ref), copy_messages(&all));
        self.loaded_chat = Some(chat_ref);
        self.chat_loading = false;
        self.messages = all;
        self.chat_error = None;
        self.chat_scroll = 0;
        self.new_messages_below = 0;
    }

    fn on_chat_deleted(&mut self, chat_ref: ChatRef, chats: Vec<ChatSummary>)
        ensures
            step_chat_deleted(*old(self), chat_ref, chats, *final(self)),
    {
        self.chats = chats;
        self.message_cache.remove(&chat_ref);
        self.selected_chat = clamp_selection(self.selected_chat, self.chats.len());
        self.loaded_chat = None;
        self.messages = Vec::new();
        self.chat_deletion_dialog = None;
        self.chat_delete_confirmation = None;
        self.notice = notice_text("Chat updated");
    }

    fn on_chat_delete_failed(&mut self, error: String)
        ensures
            step_chat_delete_failed(*old(self), error, *final(self)),
    {
        self.chat_delete_confirmation = None;
        if self.chat_deletion_dialog.is_some() {
            self.on_dialog_failed(error);
        } else {
            self.notice = notice("Could not delete chat: ", error.as_str());
        }
    }

    fn on_file_updated(&mut self, chat_ref: ChatRef, message: Message)
        ensures
            step_file_updated(*old(self), chat_ref, message, *final(self)),
    {
        if same_chat(&self.loaded_chat, &chat_ref) {
            replace_message(&mut self.messages, copy_message(&message));
        }
        self.message_cache.replace(&chat_ref, message);
    }

    fn on_servers_loaded(&mut self, servers: Vec<ServerEntry>)
        ensures
            step_servers_loaded(*old(self), servers, *final(self)),
    {
        self.servers = servers;
        let n = self.visible_server_count();
        self.selected_server = clamp_selection(self.selected_server, n);
    }

    fn on_chat_marked_read(&mut self, chat_ref: ChatRef)
        ensures
            step_marked_read(*old(self), chat_ref, *final(self)),
    {
        match find_chat(&self.chats, &chat_ref) {
            Some(i) => self.set_unread_at(i, 0),
            None => {},
        }
    }

    fn on_contact_connected(&mut self, chats: Vec<ChatSummary>, chat_ref: ChatRef)
        ensures
            step_contact_connected(*old(self), chats, chat_ref, *final(self)),
    {
        let selected = match find_chat(&chats, &chat_ref) {
            Some(i) => i,
            None => 0,
        };
        self.chats = chats;
        self.section = Section::Chats;
        self.selected_chat = selected;
        self.loaded_chat = None;
        self.messages = Vec::new();
        self.chat_loading = false;
        self.chat_error = None;
        self.invitation_link = None;
        self.invitation_loading = false;
        self.invitation_error = None;
        self.connection_loading = false;
        self.connection_error = None;
        self.jump_to_latest();
        self.notice = notice_text("Contact connected");
    }

    fn on_chat_load_failed(&mut self, chat_ref: ChatRef, error: String)
        ensures
            step_chat_load_failed(*old(self), chat_ref, error, *final(self)),
    {
        if self.selects(&chat_ref) {
            self.loaded_chat = Some(chat_ref);
            self.chat_loading = false;
            self.messages = Vec::new();
            self.chat_error = Some(error);
        }
    }

    fn on_message_sent(&mut self, chat_ref: ChatRef, text: String)
        ensures
            step_message_sent(*old(self), chat_ref, text, *final(self)),
    {
        if self.selects(&chat_ref) {
            let clear = text_eq(self.composer.as_str(), text.as_str());
            let ghost before = *self;
            self.sending = false;
            self.chat_error = None;
            if clear {
                self.composer = String::new();
                assert(*self == (AppState { composer: self.composer, sending: false, chat_error: None, ..before }));
            }
        }
    }

    fn on_send_failed(&mut self, chat_ref: ChatRef, error: String)
        ensures
            step_send_failed(*old(self), chat_ref, error, *final(self)),
    {
        if self.selects(&chat_ref) {
            self.sending = false;
            self.chat_error = Some(error);
        }
    }

    fn on_reaction_changed(
        &mut self,
        chat_ref: ChatRef,
        item_id: i64,
        emoji: String,
        added: bool,
        user_reacted: bool,
    )
        ensures
            step_reaction_changed(
                *old(self),
                chat_ref,
                item_id,
                emoji,
                added,
                user_reacted,
                *final(self),
            ),
    {
        if same_chat(&self.loaded_chat, &chat_ref) {
            update_message_reaction(
                &mut self.messages,
                item_id,
                emoji.as_str(),
                added,
                user_reacted,
            );
        }
        self.message_cache.update_reaction(&chat_ref, item_id, emoji.as_str(), added, user_reacted);
    }

    /// Applies one event of the worker; says whether the terminal bell must ring.
    pub fn apply_event(&mut self, event: SimplexEvent) -> (bell: bool)
        requires
            event_allowed(*old(self), event),
        ensures
            event_applied(*old(self), event, *final(self), bell),
    {
        match event {
            SimplexEvent::MessageReceived { chat_ref, message } => {
                return self.on_message(chat_ref, message);
            },
            SimplexEvent::Ready { user, chats } => self.on_ready(user, chats),
            SimplexEvent::ProfilesLoaded(profiles) => self.on_profiles_loaded(profiles),
            SimplexEvent::ProfileActivated { user, chats } => self.on_profile_activated(user, chats),
            SimplexEvent::ProfileCreated { user, profiles, chats } => self.on_profile_created(
                user,
                profiles,
                chats,
            ),
            SimplexEvent::ProfileDeleted { profiles, active_user, chats } => self.on_profile_deleted(
                profiles,
                active_user,
                chats,
            ),
            SimplexEvent::ProfileDeleteFailed(error) => self.say(
                "Could not delete profile: ",
                error.as_str(),
            ),
            SimplexEvent::SettingChanged(message) => self.on_setting_changed(message),
            SimplexEvent::AutoDeleteLoaded(seconds) => self.on_auto_delete(seconds, false),
            SimplexEvent::AutoDeleteChanged(seconds) => self.on_auto_delete(seconds, true),
            SimplexEvent::AutoDeleteFailed(error) => self.on_auto_delete_failed(error),
            SimplexEvent::ChatDeletionLoaded { chat_ref, settings } => self.on_dialog_event(
                &chat_ref,
                Some(settings),
                None,
                false,
            ),
            SimplexEvent::ChatDeletionChanged { chat_ref, settings } => self.on_dialog_event(
                &chat_ref,
                Some(settings),
                None,
                true,
            ),
            SimplexEvent::ChatDeletionFailed(error) => self.on_dialog_failed(error),
            SimplexEvent::ConversationFeaturesLoaded { chat_ref, features } => self.on_dialog_event(
                &chat_ref,
                None,
                Some(features),
                false,
            ),
            SimplexEvent::ConversationFeaturesChanged { chat_ref, features } => self.on_dialog_event(
                &chat_ref,
                None,
                Some(features),
                false,
            ),
            SimplexEvent::ConversationFeaturesFailed(error) => self.on_dialog_failed(error),
            SimplexEvent::ChatDeleted { chat_ref, chats } => self.on_chat_deleted(chat_ref, chats),
            SimplexEvent::ChatDeleteFailed(error) => self.on_chat_delete_failed(error),
            SimplexEvent::FileDownloadStarted { file_id, path } => {
                let text = join("Downloading to ", path.as_str());
                self.on_file_status(file_id, "rcvTransfer", Some(path.as_str()), text);
            },
            SimplexEvent::FileDownloadFailed { file_id, error } => {
                let text = join("Could not download file: ", error.as_str());
                self.on_file_status(file_id, "rcvError", None, text);
            },
            SimplexEvent::FileDownloadCancelled { file_id } => {
                self.on_file_status(file_id, "rcvCancelled", None, "Download cancelled".to_owned());
            },
            SimplexEvent::FileUpdated { chat_ref, message } => self.on_file_updated(chat_ref, message),
            SimplexEvent::ServersLoaded(servers) => self.on_servers_loaded(servers),
            SimplexEvent::ServersUpdateFailed(error) => self.say(
                "Could not update servers: ",
                error.as_str(),
            ),
            SimplexEvent::ChatFeaturesLoaded(features) => self.on_chat_features(features),
            SimplexEvent::InvitationCreated(link) => self.on_invitation(Some(link), None),
            SimplexEvent::InvitationFailed(error) => self.on_invitation(None, Some(error)),
            SimplexEvent::ConnectionStarted => self.on_connection_started(),
            SimplexEvent::ConnectionFailed(error) => self.on_connection_failed(error),
            SimplexEvent::ChatLoaded { chat_ref, messages } => self.on_chat_loaded(chat_ref, messages),
            SimplexEvent::ChatMarkedRead(chat_ref) => self.on_chat_marked_read(chat_ref),
            SimplexEvent::ContactConnected { chats, chat_ref } => self.on_contact_connected(
                chats,
                chat_ref,
            ),
            SimplexEvent::ChatLoadFailed { chat_ref, error } => self.on_chat_load_failed(
                chat_ref,
                error,
            ),
            SimplexEvent::MessageSent { chat_ref, text } => self.on_message_sent(chat_ref, text),
            SimplexEvent::MessageSendFailed { chat_ref, error } => self.on_send_failed(
                chat_ref,
                error,
            ),
            SimplexEvent::ReactionChanged { chat_ref, item_id, emoji, added, user_reacted } =>
                self.on_reaction_changed(chat_ref, item_id, emoji, added, user_reacted),
            SimplexEvent::NoActiveUser => self.on_startup(StartupState::NoActiveUser),
            SimplexEvent::Failed(error) => self.on_startup(StartupState::Failed(error)),
        }
        false
    }
}

// ---------------------------------------------------------------------------------------
// Laws
// ---------------------------------------------------------------------------------------

/// A message delivered a second time changes nothing and rings no bell.
pub proof fn lemma_duplicate_delivery_ignored(
    old: AppState,
    chat_ref: ChatRef,
    m: Message,
    new: AppState,
    bell: bool,
)
    requires
        event_applied(old, SimplexEvent::MessageReceived { chat_ref, message: m }, new, bell),
        cached_already(old, chat_ref.0@, m.id),
    ensures
        new == old,
        !bell,
{
}

/// The user's own messages never make a conversation unread, and never ring the bell.
pub proof fn lemma_outgoing_not_unread(
    old: AppState,
    chat_ref: ChatRef,
    m: Message,
    new: AppState,
    bell: bool,
)
    requires
        event_applied(old, SimplexEvent::MessageReceived { chat_ref, message: m }, new, bell),
        m.outgoing,
    ensures
        new.chats.deep_view() == old.chats.deep_view(),
        !bell,
{
}

/// A new incoming message of a conversation that is not shown raises that conversation's unread
/// count by one and leaves the other conversations alone.
pub proof fn lemma_hidden_message_counted(
    old: AppState,
    chat_ref: ChatRef,
    m: Message,
    new: AppState,
    bell: bool,
)
    requires
        event_allowed(old, SimplexEvent::MessageReceived { chat_ref, message: m }),
        event_applied(old, SimplexEvent::MessageReceived { chat_ref, message: m }, new, bell),
        !m.outgoing,
        !cached_already(old, chat_ref.0@, m.id),
        !shown(old, chat_ref.0@),
        lists_chat(old.chats.deep_view(), chat_ref.0@),
    ensures
        new.chats.deep_view().len() == old.chats.deep_view().len(),
        new.chats.deep_view()[chat_index(old.chats.deep_view(), chat_ref.0@)].unread_count
            == old.chats.deep_view()[chat_index(old.chats.deep_view(), chat_ref.0@)].unread_count
            + 1,
        forall|j: int|
            0 <= j < old.chats.deep_view().len() && j != chat_index(
                old.chats.deep_view(),
                chat_ref.0@,
            ) ==> #[trigger] new.chats.deep_view()[j] == old.chats.deep_view()[j],
{
    let chats = old.chats.deep_view();
    let w = choose|w: int| 0 <= w < chats.len() && (#[trigger] chats[w]).chat_ref == chat_ref.0@;
    crate::state::lemma_chat_index_exists(chats, chat_ref.0@, w);
}

/// A new message ends up in its conversation's cache, unless the shown conversation already
/// listed it.
pub proof fn lemma_received_message_cached(
    old: AppState,
    chat_ref: ChatRef,
    m: Message,
    new: AppState,
    bell: bool,
)
    requires
        event_applied(old, SimplexEvent::MessageReceived { chat_ref, message: m }, new, bell),
        !(shown(old, chat_ref.0@) && has_id(old.messages.deep_view(), m.id)),
    ensures
        new.message_cache.view().contains_key(chat_ref.0@),
        has_id(new.message_cache.view()[chat_ref.0@], m.id),
{
    let k = chat_ref.0@;
    if !cached_already(old, k, m.id) {
        let before = old.message_cache.cached(k);
        let after = new.message_cache.view()[k];
        assert(!has_id(before, m.id));
        assert(after.to_multiset() == before.to_multiset().insert(m.deep_view()));
        assert(after.to_multiset().count(m.deep_view()) > 0);
        vstd::seq_lib::to_multiset_contains(after, m.deep_view());
        let j = choose|j: int| 0 <= j < after.len() && after[j] == m.deep_view();
        assert(after[j].id == m.id);
    }
}

/// Opening a conversation shows, in time order, every message that the core sent for it and
/// every message cached for it.
pub proof fn lemma_opened_chat_shows_cached(
    old: AppState,
    chat_ref: ChatRef,
    messages: Vec<Message>,
    new: AppState,
    bell: bool,
)
    requires
        event_applied(old, SimplexEvent::ChatLoaded { chat_ref, messages }, new, bell),
        old.selected_ref() == Some(chat_ref.0@),
    ensures
        is_chat(new.loaded_chat, chat_ref.0@),
        in_time_order(new.messages.deep_view()),
        forall|i: int|
            0 <= i < old.message_cache.cached(chat_ref.0@).len() ==> has_id(
                new.messages.deep_view(),
                (#[trigger] old.message_cache.cached(chat_ref.0@)[i]).id,
            ),
        forall|i: int|
            0 <= i < messages.deep_view().len() ==> has_id(
                new.messages.deep_view(),
                (#[trigger] messages.deep_view()[i]).id,
            ),
        new.message_cache.view()[chat_ref.0@] == new.messages.deep_view(),
{
    let k = chat_ref.0@;
    let ms = messages.deep_view();
    let cs = old.message_cache.cached(k);
    let all = merged(ms, cs);
    crate::messages::lemma_merged_keeps_all(ms, cs);
    assert forall|i: int| 0 <= i < cs.len() implies has_id(
        new.messages.deep_view(),
        (#[trigger] cs[i]).id,
    ) by {
        crate::messages::lemma_same_messages_same_ids(all, new.messages.deep_view(), cs[i].id);
    }
    assert forall|i: int| 0 <= i < ms.len() implies has_id(
        new.messages.deep_view(),
        (#[trigger] ms[i]).id,
    ) by {
        assert(all[i] == ms[i]);
        assert(has_id(all, ms[i].id));
        crate::messages::lemma_same_messages_same_ids(all, new.messages.deep_view(), ms[i].id);
    }
}

/// The automatic-deletion setting shown is the one the core reported last: only its report of
/// the setting, or of a change of it, moves it, and then to exactly the reported value.
pub proof fn lemma_auto_delete_follows_the_core(old: AppState, e: SimplexEvent, new: AppState, bell: bool)
    requires
        event_applied(old, e, new, bell),
    ensures
        e matches SimplexEvent::AutoDeleteChanged(s) ==> new.auto_delete_seconds == s,
        e matches SimplexEvent::AutoDeleteLoaded(s) ==> new.auto_delete_seconds == s,
        !(e is AutoDeleteChanged) && !(e is AutoDeleteLoaded) ==> new.auto_delete_seconds
            == old.auto_delete_seconds,
{
}

/// Caching a message keeps a conversation's cached messages in time order with no id twice,
/// leaves the other conversations alone, and caching the same message again changes nothing.
pub proof fn lemma_caching_keeps_ids_distinct(
    old: MessageCache,
    k: Seq<char>,
    m: MessageView,
    once: MessageCache,
    twice: MessageCache,
)
    requires
        ids_distinct(old.cached(k)),
        in_time_order(old.cached(k)),
        cached_added(old, k, m, once),
        cached_added(once, k, m, twice),
    ensures
        ids_distinct(once.cached(k)),
        in_time_order(once.cached(k)),
        has_id(once.cached(k), m.id),
        forall|j: Seq<char>| j != k ==> #[trigger] once.cached(j) == old.cached(j),
        twice.view() == once.view(),
{
    let s = old.cached(k);
    assert(once.view().contains_key(k));
    if !has_id(s, m.id) {
        let u = s.push(m);
        assert forall|i: int, j: int| 0 <= i < j < u.len() implies (#[trigger] u[i]).id != (
        #[trigger] u[j]).id by {
            if j == s.len() {
                assert(u[i] == s[i]);
                if s[i].id == m.id {
                    assert(has_id(s, m.id));
                }
            } else {
                assert(u[i] == s[i] && u[j] == s[j]);
            }
        }
        lemma_rearranged_ids_distinct(once.cached(k), u);
        let t = once.cached(k);
        assert(t.to_multiset().count(m) > 0) by {
            broadcast use vstd::multiset::group_multiset_axioms;
        }
        vstd::seq_lib::to_multiset_contains(t, m);
        assert(t.contains(m));
        let x = choose|x: int| 0 <= x < t.len() && t[x] == m;
        assert(t[x].id == m.id);
    }
    assert(twice.view() =~= once.view());
}

/// A conversation that is still selected when its messages arrive is shown loaded, from its
/// newest message, with the messages that arrived and after them the cached ones whose id none
/// of them has, put in time order, where messages with the same time stamp and id keep that
/// order; this holds when the cached messages have distinct ids, as caching keeps them.
pub proof fn lemma_loaded_chat_shows_the_merge(
    old: AppState,
    chat_ref: ChatRef,
    messages: Vec<Message>,
    new: AppState,
)
    requires
        after_chat_loaded(old, chat_ref, messages, new),
        old.selected_ref() == Some(chat_ref.0@),
        ids_distinct(old.message_cache.cached(chat_ref.0@)),
    ensures
        is_chat(new.loaded_chat, chat_ref.0@),
        !new.chat_loading,
        new.chat_error is None,
        new.chat_scroll == 0,
        new.new_messages_below == 0,
        in_time_order(new.messages.deep_view()),
        stably_rearranged(
            new.messages.deep_view(),
            messages.deep_view() + lacking(old.message_cache.cached(chat_ref.0@), messages.deep_view()),
        ),
{
    lemma_merged_adds_lacking(messages.deep_view(), old.message_cache.cached(chat_ref.0@));
}

/// A file update shows at once in the open conversation: its shown messages keep their count
/// and order, the first one with the updated message's id becomes the updated message, and all
/// others stay as they were; the shown messages of a conversation that is not open do not change.
pub proof fn lemma_file_update_reaches_the_open_chat(
    old: AppState,
    chat_ref: ChatRef,
    message: Message,
    new: AppState,
    bell: bool,
)
    requires
        event_applied(old, SimplexEvent::FileUpdated { chat_ref, message }, new, bell),
    ensures
        !bell,
        new.messages.deep_view().len() == old.messages.deep_view().len(),
        forall|i: int|
            0 <= i < old.messages.deep_view().len() ==> #[trigger] new.messages.deep_view()[i] == if is_chat(
                old.loaded_chat,
                chat_ref.0@,
            ) && first_with_id(old.messages.deep_view(), message.id, i) {
                message.deep_view()
            } else {
                old.messages.deep_view()[i]
            },
{
    let s = old.messages.deep_view();
    let t = new.messages.deep_view();
    let m = message.deep_view();
    if is_chat(old.loaded_chat, chat_ref.0@) && has_id(s, m.id) {
        lemma_first_with_id_exists(s, m.id);
        let k = index_of_id(s, m.id);
        assert forall|i: int| 0 <= i < s.len() implies #[trigger] t[i] == if first_with_id(s, m.id, i) {
            m
        } else {
            s[i]
        } by {
            if first_with_id(s, m.id, i) {
                lemma_index_of_id(s, m.id, i);
            }
        }
    } else if is_chat(old.loaded_chat, chat_ref.0@) {
        assert forall|i: int| 0 <= i < s.len() implies !first_with_id(s, m.id, i) by {
            if first_with_id(s, m.id, i) {
                assert(has_id(s, m.id));
            }
        }
    }
}

} // verus!
