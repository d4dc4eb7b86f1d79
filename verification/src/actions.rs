use vstd::prelude::*;

use crate::client::{ChatDeleteMode, ChatFeature};
use crate::command::SimplexCommand;
use crate::events::says;
use crate::json::text_eq;
use crate::messages::{find_id, has_id, index_of_id};
use crate::model::{
    ChatDeletionSettings, ChatFeatures, ChatSummaryView, ServerEntry, ServerEntryView,
    ServerProtocol,
};
use crate::state::{
    chat_index, copy_ref, find_chat, lists_chat, AppState, ChatDeleteConfirmation,
    ChatDeletionDialog, DownloadCancelDialog,
    InputMode, StartupState,
};
use crate::text::{has_prefix, join, join_all, starts_with, trim, trimmed};
use crate::prefs::Preferences;

verus! {

/// What the interface shows when the worker cannot take a command.
pub open spec fn unavailable_text() -> Seq<char> {
    "SimpleX worker is not available"@
}

/// What the interface shows when an action needs a profile.
pub open spec fn no_profile_text() -> Seq<char> {
    "Create a profile first"@
}

fn text_notice(t: &str) -> (r: Option<String>)
    ensures
        says(r, t@),
{
    Some(t.to_owned())
}

/// The servers that the Servers page lists: those of the chosen protocol, in their order.
pub open spec fn visible_servers_of(servers: Seq<ServerEntryView>, protocol: ServerProtocol) -> Seq<
    ServerEntryView,
>
    decreases servers.len(),
{
    if servers.len() == 0 {
        Seq::empty()
    } else {
        let rest = visible_servers_of(servers.drop_last(), protocol);
        if servers.last().protocol == protocol {
            rest.push(servers.last())
        } else {
            rest
        }
    }
}

/// The next automatic deletion period when the user cycles through them: a day, a week, a
/// month, off.
pub open spec fn next_auto_delete(seconds: i64) -> i64 {
    if seconds == 0 {
        86_400
    } else if seconds == 86_400 {
        604_800
    } else if seconds == 604_800 {
        2_592_000
    } else {
        0
    }
}

/// The next per-conversation deletion period: off, a day, a week, a month, the profile's
/// default; a period that is not one of these goes back to off.
pub open spec fn next_chat_deletion(current: Option<i64>) -> Option<i64> {
    match current {
        None => Some(0),
        Some(s) => if s == 0 {
            Some(86_400)
        } else if s == 86_400 {
            Some(604_800)
        } else if s == 604_800 {
            Some(2_592_000)
        } else if s == 2_592_000 {
            None
        } else {
            Some(0)
        },
    }
}

/// What the settings page does when a setting is activated, beyond the state.
pub struct SettingOutcome {
    /// The preferences changed and must be saved.
    pub save: bool,
    /// The terminal bell must ring, to let the user hear the sound just switched on.
    pub ring: bool,
    /// What the worker must be asked.
    pub command: Option<SimplexCommand>,
}

/// What `send_message` does.
pub open spec fn message_sent_by_user(old: AppState, new: AppState, r: Option<SimplexCommand>) -> bool {
    &&& (if trimmed(old.composer@).len() == 0 || old.sending || old.selected_ref() is None {
            new == old && r is None
        } else {
            &&& new == (AppState { sending: true, chat_error: None, ..old })
            &&& r matches Some(SimplexCommand::SendMessage { chat_ref, text }) && chat_ref.0@
                == old.selected_ref()->0 && text@ == old.composer@
        })
}

/// What `scroll_chat_up` does.
pub open spec fn scrolled_up(old: AppState, amount: usize, max: usize, new: AppState) -> bool {
    &&& (new == (AppState {
            chat_scroll: if old.chat_scroll + amount > max {
                max
            } else {
                (old.chat_scroll + amount) as usize
            },
            ..old
        }))
}

/// What `scroll_chat_down` does.
pub open spec fn scrolled_down(old: AppState, amount: usize, new: AppState) -> bool {
    &&& (new.chat_scroll == if old.chat_scroll > amount {
            (old.chat_scroll - amount) as usize
        } else {
            0
        })
    &&& (new == (AppState {
            chat_scroll: new.chat_scroll,
            new_messages_below: if new.chat_scroll == 0 {
                0
            } else {
                old.new_messages_below
            },
            ..old
        }))
}

/// What `create_invitation` does.
pub open spec fn invitation_requested(old: AppState, new: AppState, r: Option<SimplexCommand>) -> bool {
    &&& (match old.active_user_of() {
            None => new == (AppState { notice: new.notice, ..old })
                && says(new.notice, no_profile_text()) && r is None,
            Some(u) => if old.invitation_loading {
                new == old && r is None
            } else {
                &&& new == (AppState {
                    invitation_loading: true,
                    invitation_error: None,
                    ..old
                })
                &&& r == Some(SimplexCommand::CreateInvitation { user_id: u.id })
            },
        })
}

/// What `show_invitation` does.
pub open spec fn invitation_shown(old: AppState, new: AppState, r: Option<SimplexCommand>) -> bool {
    &&& (match old.active_user_of() {
            None => new == (AppState { notice: new.notice, ..old })
                && says(new.notice, no_profile_text()) && r is None,
            Some(u) => if old.invitation_link is Some || old.invitation_loading {
                new == (AppState {
                    selected_chat: old.chats@.len() as usize,
                    ..old
                }) && r is None
            } else {
                &&& new == (AppState {
                    selected_chat: old.chats@.len() as usize,
                    invitation_loading: true,
                    invitation_error: None,
                    ..old
                })
                &&& r == Some(SimplexCommand::CreateInvitation { user_id: u.id })
            },
        })
}

/// What `show_connect_invitation` does.
pub open spec fn connect_editor_opened(old: AppState, new: AppState) -> bool {
    &&& (match old.active_user_of() {
            None => new == (AppState { notice: new.notice, ..old })
                && says(new.notice, no_profile_text()),
            Some(u) => new == (AppState {
                selected_chat: old.chats@.len() as usize,
                input_mode: InputMode::ConnectInvitation,
                input: new.input,
                connection_error: None,
                ..old
            }) && new.input@.len() == 0,
        })
}

/// What `connect_invitation` does.
pub open spec fn connection_requested(old: AppState, new: AppState, r: Option<SimplexCommand>) -> bool {
    &&& (match old.active_user_of() {
            None => new == (AppState { notice: new.notice, ..old })
                && says(new.notice, no_profile_text()) && r is None,
            Some(u) => if trimmed(old.input@).len() == 0 || old.connection_loading {
                new == old && r is None
            } else {
                &&& new == (AppState {
                    input_mode: InputMode::Idle,
                    input: new.input,
                    connection_loading: true,
                    connection_error: None,
                    ..old
                })
                &&& new.input@.len() == 0
                &&& r matches Some(SimplexCommand::ConnectInvitation { user_id, link })
                    && user_id == u.id && link@ == trimmed(old.input@)
            },
        })
}

/// What `toggle_chat_feature` does.
pub open spec fn chat_feature_toggled(old: AppState, feature: ChatFeature, enabled: bool, new: AppState, r: Option<SimplexCommand>) -> bool {
    &&& (new == (AppState { notice: new.notice, ..old }))
    &&& (match old.active_user_of() {
            None => says(new.notice, no_profile_text()) && r is None,
            Some(u) => says(new.notice, "Updating chat feature…"@) && r == Some(
                SimplexCommand::SetChatFeature { user_id: u.id, feature, enabled },
            ),
        })
}

/// What `toggle_selected_server` does.
pub open spec fn server_toggled(old: AppState, new: AppState, r: Option<SimplexCommand>) -> bool {
    &&& (new == (AppState { notice: new.notice, ..old }))
    &&& (match old.active_user_of() {
            None => says(new.notice, no_profile_text()) && r is None,
            Some(u) => {
                let visible = visible_servers_of(
                    old.servers.deep_view(),
                    old.server_protocol,
                );
                if old.selected_server < visible.len() {
                    let e = visible[old.selected_server as int];
                    &&& says(new.notice, "Updating server configuration…"@)
                    &&& r matches Some(
                        SimplexCommand::SetServerEnabled { user_id, protocol, address, enabled },
                    ) && user_id == u.id && protocol == e.protocol && address@ == e.address
                        && enabled == !e.enabled
                } else {
                    says(new.notice, "Add a server first"@) && r is None
                }
            },
        })
}

/// What `add_server` does.
pub open spec fn server_added(old: AppState, new: AppState, r: Option<SimplexCommand>) -> bool {
    &&& (match old.active_user_of() {
            None => new == (AppState { notice: new.notice, ..old })
                && says(new.notice, no_profile_text()) && r is None,
            Some(u) => {
                &&& new == (AppState {
                    input_mode: InputMode::Idle,
                    input: new.input,
                    notice: new.notice,
                    ..old
                })
                &&& new.input@.len() == 0
                &&& says(
                    new.notice,
                    "Adding "@ + old.server_protocol.label_text() + " server…"@,
                )
                &&& r matches Some(SimplexCommand::AddServer { user_id, protocol, address })
                    && user_id == u.id && protocol == old.server_protocol && address@
                    == trimmed(old.input@)
            },
        })
}

/// What `activate_profile` does.
pub open spec fn profile_activation_requested(old: AppState, new: AppState, r: Option<SimplexCommand>) -> bool {
    &&& (if old.selected_profile >= old.profiles@.len() {
            new == (AppState {
                input_mode: InputMode::CreateProfile,
                input: new.input,
                ..old
            }) && new.input@.len() == 0 && r is None
        } else if old.profiles@[old.selected_profile as int].active {
            new == (AppState { notice: new.notice, ..old }) && says(
                new.notice,
                "Profile is already active"@,
            ) && r is None
        } else {
            &&& new == (AppState {
                notice: new.notice,
                startup: StartupState::Loading,
                chats: new.chats,
                messages: new.messages,
                loaded_chat: None,
                ..old
            })
            &&& says(new.notice, "Switching profile…"@)
            &&& new.chats@.len() == 0 && new.messages@.len() == 0
            &&& r == Some(
                SimplexCommand::ActivateProfile(
                    old.profiles@[old.selected_profile as int].id,
                ),
            )
        })
}

/// What `confirm_delete_profile` does.
pub open spec fn profile_deletion_requested(old: AppState, new: AppState, r: Option<SimplexCommand>) -> bool {
    &&& (if old.selected_profile >= old.profiles@.len() {
            new == (AppState { input_mode: InputMode::Idle, ..old }) && r is None
        } else {
            let p = old.profiles@[old.selected_profile as int];
            &&& new == (AppState {
                input_mode: InputMode::Idle,
                notice: new.notice,
                ..old
            })
            &&& says(new.notice, "Deleting profile "@ + p.display_name@ + "…"@)
            &&& r == Some(SimplexCommand::DeleteProfile(p.id))
        })
}

/// What `open_chat_deletion` does.
pub open spec fn deletion_dialog_opened(old: AppState, new: AppState, r: Vec<SimplexCommand>) -> bool {
    &&& (match old.selected_ref() {
            None => new == old && r@.len() == 0,
            Some(k) => {
                &&& new == (AppState {
                    chat_deletion_dialog: new.chat_deletion_dialog,
                    ..old
                })
                &&& new.chat_deletion_dialog matches Some(d) && d.chat_ref.0@ == k
                    && d.settings is None && d.features is None && d.selected == 0 && d.pending
                    && d.error is None
                &&& r@.len() == 2
                &&& r@[0] matches SimplexCommand::LoadChatDeletion { chat_ref } && chat_ref.0@
                    == k
                &&& r@[1] matches SimplexCommand::LoadConversationFeatures { chat_ref }
                    && chat_ref.0@ == k
            },
        })
}

/// What `confirm_cancel_download` does.
pub open spec fn download_cancel_requested(old: AppState, new: AppState, r: Option<SimplexCommand>) -> bool {
    &&& (match old.download_cancel_dialog {
            None => new == old && r is None,
            Some(d) => {
                &&& new == (AppState {
                    download_cancel_dialog: None,
                    notice: new.notice,
                    ..old
                })
                &&& says(new.notice, "Cancelling download of "@ + d.file_name@ + "…"@)
                &&& r == Some(SimplexCommand::CancelFile { file_id: d.file_id })
            },
        })
}

/// What `select_chat_setting_up` does.
pub open spec fn dialog_selection_up(old: AppState, new: AppState) -> bool {
    &&& (match old.chat_deletion_dialog {
            Some(d) => new == (AppState {
                chat_deletion_dialog: Some(
                    ChatDeletionDialog {
                        selected: if d.selected == 0 {
                            0
                        } else {
                            (d.selected - 1) as usize
                        },
                        ..d
                    },
                ),
                ..old
            }),
            None => new == old,
        })
}

/// What `select_chat_setting_down` does.
pub open spec fn dialog_selection_down(old: AppState, new: AppState) -> bool {
    &&& (match old.chat_deletion_dialog {
            Some(d) => new == (AppState {
                chat_deletion_dialog: Some(
                    ChatDeletionDialog {
                        selected: if d.selected >= 8 {
                            8
                        } else {
                            (d.selected + 1) as usize
                        },
                        ..d
                    },
                ),
                ..old
            }),
            None => new == old,
        })
}

/// What `confirm_chat_delete` does.
pub open spec fn chat_deletion_requested(old: AppState, new: AppState, r: Option<SimplexCommand>) -> bool {
    &&& (match (old.active_user_of(), old.chat_delete_confirmation) {
            (Some(u), Some(c)) => {
                &&& new == (AppState {
                    chat_delete_confirmation: None,
                    chat_deletion_dialog: match old.chat_deletion_dialog {
                        Some(d) => Some(ChatDeletionDialog { pending: true, error: None, ..d }),
                        None => None,
                    },
                    ..old
                })
                &&& r == Some(
                    SimplexCommand::DeleteChat { user_id: u.id, chat_ref: c.chat_ref, mode: c.mode },
                )
            },
            _ => new == old && r is None,
        })
}

/// What `activate_chat_setting` does.
pub open spec fn chat_setting_activated(old: AppState, new: AppState, r: Option<SimplexCommand>) -> bool {
    &&& (match old.chat_deletion_dialog {
            None => new == old && r is None,
            Some(d) => if d.pending || d.selected > 8 {
                new == old && r is None
            } else if d.selected == 0 {
                deletion_cycled(old, new, r)
            } else if d.selected == 1 {
                conversation_feature_toggled(old, ChatFeature::FullDeletion, new, r)
            } else if d.selected == 2 {
                conversation_feature_toggled(old, ChatFeature::Reactions, new, r)
            } else if d.selected == 3 {
                conversation_feature_toggled(old, ChatFeature::VoiceMessages, new, r)
            } else if d.selected == 4 {
                conversation_feature_toggled(old, ChatFeature::FilesAndMedia, new, r)
            } else if d.selected == 5 {
                chat_delete_asked(old, ChatDeleteMode::Conversation, new) && r is None
            } else if d.selected == 6 {
                chat_delete_asked(old, ChatDeleteMode::Contact, new) && r is None
            } else if d.selected == 7 {
                chat_delete_asked(old, ChatDeleteMode::BlockContact, new) && r is None
            } else {
                new == (AppState { chat_deletion_dialog: None, ..old }) && r is None
            },
        })
}

/// What `activate_setting` does.
pub open spec fn setting_activated(old: AppState, new: AppState, r: SettingOutcome) -> bool {
    if old.selected_setting == 1 {
        sound_toggled(old, new, r)
    } else if old.selected_setting == 2 {
        auto_delete_cycled(old, new, r)
    } else if old.selected_setting == 3 {
        theme_cycled(old, new, r)
    } else {
        new == old && !r.save && !r.ring && r.command is None
    }
}

/// The notification sound is switched; the preferences are saved, and the bell rings when the
/// sound was switched on.
pub open spec fn sound_toggled(old: AppState, new: AppState, r: SettingOutcome) -> bool {
    &&& new == (AppState {
        preferences: Preferences {
            notification_sound: !old.preferences.notification_sound,
            ..old.preferences
        },
        ..old
    })
    &&& r.save && r.ring == !old.preferences.notification_sound && r.command is None
}

/// The automatic deletion period moves to the next one once the core confirms it; one change
/// at a time, and only with a profile.
pub open spec fn auto_delete_cycled(old: AppState, new: AppState, r: SettingOutcome) -> bool {
    &&& !r.save && !r.ring
    &&& if old.auto_delete_pending is Some {
        new == (AppState { notice: new.notice, ..old }) && says(
            new.notice,
            "Automatic deletion update is still pending"@,
        ) && r.command is None
    } else {
        match old.active_user_of() {
            None => new == (AppState { notice: new.notice, ..old }) && says(
                new.notice,
                no_profile_text(),
            ) && r.command is None,
            Some(u) => {
                &&& new == (AppState {
                    auto_delete_pending: Some(next_auto_delete(old.auto_delete_seconds)),
                    notice: new.notice,
                    ..old
                })
                &&& says(new.notice, "Updating automatic deletion…"@)
                &&& r.command == Some(
                    SimplexCommand::SetAutoDelete {
                        user_id: u.id,
                        seconds: next_auto_delete(old.auto_delete_seconds),
                    },
                )
            },
        }
    }
}

/// The theme moves to the next one, and the preferences are saved.
pub open spec fn theme_cycled(old: AppState, new: AppState, r: SettingOutcome) -> bool {
    &&& new == (AppState {
        preferences: Preferences { theme: old.preferences.theme.following(), ..old.preferences },
        ..old
    })
    &&& r.save && !r.ring && r.command is None
}

/// What `download_attachment` does: tells where a saved file is, asks to confirm cancelling a
/// running download, or starts one; the first part of the result says whether the message has a
/// file that the user can download.
pub open spec fn download_handled(old: AppState, item_id: i64, new: AppState, r: (bool, Option<SimplexCommand>)) -> bool {
    &&& (({
            let ms = old.messages.deep_view();
            if !has_id(ms, item_id) || ms[index_of_id(ms, item_id)].outgoing
                || ms[index_of_id(ms, item_id)].attachment is None {
                new == old && !r.0 && r.1 is None
            } else {
                let a = ms[index_of_id(ms, item_id)].attachment->0;
                &&& r.0
                &&& if a.status == "rcvComplete"@ {
                    &&& new == (AppState { notice: new.notice, ..old })
                    &&& match a.path {
                        Some(p) => says(new.notice, "File saved to "@ + p),
                        None => new.notice is None,
                    }
                    &&& r.1 is None
                } else if a.status == "rcvAccepted"@ || a.status == "rcvTransfer"@ {
                    &&& new == (AppState {
                        download_cancel_dialog: new.download_cancel_dialog,
                        ..old
                    })
                    &&& new.download_cancel_dialog matches Some(d) && d.file_id == a.id
                        && d.file_name@ == a.name
                    &&& r.1 is None
                } else {
                    &&& new == (AppState { notice: new.notice, ..old })
                    &&& says(new.notice, "Starting file download…"@)
                    &&& r.1 matches Some(SimplexCommand::ReceiveFile { file_id, file_name })
                        && file_id == a.id && file_name@ == a.name
                }
            }
        }))
}

impl AppState {
    /// Sends the composed message to the selected conversation, unless it is blank or a message
    /// is being sent.
    pub fn send_message(&mut self) -> (r: Option<SimplexCommand>)
        ensures
            message_sent_by_user(*old(self), *final(self), r),
    {
        if crate::text::is_blank(trim(self.composer.as_str()).as_str()) || self.sending {
            return None;
        }
        let chat_ref = match self.selected_chat_ref() {
            Some(k) => copy_ref(k),
            None => return None,
        };
        let text = self.composer.clone();
        self.sending = true;
        self.chat_error = None;
        Some(SimplexCommand::SendMessage { chat_ref, text })
    }

    /// The worker did not take the message.
    pub fn send_unavailable(&mut self)
        ensures
            *final(self) == (AppState {
                sending: false,
                chat_error: final(self).chat_error,
                ..*old(self)
            }),
            says(final(self).chat_error, unavailable_text()),
    {
        self.sending = false;
        self.chat_error = text_notice("SimpleX worker is not available");
    }

    /// Sends `emoji` as a reaction to the message the picker is open on, and closes the picker.
    pub fn send_reaction(&mut self, emoji: String) -> (r: Option<SimplexCommand>)
        ensures
            *final(self) == (AppState { reaction_picker: None, ..*old(self) }),
            match old(self).reaction_picker {
                Some(p) => r matches Some(SimplexCommand::SendReaction { chat_ref, item_id, emoji: e })
                    && chat_ref == p.chat_ref && item_id == p.item_id && e == emoji,
                None => r is None,
            },
    {
        match self.reaction_picker.take() {
            Some(p) => Some(
                SimplexCommand::SendReaction { chat_ref: p.chat_ref, item_id: p.item_id, emoji },
            ),
            None => None,
        }
    }

    /// Scrolls toward older messages, at most to `max`.
    pub fn scroll_chat_up(&mut self, amount: usize, max: usize)
        ensures
            scrolled_up(*old(self), amount, max, *final(self)),
    {
        let up = if self.chat_scroll > usize::MAX - amount {
            usize::MAX
        } else {
            self.chat_scroll + amount
        };
        self.chat_scroll = if up > max {
            max
        } else {
            up
        };
    }

    /// Scrolls toward newer messages; at the newest, nothing counts as new below.
    pub fn scroll_chat_down(&mut self, amount: usize)
        ensures
            scrolled_down(*old(self), amount, *final(self)),
    {
        self.chat_scroll = if self.chat_scroll > amount {
            self.chat_scroll - amount
        } else {
            0
        };
        if self.chat_scroll == 0 {
            self.new_messages_below = 0;
        }
    }

    /// Asks for an invitation link of the active user, unless one is being made.
    pub fn create_invitation(&mut self) -> (r: Option<SimplexCommand>)
        ensures
            invitation_requested(*old(self), *final(self), r),
    {
        let user_id = match self.active_user() {
            Some(u) => u.id,
            None => {
                self.notice = text_notice("Create a profile first");
                return None;
            },
        };
        if self.invitation_loading {
            return None;
        }
        self.invitation_loading = true;
        self.invitation_error = None;
        Some(SimplexCommand::CreateInvitation { user_id })
    }

    /// The worker did not take the request for an invitation link.
    pub fn invitation_unavailable(&mut self)
        ensures
            *final(self) == (AppState {
                invitation_loading: false,
                invitation_error: final(self).invitation_error,
                ..*old(self)
            }),
            says(final(self).invitation_error, unavailable_text()),
    {
        self.invitation_loading = false;
        self.invitation_error = text_notice("SimpleX worker is not available");
    }

    /// Selects the line for a new contact and asks for an invitation link if there is none.
    pub fn show_invitation(&mut self) -> (r: Option<SimplexCommand>)
        ensures
            invitation_shown(*old(self), *final(self), r),
    {
        if self.active_user().is_none() {
            self.notice = text_notice("Create a profile first");
            return None;
        }
        self.selected_chat = self.chats.len();
        if self.invitation_link.is_none() {
            self.create_invitation()
        } else {
            None
        }
    }

    /// Opens the editor for a link to connect through.
    pub fn show_connect_invitation(&mut self)
        ensures
            connect_editor_opened(*old(self), *final(self)),
    {
        if self.active_user().is_none() {
            self.notice = text_notice("Create a profile first");
            return ;
        }
        self.selected_chat = self.chats.len();
        self.input_mode = InputMode::ConnectInvitation;
        self.input = String::new();
        self.connection_error = None;
    }

    /// Connects through the link in the editor, unless it is blank or a connection is being
    /// made.
    pub fn connect_invitation(&mut self) -> (r: Option<SimplexCommand>)
        ensures
            connection_requested(*old(self), *final(self), r),
    {
        let user_id = match self.active_user() {
            Some(u) => u.id,
            None => {
                self.notice = text_notice("Create a profile first");
                return None;
            },
        };
        let link = trim(self.input.as_str());
        if crate::text::is_blank(link.as_str()) || self.connection_loading {
            return None;
        }
        self.input_mode = InputMode::Idle;
        self.input = String::new();
        self.connection_loading = true;
        self.connection_error = None;
        Some(SimplexCommand::ConnectInvitation { user_id, link })
    }

    /// The worker did not take the connection request.
    pub fn connection_unavailable(&mut self)
        ensures
            *final(self) == (AppState {
                connection_loading: false,
                connection_error: final(self).connection_error,
                ..*old(self)
            }),
            says(final(self).connection_error, unavailable_text()),
    {
        self.connection_loading = false;
        self.connection_error = text_notice("SimpleX worker is not available");
    }

    /// Pasted text goes, trimmed, into an open line editor that takes text.
    pub fn handle_paste(&mut self, text: &str)
        ensures
            if (old(self).input_mode == InputMode::CreateProfile || old(self).input_mode
                == InputMode::ConnectInvitation) && !old(self).profile_create_pending {
                *final(self) == (AppState { input: final(self).input, ..*old(self) })
                    && final(self).input@ == old(self).input@ + trimmed(text@)
            } else {
                *final(self) == *old(self)
            },
    {
        let takes = match self.input_mode {
            InputMode::CreateProfile | InputMode::ConnectInvitation => true,
            _ => false,
        };
        if takes && !self.profile_create_pending {
            let t = trim(text);
            self.input = join(self.input.as_str(), t.as_str());
        }
    }

    /// Switches a chat feature of the active profile.
    pub fn toggle_chat_feature(&mut self, feature: ChatFeature, enabled: bool) -> (r: Option<
        SimplexCommand,
    >)
        ensures
            chat_feature_toggled(*old(self), feature, enabled, *final(self), r),
    {
        let user_id = match self.active_user() {
            Some(u) => u.id,
            None => {
                self.notice = text_notice("Create a profile first");
                return None;
            },
        };
        self.notice = text_notice("Updating chat feature…");
        Some(SimplexCommand::SetChatFeature { user_id, feature, enabled })
    }
}

/// The display name of the first conversation `k` of the list, or "Chat".
pub open spec fn chat_name_of(chats: Seq<ChatSummaryView>, k: Seq<char>) -> Seq<char> {
    if lists_chat(chats, k) {
        chats[chat_index(chats, k)].display_name
    } else {
        "Chat"@
    }
}

/// The deletion period that a conversation shows: its own when the local and the disappearing
/// periods agree, else none.
pub open spec fn shown_deletion(s: ChatDeletionSettings) -> Option<i64> {
    if s.local_ttl == s.disappearing_ttl {
        s.local_ttl
    } else {
        None
    }
}

/// Whether a conversation feature is on.
pub open spec fn feature_on(f: ChatFeatures, feature: ChatFeature) -> bool {
    match feature {
        ChatFeature::FullDeletion => f.full_deletion,
        ChatFeature::Reactions => f.reactions,
        ChatFeature::VoiceMessages => f.voice_messages,
        ChatFeature::FilesAndMedia => f.files_and_media,
    }
}

impl AppState {
    fn visible_server(&self, n: usize) -> (r: Option<(ServerProtocol, String, bool)>)
        ensures
            match r {
                Some(x) => n < visible_servers_of(self.servers.deep_view(), self.server_protocol).len()
                    && x.0 == visible_servers_of(self.servers.deep_view(), self.server_protocol)[n as int].protocol
                    && x.1@ == visible_servers_of(self.servers.deep_view(), self.server_protocol)[n as int].address
                    && x.2 == visible_servers_of(self.servers.deep_view(), self.server_protocol)[n as int].enabled,
                None => n >= visible_servers_of(self.servers.deep_view(), self.server_protocol).len(),
            },
    {
        let ghost s = self.servers.deep_view();
        let ghost p = self.server_protocol;
        let mut seen: usize = 0;
        let mut i: usize = 0;
        assert(s.take(0) =~= Seq::<ServerEntryView>::empty());
        while i < self.servers.len()
            invariant
                i <= self.servers@.len(),
                s == self.servers.deep_view(),
                s.len() == self.servers@.len(),
                p == self.server_protocol,
                seen == visible_servers_of(s.take(i as int), p).len(),
                seen <= n,
                seen <= i,
            decreases self.servers.len() - i,
        {
            assert(s.take(i + 1).drop_last() =~= s.take(i as int));
            assert(s.take(i + 1).last() == s[i as int]);
            if self.servers[i].protocol == self.server_protocol {
                if seen == n {
                    proof {
                        let before = visible_servers_of(s.take(i as int), p);
                        let now = visible_servers_of(s.take(i + 1), p);
                        assert(now == before.push(s[i as int]));
                        assert(now[n as int] == s[i as int]);
                        lemma_visible_prefix(s, p, i as int + 1);
                    }
                    let e = &self.servers[i];
                    return Some((e.protocol, e.address.clone(), e.enabled));
                }
                seen = seen + 1;
            }
            i = i + 1;
        }
        assert(s.take(self.servers@.len() as int) =~= s);
        None
    }

    /// Switches the selected server on or off.
    pub fn toggle_selected_server(&mut self) -> (r: Option<SimplexCommand>)
        ensures
            server_toggled(*old(self), *final(self), r),
    {
        let user_id = match self.active_user() {
            Some(u) => u.id,
            None => {
                self.notice = text_notice("Create a profile first");
                return None;
            },
        };
        match self.visible_server(self.selected_server) {
            Some((protocol, address, enabled)) => {
                self.notice = text_notice("Updating server configuration…");
                Some(SimplexCommand::SetServerEnabled { user_id, protocol, address, enabled: !enabled })
            },
            None => {
                self.notice = text_notice("Add a server first");
                None
            },
        }
    }

    /// Adds the server in the editor for the chosen protocol.
    pub fn add_server(&mut self) -> (r: Option<SimplexCommand>)
        ensures
            server_added(*old(self), *final(self), r),
    {
        let user_id = match self.active_user() {
            Some(u) => u.id,
            None => {
                self.notice = text_notice("Create a profile first");
                return None;
            },
        };
        let address = trim(self.input.as_str());
        self.input_mode = InputMode::Idle;
        self.input = String::new();
        let pieces = ["Adding ", self.server_protocol.label(), " server…"];
        let text = join_all(&pieces);
        proof {
            reveal_with_fuel(crate::text::concat_all, 4);
            assert(pieces@.map_values(|p: &str| p@) =~= seq![
                "Adding "@,
                self.server_protocol.label_text(),
                " server…"@,
            ]);
        }
        self.notice = Some(text);
        Some(SimplexCommand::AddServer { user_id, protocol: self.server_protocol, address })
    }

    /// Switches to the selected profile; on the line for a new profile, opens its editor.
    pub fn activate_profile(&mut self) -> (r: Option<SimplexCommand>)
        ensures
            profile_activation_requested(*old(self), *final(self), r),
    {
        if self.selected_profile >= self.profiles.len() {
            self.input_mode = InputMode::CreateProfile;
            self.input = String::new();
            return None;
        }
        let i = self.selected_profile;
        if self.profiles[i].active {
            self.notice = text_notice("Profile is already active");
            return None;
        }
        let id = self.profiles[i].id;
        self.notice = text_notice("Switching profile…");
        self.startup = StartupState::Loading;
        self.chats = Vec::new();
        self.messages = Vec::new();
        self.loaded_chat = None;
        Some(SimplexCommand::ActivateProfile(id))
    }

    /// Deletes the selected profile, once the user confirmed it.
    pub fn confirm_delete_profile(&mut self) -> (r: Option<SimplexCommand>)
        ensures
            profile_deletion_requested(*old(self), *final(self), r),
    {
        if self.selected_profile >= self.profiles.len() {
            self.input_mode = InputMode::Idle;
            return None;
        }
        let i = self.selected_profile;
        let id = self.profiles[i].id;
        let pieces = ["Deleting profile ", self.profiles[i].display_name.as_str(), "…"];
        let text = join_all(&pieces);
        proof {
            reveal_with_fuel(crate::text::concat_all, 4);
            assert(pieces@.map_values(|p: &str| p@) =~= seq![
                "Deleting profile "@,
                self.profiles@[i as int].display_name@,
                "…"@,
            ]);
        }
        self.input_mode = InputMode::Idle;
        self.notice = Some(text);
        Some(SimplexCommand::DeleteProfile(id))
    }

    /// Opens the deletion dialog of the selected conversation and asks for its settings and
    /// features.
    pub fn open_chat_deletion(&mut self) -> (r: Vec<SimplexCommand>)
        ensures
            deletion_dialog_opened(*old(self), *final(self), r),
    {
        let chat_ref = match self.selected_chat_ref() {
            Some(k) => copy_ref(k),
            None => return Vec::new(),
        };
        self.chat_deletion_dialog = Some(
            ChatDeletionDialog {
                chat_ref: copy_ref(&chat_ref),
                settings: None,
                features: None,
                selected: 0,
                pending: true,
                error: None,
            },
        );
        let mut out: Vec<SimplexCommand> = Vec::new();
        out.push(SimplexCommand::LoadChatDeletion { chat_ref: copy_ref(&chat_ref) });
        out.push(SimplexCommand::LoadConversationFeatures { chat_ref });
        out
    }

    /// Acts on the file of message `item_id` of the shown conversation: tells where a saved file
    /// is, asks to confirm cancelling a running download, or starts one. Says whether the message
    /// has a file that the user can download.
    pub fn download_attachment(&mut self, item_id: i64) -> (r: (bool, Option<SimplexCommand>))
        ensures
            download_handled(*old(self), item_id, *final(self), r),
    {
        let i = match find_id(&self.messages, item_id) {
            Some(i) => i,
            None => return (false, None),
        };
        if self.messages[i].outgoing {
            return (false, None);
        }
        let (file_id, name, status, path) = match &self.messages[i].attachment {
            Some(a) => (a.id, a.name.clone(), a.status.clone(), match &a.path {
                Some(p) => Some(p.clone()),
                None => None,
            }),
            None => return (false, None),
        };
        if text_eq(status.as_str(), "rcvComplete") {
            self.notice = match path {
                Some(p) => Some(join("File saved to ", p.as_str())),
                None => None,
            };
            return (true, None);
        }
        if text_eq(status.as_str(), "rcvAccepted") || text_eq(status.as_str(), "rcvTransfer") {
            self.download_cancel_dialog = Some(DownloadCancelDialog { file_id, file_name: name });
            return (true, None);
        }
        self.notice = text_notice("Starting file download…");
        (true, Some(SimplexCommand::ReceiveFile { file_id, file_name: name }))
    }

    /// Cancels the download that the user confirmed cancelling.
    pub fn confirm_cancel_download(&mut self) -> (r: Option<SimplexCommand>)
        ensures
            download_cancel_requested(*old(self), *final(self), r),
    {
        let d = match self.download_cancel_dialog.take() {
            Some(d) => d,
            None => return None,
        };
        let pieces = ["Cancelling download of ", d.file_name.as_str(), "…"];
        let text = join_all(&pieces);
        proof {
            reveal_with_fuel(crate::text::concat_all, 4);
            assert(pieces@.map_values(|p: &str| p@) =~= seq![
                "Cancelling download of "@,
                d.file_name@,
                "…"@,
            ]);
        }
        self.notice = Some(text);
        Some(SimplexCommand::CancelFile { file_id: d.file_id })
    }
}

/// The servers listed for a prefix of the list come first among those listed for the whole.
proof fn lemma_visible_prefix(s: Seq<ServerEntryView>, p: ServerProtocol, j: int)
    requires
        0 <= j <= s.len(),
    ensures
        visible_servers_of(s.take(j), p).len() <= visible_servers_of(s, p).len(),
        forall|k: int|
            0 <= k < visible_servers_of(s.take(j), p).len() ==> visible_servers_of(s, p)[k]
                == #[trigger] visible_servers_of(s.take(j), p)[k],
    decreases s.len(),
{
    if j == s.len() {
        assert(s.take(j) =~= s);
    } else {
        let d = s.drop_last();
        assert(s.take(j) =~= d.take(j));
        lemma_visible_prefix(d, p, j);
    }
}


pub open spec fn deletion_cycled(old: AppState, new: AppState, r: Option<SimplexCommand>) -> bool {
    match (old.active_user_of(), old.chat_deletion_dialog) {
        (Some(u), Some(d)) => if d.pending || d.settings is None {
            new == old && r is None
        } else {
            &&& new == (AppState {
                chat_deletion_dialog: Some(
                    ChatDeletionDialog { pending: true, error: None, ..d },
                ),
                ..old
            })
            &&& r matches Some(SimplexCommand::SetChatDeletion { user_id, chat_ref, seconds })
                && user_id == u.id && chat_ref.0@ == d.chat_ref.0@ && seconds
                == next_chat_deletion(shown_deletion(d.settings->0))
        },
        _ => new == old && r is None,
    }
}

pub open spec fn conversation_feature_toggled(old: AppState, feature: ChatFeature, new: AppState, r: Option<SimplexCommand>) -> bool {
    match old.chat_deletion_dialog {
        Some(d) => match d.features {
            Some(f) => {
                &&& new == (AppState {
                    chat_deletion_dialog: Some(
                        ChatDeletionDialog { pending: true, error: None, ..d },
                    ),
                    ..old
                })
                &&& r matches Some(
                    SimplexCommand::SetConversationFeature { chat_ref, feature: g, enabled },
                ) && chat_ref.0@ == d.chat_ref.0@ && g == feature && enabled
                    == !feature_on(f, feature)
            },
            None => new == old && r is None,
        },
        None => new == old && r is None,
    }
}

pub open spec fn chat_delete_asked(old: AppState, mode: ChatDeleteMode, new: AppState) -> bool {
    match old.chat_deletion_dialog {
        None => new == old,
        Some(d) => if mode != ChatDeleteMode::Conversation && !has_prefix(
            d.chat_ref.0@,
            "@"@,
        ) {
            new == (AppState { notice: new.notice, ..old }) && says(
                new.notice,
                "Contact actions are only available in direct chats"@,
            )
        } else {
            &&& new == (AppState {
                chat_delete_confirmation: new.chat_delete_confirmation,
                ..old
            })
            &&& new.chat_delete_confirmation matches Some(c) && c.chat_ref.0@
                == d.chat_ref.0@ && c.mode == mode && c.chat_name@ == chat_name_of(
                old.chats.deep_view(),
                d.chat_ref.0@,
            )
        },
    }
}

impl AppState {
    /// Moves the open deletion dialog's conversation to its next deletion period.
    pub fn cycle_chat_deletion(&mut self) -> (r: Option<SimplexCommand>)
        ensures
            deletion_cycled(*old(self), *final(self), r),
    {
        let user_id = match self.active_user() {
            Some(u) => u.id,
            None => return None,
        };
        let d = match self.chat_deletion_dialog.take() {
            Some(d) => d,
            None => return None,
        };
        let settings = match d.settings {
            Some(s) => s,
            None => {
                self.chat_deletion_dialog = Some(d);
                return None;
            },
        };
        if d.pending {
            self.chat_deletion_dialog = Some(d);
            return None;
        }
        let current = if settings.local_ttl == settings.disappearing_ttl {
            settings.local_ttl
        } else {
            None
        };
        let seconds = match current {
            None => Some(0),
            Some(s) => if s == 0 {
                Some(86_400)
            } else if s == 86_400 {
                Some(604_800)
            } else if s == 604_800 {
                Some(2_592_000)
            } else if s == 2_592_000 {
                None
            } else {
                Some(0)
            },
        };
        let chat_ref = copy_ref(&d.chat_ref);
        self.chat_deletion_dialog = Some(
            ChatDeletionDialog {
                chat_ref: d.chat_ref,
                settings: d.settings,
                features: d.features,
                selected: d.selected,
                pending: true,
                error: None,
            },
        );
        Some(SimplexCommand::SetChatDeletion { user_id, chat_ref, seconds })
    }

    /// Moves the dialog's selection up.
    pub fn select_chat_setting_up(&mut self)
        ensures
            dialog_selection_up(*old(self), *final(self)),
    {
        match self.chat_deletion_dialog.take() {
            Some(d) => {
                let selected = if d.selected == 0 {
                    0
                } else {
                    d.selected - 1
                };
                self.chat_deletion_dialog = Some(ChatDeletionDialog { selected, ..d });
            },
            None => {},
        }
    }

    /// Moves the dialog's selection down, to its last line at most.
    pub fn select_chat_setting_down(&mut self)
        ensures
            dialog_selection_down(*old(self), *final(self)),
    {
        match self.chat_deletion_dialog.take() {
            Some(d) => {
                let selected = if d.selected >= 8 {
                    8
                } else {
                    d.selected + 1
                };
                self.chat_deletion_dialog = Some(ChatDeletionDialog { selected, ..d });
            },
            None => {},
        }
    }

    /// Switches a feature of the dialog's conversation, once its features are known.
    pub fn toggle_conversation_feature(&mut self, feature: ChatFeature) -> (r: Option<SimplexCommand>)
        ensures
            conversation_feature_toggled(*old(self), feature, *final(self), r),
    {
        let d = match self.chat_deletion_dialog.take() {
            Some(d) => d,
            None => return None,
        };
        let f = match d.features {
            Some(f) => f,
            None => {
                self.chat_deletion_dialog = Some(d);
                return None;
            },
        };
        let enabled = match feature {
            ChatFeature::FullDeletion => !f.full_deletion,
            ChatFeature::Reactions => !f.reactions,
            ChatFeature::VoiceMessages => !f.voice_messages,
            ChatFeature::FilesAndMedia => !f.files_and_media,
        };
        let chat_ref = copy_ref(&d.chat_ref);
        self.chat_deletion_dialog = Some(
            ChatDeletionDialog {
                chat_ref: d.chat_ref,
                settings: d.settings,
                features: d.features,
                selected: d.selected,
                pending: true,
                error: None,
            },
        );
        Some(SimplexCommand::SetConversationFeature { chat_ref, feature, enabled })
    }

    /// Asks the user to confirm deleting the dialog's conversation in `mode`; the contact modes
    /// are for direct conversations only.
    pub fn ask_chat_delete(&mut self, mode: ChatDeleteMode)
        ensures
            chat_delete_asked(*old(self), mode, *final(self)),
    {
        let chat_ref = match &self.chat_deletion_dialog {
            Some(d) => copy_ref(&d.chat_ref),
            None => return ,
        };
        if mode != ChatDeleteMode::Conversation && !starts_with(chat_ref.0.as_str(), "@") {
            self.notice = text_notice("Contact actions are only available in direct chats");
            return ;
        }
        let chat_name = match find_chat(&self.chats, &chat_ref) {
            Some(i) => self.chats[i].display_name.clone(),
            None => "Chat".to_owned(),
        };
        self.chat_delete_confirmation = Some(ChatDeleteConfirmation { chat_ref, chat_name, mode });
    }

    /// Deletes the conversation that the user confirmed deleting.
    pub fn confirm_chat_delete(&mut self) -> (r: Option<SimplexCommand>)
        ensures
            chat_deletion_requested(*old(self), *final(self), r),
    {
        let user_id = match self.active_user() {
            Some(u) => u.id,
            None => return None,
        };
        let c = match self.chat_delete_confirmation.take() {
            Some(c) => c,
            None => return None,
        };
        match self.chat_deletion_dialog.take() {
            Some(d) => {
                self.chat_deletion_dialog = Some(ChatDeletionDialog { pending: true, error: None, ..d });
            },
            None => {},
        }
        Some(SimplexCommand::DeleteChat { user_id, chat_ref: c.chat_ref, mode: c.mode })
    }

    /// Activates the dialog's selected line: the deletion period, a feature, a deletion, or
    /// closing the dialog.
    pub fn activate_chat_setting(&mut self) -> (r: Option<SimplexCommand>)
        ensures
            chat_setting_activated(*old(self), *final(self), r),
    {
        let (pending, selected) = match &self.chat_deletion_dialog {
            Some(d) => (d.pending, d.selected),
            None => return None,
        };
        if pending {
            return None;
        }
        if selected == 0 {
            self.cycle_chat_deletion()
        } else if selected == 1 {
            self.toggle_conversation_feature(ChatFeature::FullDeletion)
        } else if selected == 2 {
            self.toggle_conversation_feature(ChatFeature::Reactions)
        } else if selected == 3 {
            self.toggle_conversation_feature(ChatFeature::VoiceMessages)
        } else if selected == 4 {
            self.toggle_conversation_feature(ChatFeature::FilesAndMedia)
        } else if selected == 5 {
            self.ask_chat_delete(ChatDeleteMode::Conversation);
            None
        } else if selected == 6 {
            self.ask_chat_delete(ChatDeleteMode::Contact);
            None
        } else if selected == 7 {
            self.ask_chat_delete(ChatDeleteMode::BlockContact);
            None
        } else if selected == 8 {
            self.chat_deletion_dialog = None;
            None
        } else {
            None
        }
    }

    /// Activates the selected line of the Settings section: the notification sound, the
    /// automatic deletion period, or the theme.
    pub fn activate_setting(&mut self) -> (r: SettingOutcome)
        ensures
            setting_activated(*old(self), *final(self), r),
    {
        if self.selected_setting == 1 {
            self.toggle_sound()
        } else if self.selected_setting == 2 {
            self.cycle_auto_delete()
        } else if self.selected_setting == 3 {
            self.preferences.theme = self.preferences.theme.next();
            SettingOutcome { save: true, ring: false, command: None }
        } else {
            SettingOutcome { save: false, ring: false, command: None }
        }
    }

    fn toggle_sound(&mut self) -> (r: SettingOutcome)
        ensures
            sound_toggled(*old(self), *final(self), r),
    {
        self.preferences.notification_sound = !self.preferences.notification_sound;
        SettingOutcome { save: true, ring: self.preferences.notification_sound, command: None }
    }

    fn cycle_auto_delete(&mut self) -> (r: SettingOutcome)
        ensures
            auto_delete_cycled(*old(self), *final(self), r),
    {
        if self.auto_delete_pending.is_some() {
            self.notice = text_notice("Automatic deletion update is still pending");
            return SettingOutcome { save: false, ring: false, command: None };
        }
        let user_id = match self.active_user() {
            Some(u) => u.id,
            None => {
                self.notice = text_notice("Create a profile first");
                return SettingOutcome { save: false, ring: false, command: None };
            },
        };
        let s = self.auto_delete_seconds;
        let seconds = if s == 0 {
            86_400
        } else if s == 86_400 {
            604_800
        } else if s == 604_800 {
            2_592_000
        } else {
            0
        };
        self.auto_delete_pending = Some(seconds);
        self.notice = text_notice("Updating automatic deletion…");
        SettingOutcome {
            save: false,
            ring: false,
            command: Some(SimplexCommand::SetAutoDelete { user_id, seconds }),
        }
    }

    /// The worker did not take the change of automatic deletion.
    pub fn auto_delete_unavailable(&mut self)
        ensures
            *final(self) == (AppState {
                auto_delete_pending: None,
                notice: final(self).notice,
                ..*old(self)
            }),
            says(final(self).notice, unavailable_text()),
    {
        self.auto_delete_pending = None;
        self.notice = text_notice("SimpleX worker is not available");
    }

    /// Reports whether the preferences were saved.
    pub fn preferences_saved(&mut self, result: Result<(), String>)
        ensures
            *final(self) == (AppState { notice: final(self).notice, ..*old(self) }),
            match result {
                Ok(()) => says(final(self).notice, "Setting saved"@),
                Err(e) => says(final(self).notice, "Could not save setting: "@ + e@),
            },
    {
        self.notice = match result {
            Ok(()) => text_notice("Setting saved"),
            Err(e) => Some(join("Could not save setting: ", e.as_str())),
        };
    }
}



/// The unread messages of all conversations together.
pub open spec fn unread_sum(chats: Seq<ChatSummaryView>) -> int
    decreases chats.len(),
{
    if chats.len() == 0 {
        0
    } else {
        unread_sum(chats.drop_last()) + chats.last().unread_count
    }
}

proof fn lemma_unread_sum_grows(chats: Seq<ChatSummaryView>, i: int)
    requires
        0 <= i <= chats.len(),
    ensures
        unread_sum(chats.take(i)) <= unread_sum(chats),
    decreases chats.len(),
{
    if i < chats.len() {
        assert(chats.take(i) =~= chats.drop_last().take(i));
        lemma_unread_sum_grows(chats.drop_last(), i);
    } else {
        assert(chats.take(i) =~= chats);
    }
}

impl AppState {
    /// How many messages are unread over all conversations.
    pub fn total_unread(&self) -> (r: u64)
        requires
            unread_sum(self.chats.deep_view()) <= u64::MAX,
        ensures
            r == unread_sum(self.chats.deep_view()),
    {
        let ghost cs = self.chats.deep_view();
        let mut total: u64 = 0;
        let mut i: usize = 0;
        assert(cs.take(0) =~= Seq::<ChatSummaryView>::empty());
        while i < self.chats.len()
            invariant
                i <= self.chats@.len(),
                cs == self.chats.deep_view(),
                cs.len() == self.chats@.len(),
                unread_sum(cs) <= u64::MAX,
                total == unread_sum(cs.take(i as int)),
            decreases self.chats.len() - i,
        {
            assert(cs.take(i + 1).drop_last() =~= cs.take(i as int));
            proof {
                lemma_unread_sum_grows(cs, i + 1);
            }
            total = total + self.chats[i].unread_count;
            i = i + 1;
        }
        assert(cs.take(self.chats@.len() as int) =~= cs);
        total
    }

    /// The servers of the chosen protocol, in their order.
    pub fn visible_servers(&self) -> (r: Vec<ServerEntry>)
        ensures
            r.deep_view() == visible_servers_of(self.servers.deep_view(), self.server_protocol),
    {
        let ghost s = self.servers.deep_view();
        let mut out: Vec<ServerEntry> = Vec::new();
        let mut i: usize = 0;
        assert(s.take(0) =~= Seq::<ServerEntryView>::empty());
        assert(out.deep_view() =~= Seq::<ServerEntryView>::empty());
        while i < self.servers.len()
            invariant
                i <= self.servers@.len(),
                s == self.servers.deep_view(),
                s.len() == self.servers@.len(),
                out.deep_view() == visible_servers_of(s.take(i as int), self.server_protocol),
            decreases self.servers.len() - i,
        {
            assert(s.take(i + 1).drop_last() =~= s.take(i as int));
            assert(s.take(i + 1).last() == s[i as int]);
            let e = &self.servers[i];
            if e.protocol == self.server_protocol {
                let c = ServerEntry {
                    protocol: e.protocol,
                    address: e.address.clone(),
                    enabled: e.enabled,
                    preset: e.preset,
                };
                let ghost before = out.deep_view();
                out.push(c);
                assert(out.deep_view() =~= before.push(c.deep_view()));
            }
            i = i + 1;
        }
        assert(s.take(self.servers@.len() as int) =~= s);
        out
    }
}

/// What the interface gives up when the worker cannot take `command`: the sending of a message,
/// the creation of an invitation or a profile, a connection, or a change of automatic deletion
/// stops waiting and says that the worker is not available; other commands wait for nothing.
pub open spec fn given_up(old: AppState, command: SimplexCommand, new: AppState) -> bool {
    match command {
        SimplexCommand::SendMessage { .. } => new == (AppState {
            sending: false,
            chat_error: new.chat_error,
            ..old
        }) && says(new.chat_error, unavailable_text()),
        SimplexCommand::CreateInvitation { .. } => new == (AppState {
            invitation_loading: false,
            invitation_error: new.invitation_error,
            ..old
        }) && says(new.invitation_error, unavailable_text()),
        SimplexCommand::ConnectInvitation { .. } => new == (AppState {
            connection_loading: false,
            connection_error: new.connection_error,
            ..old
        }) && says(new.connection_error, unavailable_text()),
        SimplexCommand::CreateProfile(_) => new == (AppState {
            profile_create_pending: false,
            notice: new.notice,
            ..old
        }) && says(new.notice, unavailable_text()),
        SimplexCommand::SetAutoDelete { .. } => new == (AppState {
            auto_delete_pending: None,
            notice: new.notice,
            ..old
        }) && says(new.notice, unavailable_text()),
        _ => new == old,
    }
}

impl AppState {
    /// The worker could not take `command`: what waited for it is given up.
    pub fn command_unsent(&mut self, command: &SimplexCommand)
        ensures
            given_up(*old(self), *command, *final(self)),
    {
        match command {
            SimplexCommand::SendMessage { .. } => self.send_unavailable(),
            SimplexCommand::CreateInvitation { .. } => self.invitation_unavailable(),
            SimplexCommand::ConnectInvitation { .. } => self.connection_unavailable(),
            SimplexCommand::CreateProfile(_) => self.profile_unavailable(),
            SimplexCommand::SetAutoDelete { .. } => self.auto_delete_unavailable(),
            _ => {},
        }
    }
}

} // verus!
