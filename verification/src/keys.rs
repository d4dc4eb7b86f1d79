use vstd::prelude::*;

use crate::actions::{
    chat_deletion_requested, chat_feature_toggled, chat_setting_activated, connect_editor_opened,
    connection_requested, deletion_dialog_opened, dialog_selection_down, dialog_selection_up,
    download_cancel_requested, feature_on, invitation_requested, invitation_shown,
    message_sent_by_user, profile_activation_requested, profile_deletion_requested, scrolled_down,
    scrolled_up, server_added, server_toggled, setting_activated, unavailable_text,
    SettingOutcome,
};
use crate::client::ChatFeature;
use crate::command::SimplexCommand;
use crate::events::says;
use crate::model::ServerProtocol;
use crate::state::{
    clamped, servers_of, AppEvent, AppState, InputMode, Section,
};
use crate::text::{chars_of, join, text_from_chars, trim, trimmed};

verus! {

/// The keys the interface reacts to.
#[derive(Clone, Copy, Debug, PartialEq, Eq, Structural)]
pub enum KeyCode {
    Char(char),
    Enter,
    Esc,
    Tab,
    Backspace,
    Up,
    Down,
    Left,
    Right,
    PageUp,
    PageDown,
    End,
    Other,
}

/// A key press with its modifiers.
#[derive(Clone, Copy, Debug, PartialEq, Eq, Structural)]
pub struct Key {
    pub code: KeyCode,
    pub shift: bool,
    pub alt: bool,
    pub control: bool,
}

/// What a key press asks for.
#[derive(Clone, Copy, Debug, PartialEq, Eq, Structural)]
pub enum KeyAction {
    Nothing,
    Quit,
    ConfirmCancelDownload,
    DismissCancelDownload,
    ConfirmChatDelete,
    DismissChatDelete,
    ConfirmDeleteProfile,
    DismissDeleteProfile,
    CloseEditor,
    SubmitNewProfile,
    SubmitServer,
    SubmitConnection,
    EraseInput,
    TypeInput(char),
    CloseDialog,
    DialogUp,
    DialogDown,
    DialogActivate,
    Unfocus,
    DropDraft,
    ComposerNewline,
    ComposerSend,
    ComposerErase,
    ComposerType(char),
    StartProfileName,
    StartProfileNameWith(char),
    ShowInvitation,
    ShowConnect,
    OpenChatDeletion,
    CreateInvitation,
    CreateMissingInvitation,
    FocusComposer,
    ActivateProfile,
    NewProfile,
    AskDeleteProfile,
    ToggleServer,
    ActivateSetting,
    OpenAddServer,
    SwitchProtocol,
    ServerUp,
    ServerDown,
    ToggleCompact,
    ToggleFeature(ChatFeature),
    Navigate(AppEvent),
    ScrollUp,
    ScrollDown,
    JumpToLatest,
}

/// What the interface must do after a key press, besides the new state.
pub struct KeyOutcome {
    /// A command for the worker.
    pub command: Option<SimplexCommand>,
    /// Requests for the data of a dialog that just opened.
    pub loads: Vec<SimplexCommand>,
    /// A request of the interface itself, handled after the key.
    pub event: Option<AppEvent>,
    /// What activating a setting asks for.
    pub setting: Option<SettingOutcome>,
    /// The preferences changed and must be saved.
    pub save: bool,
}

/// Whether a line editor of this mode takes typed text.
pub open spec fn edits_text(m: InputMode) -> bool {
    m == InputMode::CreateProfile || m == InputMode::AddServer || m == InputMode::ConnectInvitation
}

/// The action of a key in a line editor: Esc closes it, Enter submits a line that is not blank,
/// Backspace erases, and a character without Control is typed.
pub open spec fn editor_action(s: AppState, key: Key, submit: KeyAction) -> KeyAction {
    match key.code {
        KeyCode::Esc => KeyAction::CloseEditor,
        KeyCode::Enter => if trimmed(s.input@).len() > 0 {
            submit
        } else {
            KeyAction::Nothing
        },
        KeyCode::Backspace => KeyAction::EraseInput,
        KeyCode::Char(c) => if !key.control {
            KeyAction::TypeInput(c)
        } else {
            KeyAction::Nothing
        },
        _ => KeyAction::Nothing,
    }
}

/// What each key does, by what the interface shows: dialogs first, then line editors, the
/// deletion dialog, the composer (whose draft is dropped once no conversation is selected), the
/// line for a new profile, and the lists.
pub open spec fn action_for(s: AppState, key: Key) -> KeyAction {
    if key.code == KeyCode::Char('c') && key.control {
        KeyAction::Quit
    } else if s.download_cancel_dialog is Some {
        match key.code {
            KeyCode::Char('y') => KeyAction::ConfirmCancelDownload,
            KeyCode::Enter | KeyCode::Esc | KeyCode::Char('n') => KeyAction::DismissCancelDownload,
            _ => KeyAction::Nothing,
        }
    } else if s.chat_delete_confirmation is Some {
        match key.code {
            KeyCode::Char('y') => KeyAction::ConfirmChatDelete,
            KeyCode::Enter | KeyCode::Esc | KeyCode::Char('n') => KeyAction::DismissChatDelete,
            _ => KeyAction::Nothing,
        }
    } else if s.input_mode == InputMode::ConfirmDeleteProfile {
        match key.code {
            KeyCode::Char('y') => KeyAction::ConfirmDeleteProfile,
            KeyCode::Enter | KeyCode::Esc => KeyAction::DismissDeleteProfile,
            _ => KeyAction::Nothing,
        }
    } else if s.input_mode == InputMode::CreateProfile {
        if s.profile_create_pending {
            KeyAction::Nothing
        } else {
            editor_action(s, key, KeyAction::SubmitNewProfile)
        }
    } else if s.input_mode == InputMode::AddServer {
        editor_action(s, key, KeyAction::SubmitServer)
    } else if s.input_mode == InputMode::ConnectInvitation {
        editor_action(s, key, KeyAction::SubmitConnection)
    } else if edits_text(s.input_mode) {
        editor_action(s, key, KeyAction::Nothing)
    } else if s.chat_deletion_dialog is Some {
        match key.code {
            KeyCode::Esc => KeyAction::CloseDialog,
            KeyCode::Up | KeyCode::Char('k') => KeyAction::DialogUp,
            KeyCode::Down | KeyCode::Char('j') => KeyAction::DialogDown,
            KeyCode::Enter | KeyCode::Char(' ') => KeyAction::DialogActivate,
            _ => KeyAction::Nothing,
        }
    } else if s.composer_focused && s.selected_chat >= s.chats@.len() {
        KeyAction::DropDraft
    } else if s.composer_focused {
        match key.code {
            KeyCode::Esc => KeyAction::Unfocus,
            KeyCode::Enter => if key.shift || key.alt {
                KeyAction::ComposerNewline
            } else {
                KeyAction::ComposerSend
            },
            KeyCode::Backspace => KeyAction::ComposerErase,
            KeyCode::Char(c) => if !key.control {
                KeyAction::ComposerType(c)
            } else {
                KeyAction::Nothing
            },
            _ => KeyAction::Nothing,
        }
    } else if s.section == Section::Profiles && s.selected_profile >= s.profiles@.len() {
        match key.code {
            KeyCode::Enter => KeyAction::StartProfileName,
            KeyCode::Char(c) => if !key.control {
                KeyAction::StartProfileNameWith(c)
            } else {
                KeyAction::Nothing
            },
            _ => KeyAction::Nothing,
        }
    } else {
        list_action(s, key)
    }
}

/// What a key does on the lists of the three sections.
pub open spec fn list_action(s: AppState, key: Key) -> KeyAction {
    let chats = s.section == Section::Chats;
    let profiles = s.section == Section::Profiles;
    let settings = s.section == Section::Settings;
    let on_chat = chats && s.selected_chat < s.chats@.len();
    let on_new_contact = chats && s.selected_chat == s.chats@.len();
    let on_profile = profiles && s.selected_profile < s.profiles@.len();
    match key.code {
        KeyCode::Esc | KeyCode::Char('q') => KeyAction::Quit,
        KeyCode::Char('n') if chats => KeyAction::ShowInvitation,
        KeyCode::Char('p') if chats => KeyAction::ShowConnect,
        KeyCode::Char('s') if on_chat => KeyAction::OpenChatDeletion,
        KeyCode::Char('r') if on_new_contact => KeyAction::CreateInvitation,
        KeyCode::Enter if on_new_contact => KeyAction::CreateMissingInvitation,
        KeyCode::Enter if on_chat => KeyAction::FocusComposer,
        KeyCode::Char('i') if on_chat => KeyAction::FocusComposer,
        KeyCode::Enter if profiles => KeyAction::ActivateProfile,
        KeyCode::Char('n') if profiles => KeyAction::NewProfile,
        KeyCode::Char('d') if on_profile => KeyAction::AskDeleteProfile,
        KeyCode::Enter if settings => if s.selected_setting == 5 {
            KeyAction::ToggleServer
        } else {
            KeyAction::ActivateSetting
        },
        KeyCode::Char(' ') if settings => if s.selected_setting == 5 {
            KeyAction::ToggleServer
        } else {
            KeyAction::ActivateSetting
        },
        KeyCode::Char('a') if settings && s.selected_setting == 5 => KeyAction::OpenAddServer,
        KeyCode::Char('p') if settings && s.selected_setting == 5 => KeyAction::SwitchProtocol,
        KeyCode::Char('k') if settings && s.selected_setting == 5 => KeyAction::ServerUp,
        KeyCode::Char('j') if settings && s.selected_setting == 5 => KeyAction::ServerDown,
        KeyCode::Char('c') if settings && s.selected_setting == 3 => KeyAction::ToggleCompact,
        KeyCode::Char('x') if settings && s.selected_setting == 4 => KeyAction::ToggleFeature(
            ChatFeature::FullDeletion,
        ),
        KeyCode::Char('r') if settings && s.selected_setting == 4 => KeyAction::ToggleFeature(
            ChatFeature::Reactions,
        ),
        KeyCode::Char('v') if settings && s.selected_setting == 4 => KeyAction::ToggleFeature(
            ChatFeature::VoiceMessages,
        ),
        KeyCode::Char('f') if settings && s.selected_setting == 4 => KeyAction::ToggleFeature(
            ChatFeature::FilesAndMedia,
        ),
        KeyCode::Tab => KeyAction::Navigate(AppEvent::ToggleSection),
        KeyCode::Char('1') => KeyAction::Navigate(AppEvent::SelectSection(Section::Chats)),
        KeyCode::Char('2') => KeyAction::Navigate(AppEvent::SelectSection(Section::Profiles)),
        KeyCode::Char('3') => KeyAction::Navigate(AppEvent::SelectSection(Section::Settings)),
        KeyCode::Up | KeyCode::Char('k') => KeyAction::Navigate(AppEvent::SelectPrevious),
        KeyCode::Down | KeyCode::Char('j') => KeyAction::Navigate(AppEvent::SelectNext),
        KeyCode::Left | KeyCode::Char('h') => KeyAction::Navigate(AppEvent::PreviousSection),
        KeyCode::Right | KeyCode::Char('l') => KeyAction::Navigate(AppEvent::NextSection),
        KeyCode::PageUp if chats => KeyAction::ScrollUp,
        KeyCode::PageDown if chats => KeyAction::ScrollDown,
        KeyCode::End if chats => KeyAction::JumpToLatest,
        _ => KeyAction::Nothing,
    }
}

/// A key outcome that asks for nothing.
pub open spec fn quiet(out: KeyOutcome) -> bool {
    out.command is None && out.loads@.len() == 0 && out.event is None && out.setting is None
        && !out.save
}

/// A key outcome that only carries `command`.
pub open spec fn commands_only(out: KeyOutcome) -> bool {
    out.loads@.len() == 0 && out.event is None && out.setting is None && !out.save
}

/// The feature the Settings page would switch, with its new value.
pub open spec fn profile_feature_on(s: AppState, feature: ChatFeature) -> bool {
    feature_on(s.chat_features, feature)
}

/// What performing each key action does.
pub open spec fn performed(old: AppState, a: KeyAction, max_scroll: usize, new: AppState, out: KeyOutcome) -> bool {
    match a {
        KeyAction::Nothing => new == old && quiet(out),
        KeyAction::Quit => new == old && out.event == Some(AppEvent::Quit) && out.command is None
            && out.loads@.len() == 0 && out.setting is None && !out.save,
        KeyAction::ConfirmCancelDownload => download_cancel_requested(old, new, out.command)
            && commands_only(out),
        KeyAction::DismissCancelDownload => new == (AppState {
            download_cancel_dialog: None,
            ..old
        }) && quiet(out),
        KeyAction::ConfirmChatDelete => chat_deletion_requested(old, new, out.command)
            && commands_only(out),
        KeyAction::DismissChatDelete => new == (AppState {
            chat_delete_confirmation: None,
            ..old
        }) && quiet(out),
        KeyAction::ConfirmDeleteProfile => profile_deletion_requested(old, new, out.command)
            && commands_only(out),
        KeyAction::DismissDeleteProfile => new == (AppState {
            input_mode: InputMode::Idle,
            ..old
        }) && quiet(out),
        KeyAction::CloseEditor => new == (AppState {
            input_mode: InputMode::Idle,
            input: new.input,
            ..old
        }) && new.input@.len() == 0 && quiet(out),
        KeyAction::SubmitNewProfile => new_profile_submitted(old, new, out.command)
            && commands_only(out),
        KeyAction::SubmitServer => server_added(old, new, out.command) && commands_only(out),
        KeyAction::SubmitConnection => connection_requested(old, new, out.command) && commands_only(
            out,
        ),
        KeyAction::EraseInput => new == (AppState { input: new.input, ..old }) && new.input@
            == erased(old.input@) && quiet(out),
        KeyAction::TypeInput(c) => new == (AppState { input: new.input, ..old }) && new.input@
            == old.input@.push(c) && quiet(out),
        KeyAction::CloseDialog => new == (AppState { chat_deletion_dialog: None, ..old }) && quiet(
            out,
        ),
        KeyAction::DialogUp => dialog_selection_up(old, new) && quiet(out),
        KeyAction::DialogDown => dialog_selection_down(old, new) && quiet(out),
        KeyAction::DialogActivate => chat_setting_activated(old, new, out.command) && commands_only(
            out,
        ),
        KeyAction::Unfocus => new == (AppState { composer_focused: false, ..old }) && quiet(out),
        KeyAction::DropDraft => new == (AppState {
            composer_focused: false,
            composer: new.composer,
            ..old
        }) && new.composer@.len() == 0 && quiet(out),
        KeyAction::ComposerNewline => new == (AppState { composer: new.composer, ..old })
            && new.composer@ == old.composer@.push('\n') && quiet(out),
        KeyAction::ComposerSend => message_sent_by_user(old, new, out.command) && commands_only(
            out,
        ),
        KeyAction::ComposerErase => new == (AppState { composer: new.composer, ..old })
            && new.composer@ == erased(old.composer@) && quiet(out),
        KeyAction::ComposerType(c) => new == (AppState { composer: new.composer, ..old })
            && new.composer@ == old.composer@.push(c) && quiet(out),
        KeyAction::StartProfileName => new == (AppState {
            input_mode: InputMode::CreateProfile,
            input: new.input,
            ..old
        }) && new.input@.len() == 0 && quiet(out),
        KeyAction::StartProfileNameWith(c) => new == (AppState {
            input_mode: InputMode::CreateProfile,
            input: new.input,
            ..old
        }) && new.input@ == seq![c] && quiet(out),
        KeyAction::ShowInvitation => invitation_shown(old, new, out.command) && commands_only(out),
        KeyAction::ShowConnect => connect_editor_opened(old, new) && quiet(out),
        KeyAction::OpenChatDeletion => deletion_dialog_opened(old, new, out.loads) && out.command
            is None && out.event is None && out.setting is None && !out.save,
        KeyAction::CreateInvitation => invitation_requested(old, new, out.command) && commands_only(
            out,
        ),
        KeyAction::CreateMissingInvitation => if old.invitation_link is None {
            invitation_requested(old, new, out.command) && commands_only(out)
        } else {
            new == old && quiet(out)
        },
        KeyAction::FocusComposer => new == (AppState { composer_focused: true, ..old }) && quiet(
            out,
        ),
        KeyAction::ActivateProfile => profile_activation_requested(old, new, out.command)
            && commands_only(out),
        KeyAction::NewProfile => new == (AppState {
            input_mode: InputMode::CreateProfile,
            input: new.input,
            ..old
        }) && new.input@.len() == 0 && quiet(out),
        KeyAction::AskDeleteProfile => new == (AppState {
            input_mode: InputMode::ConfirmDeleteProfile,
            ..old
        }) && quiet(out),
        KeyAction::ToggleServer => server_toggled(old, new, out.command) && commands_only(out),
        KeyAction::ActivateSetting => out.setting matches Some(so) && setting_activated(
            old,
            new,
            so,
        ) && out.command is None && out.loads@.len() == 0 && out.event is None && !out.save,
        KeyAction::OpenAddServer => new == (AppState {
            input_mode: InputMode::AddServer,
            input: new.input,
            ..old
        }) && new.input@.len() == 0 && quiet(out),
        KeyAction::SwitchProtocol => new == (AppState {
            server_protocol: match old.server_protocol {
                ServerProtocol::Smp => ServerProtocol::Xftp,
                ServerProtocol::Xftp => ServerProtocol::Smp,
            },
            selected_server: 0,
            ..old
        }) && quiet(out),
        KeyAction::ServerUp => new == (AppState {
            selected_server: if old.selected_server == 0 {
                0
            } else {
                (old.selected_server - 1) as usize
            },
            ..old
        }) && quiet(out),
        KeyAction::ServerDown => new == (AppState {
            selected_server: clamped(
                if old.selected_server == usize::MAX {
                    usize::MAX
                } else {
                    (old.selected_server + 1) as usize
                },
                servers_of(old.servers.deep_view(), old.server_protocol),
            ),
            ..old
        }) && quiet(out),
        KeyAction::ToggleCompact => new == (AppState {
            preferences: crate::prefs::Preferences {
                compact_messages: !old.preferences.compact_messages,
                ..old.preferences
            },
            ..old
        }) && out.save && out.command is None && out.loads@.len() == 0 && out.event is None
            && out.setting is None,
        KeyAction::ToggleFeature(f) => chat_feature_toggled(
            old,
            f,
            !profile_feature_on(old, f),
            new,
            out.command,
        ) && commands_only(out),
        KeyAction::Navigate(e) => new == old && out.event == Some(e) && out.command is None
            && out.loads@.len() == 0 && out.setting is None && !out.save,
        KeyAction::ScrollUp => scrolled_up(old, 5, max_scroll, new) && quiet(out),
        KeyAction::ScrollDown => scrolled_down(old, 5, new) && quiet(out),
        KeyAction::JumpToLatest => new == (AppState {
            chat_scroll: 0,
            new_messages_below: 0,
            ..old
        }) && quiet(out),
    }
}

/// A text with its last character removed, if it has one.
pub open spec fn erased(s: Seq<char>) -> Seq<char> {
    if s.len() == 0 {
        s
    } else {
        s.drop_last()
    }
}

/// What submitting the name of a new profile does: the core is asked to create it, once.
pub open spec fn new_profile_submitted(old: AppState, new: AppState, r: Option<SimplexCommand>) -> bool {
    &&& new == (AppState { notice: new.notice, profile_create_pending: true, ..old })
    &&& says(new.notice, "Creating profile…"@)
    &&& r matches Some(SimplexCommand::CreateProfile(name)) && name@ == trimmed(old.input@)
}

fn pushed(s: &str, c: char) -> (r: String)
    ensures
        r@ == s@.push(c),
{
    let mut cs = chars_of(s);
    cs.push(c);
    text_from_chars(cs.as_slice())
}

fn popped(s: &str) -> (r: String)
    ensures
        r@ == erased(s@),
{
    let mut cs = chars_of(s);
    if cs.len() > 0 {
        cs.pop();
    }
    text_from_chars(cs.as_slice())
}

fn quiet_outcome() -> (out: KeyOutcome)
    ensures
        quiet(out),
{
    KeyOutcome { command: None, loads: Vec::new(), event: None, setting: None, save: false }
}

fn command_outcome(command: Option<SimplexCommand>) -> (out: KeyOutcome)
    ensures
        commands_only(out),
        out.command == command,
{
    KeyOutcome { command, loads: Vec::new(), event: None, setting: None, save: false }
}

fn event_outcome(e: AppEvent) -> (out: KeyOutcome)
    ensures
        out.event == Some(e),
        out.command is None && out.loads@.len() == 0 && out.setting is None && !out.save,
{
    KeyOutcome { command: None, loads: Vec::new(), event: Some(e), setting: None, save: false }
}

impl AppState {
    /// Asks the core to create a profile with the name in the editor.
    pub fn submit_new_profile(&mut self) -> (r: Option<SimplexCommand>)
        ensures
            new_profile_submitted(*old(self), *final(self), r),
    {
        let name = trim(self.input.as_str());
        self.notice = Some("Creating profile…".to_owned());
        self.profile_create_pending = true;
        Some(SimplexCommand::CreateProfile(name))
    }

    /// The worker did not take the request for a new profile.
    pub fn profile_unavailable(&mut self)
        ensures
            *final(self) == (AppState {
                profile_create_pending: false,
                notice: final(self).notice,
                ..*old(self)
            }),
            says(final(self).notice, unavailable_text()),
    {
        self.profile_create_pending = false;
        self.notice = Some("SimpleX worker is not available".to_owned());
    }

    fn editor_key(&self, key: Key, submit: KeyAction) -> (a: KeyAction)
        ensures
            a == editor_action(*self, key, submit),
    {
        match key.code {
            KeyCode::Esc => KeyAction::CloseEditor,
            KeyCode::Enter => if crate::text::is_blank(trim(self.input.as_str()).as_str()) {
                KeyAction::Nothing
            } else {
                submit
            },
            KeyCode::Backspace => KeyAction::EraseInput,
            KeyCode::Char(c) => if !key.control {
                KeyAction::TypeInput(c)
            } else {
                KeyAction::Nothing
            },
            _ => KeyAction::Nothing,
        }
    }

    fn list_key(&self, key: Key) -> (a: KeyAction)
        ensures
            a == list_action(*self, key),
    {
        let chats = self.section == Section::Chats;
        let profiles = self.section == Section::Profiles;
        let settings = self.section == Section::Settings;
        let on_chat = chats && self.selected_chat < self.chats.len();
        let on_new_contact = chats && self.selected_chat == self.chats.len();
        let on_profile = profiles && self.selected_profile < self.profiles.len();
        let servers_page = settings && self.selected_setting == 5;
        let features_page = settings && self.selected_setting == 4;
        match key.code {
            KeyCode::Esc | KeyCode::Char('q') => KeyAction::Quit,
            KeyCode::Char('n') if chats => KeyAction::ShowInvitation,
            KeyCode::Char('p') if chats => KeyAction::ShowConnect,
            KeyCode::Char('s') if on_chat => KeyAction::OpenChatDeletion,
            KeyCode::Char('r') if on_new_contact => KeyAction::CreateInvitation,
            KeyCode::Enter if on_new_contact => KeyAction::CreateMissingInvitation,
            KeyCode::Enter if on_chat => KeyAction::FocusComposer,
        KeyCode::Char('i') if on_chat => KeyAction::FocusComposer,
            KeyCode::Enter if profiles => KeyAction::ActivateProfile,
            KeyCode::Char('n') if profiles => KeyAction::NewProfile,
            KeyCode::Char('d') if on_profile => KeyAction::AskDeleteProfile,
            KeyCode::Enter if settings => if self.selected_setting == 5 {
                KeyAction::ToggleServer
            } else {
                KeyAction::ActivateSetting
            },
            KeyCode::Char(' ') if settings => if self.selected_setting == 5 {
                KeyAction::ToggleServer
            } else {
                KeyAction::ActivateSetting
            },
            KeyCode::Char('a') if servers_page => KeyAction::OpenAddServer,
            KeyCode::Char('p') if servers_page => KeyAction::SwitchProtocol,
            KeyCode::Char('k') if servers_page => KeyAction::ServerUp,
            KeyCode::Char('j') if servers_page => KeyAction::ServerDown,
            KeyCode::Char('c') if settings && self.selected_setting == 3 => KeyAction::ToggleCompact,
            KeyCode::Char('x') if features_page => KeyAction::ToggleFeature(ChatFeature::FullDeletion),
            KeyCode::Char('r') if features_page => KeyAction::ToggleFeature(ChatFeature::Reactions),
            KeyCode::Char('v') if features_page => KeyAction::ToggleFeature(ChatFeature::VoiceMessages),
            KeyCode::Char('f') if features_page => KeyAction::ToggleFeature(ChatFeature::FilesAndMedia),
            KeyCode::Tab => KeyAction::Navigate(AppEvent::ToggleSection),
            KeyCode::Char('1') => KeyAction::Navigate(AppEvent::SelectSection(Section::Chats)),
            KeyCode::Char('2') => KeyAction::Navigate(AppEvent::SelectSection(Section::Profiles)),
            KeyCode::Char('3') => KeyAction::Navigate(AppEvent::SelectSection(Section::Settings)),
            KeyCode::Up | KeyCode::Char('k') => KeyAction::Navigate(AppEvent::SelectPrevious),
            KeyCode::Down | KeyCode::Char('j') => KeyAction::Navigate(AppEvent::SelectNext),
            KeyCode::Left | KeyCode::Char('h') => KeyAction::Navigate(AppEvent::PreviousSection),
            KeyCode::Right | KeyCode::Char('l') => KeyAction::Navigate(AppEvent::NextSection),
            KeyCode::PageUp if chats => KeyAction::ScrollUp,
            KeyCode::PageDown if chats => KeyAction::ScrollDown,
            KeyCode::End if chats => KeyAction::JumpToLatest,
            _ => KeyAction::Nothing,
        }
    }

    /// Which action a key press asks for.
    pub fn key_action(&self, key: Key) -> (a: KeyAction)
        ensures
            a == action_for(*self, key),
    {
        if key.code == KeyCode::Char('c') && key.control {
            return KeyAction::Quit;
        }
        if self.download_cancel_dialog.is_some() {
            return match key.code {
                KeyCode::Char('y') => KeyAction::ConfirmCancelDownload,
                KeyCode::Enter | KeyCode::Esc | KeyCode::Char('n') => KeyAction::DismissCancelDownload,
                _ => KeyAction::Nothing,
            };
        }
        if self.chat_delete_confirmation.is_some() {
            return match key.code {
                KeyCode::Char('y') => KeyAction::ConfirmChatDelete,
                KeyCode::Enter | KeyCode::Esc | KeyCode::Char('n') => KeyAction::DismissChatDelete,
                _ => KeyAction::Nothing,
            };
        }
        match self.input_mode {
            InputMode::ConfirmDeleteProfile => {
                return match key.code {
                    KeyCode::Char('y') => KeyAction::ConfirmDeleteProfile,
                    KeyCode::Enter | KeyCode::Esc => KeyAction::DismissDeleteProfile,
                    _ => KeyAction::Nothing,
                };
            },
            InputMode::CreateProfile => {
                return if self.profile_create_pending {
                    KeyAction::Nothing
                } else {
                    self.editor_key(key, KeyAction::SubmitNewProfile)
                };
            },
            InputMode::AddServer => {
                return self.editor_key(key, KeyAction::SubmitServer);
            },
            InputMode::ConnectInvitation => {
                return self.editor_key(key, KeyAction::SubmitConnection);
            },
            InputMode::Idle => {},
        }
        if self.chat_deletion_dialog.is_some() {
            return match key.code {
                KeyCode::Esc => KeyAction::CloseDialog,
                KeyCode::Up | KeyCode::Char('k') => KeyAction::DialogUp,
                KeyCode::Down | KeyCode::Char('j') => KeyAction::DialogDown,
                KeyCode::Enter | KeyCode::Char(' ') => KeyAction::DialogActivate,
                _ => KeyAction::Nothing,
            };
        }
        if self.composer_focused && self.selected_chat >= self.chats.len() {
            return KeyAction::DropDraft;
        }
        if self.composer_focused {
            return match key.code {
                KeyCode::Esc => KeyAction::Unfocus,
                KeyCode::Enter => if key.shift || key.alt {
                    KeyAction::ComposerNewline
                } else {
                    KeyAction::ComposerSend
                },
                KeyCode::Backspace => KeyAction::ComposerErase,
                KeyCode::Char(c) => if !key.control {
                    KeyAction::ComposerType(c)
                } else {
                    KeyAction::Nothing
                },
                _ => KeyAction::Nothing,
            };
        }
        if self.section == Section::Profiles && self.selected_profile >= self.profiles.len() {
            return match key.code {
                KeyCode::Enter => KeyAction::StartProfileName,
                KeyCode::Char(c) => if !key.control {
                    KeyAction::StartProfileNameWith(c)
                } else {
                    KeyAction::Nothing
                },
                _ => KeyAction::Nothing,
            };
        }
        self.list_key(key)
    }
}

impl AppState {
    fn perform_dialogs(&mut self, a: KeyAction) -> (out: KeyOutcome)
        requires
            a is ConfirmCancelDownload || a is DismissCancelDownload || a is ConfirmChatDelete
                || a is DismissChatDelete || a is ConfirmDeleteProfile || a is DismissDeleteProfile
                || a is CloseDialog || a is DialogUp || a is DialogDown || a is DialogActivate,
        ensures
            performed(*old(self), a, 0, *final(self), out),
    {
        match a {
            KeyAction::ConfirmCancelDownload => command_outcome(self.confirm_cancel_download()),
            KeyAction::DismissCancelDownload => {
                self.download_cancel_dialog = None;
                quiet_outcome()
            },
            KeyAction::ConfirmChatDelete => command_outcome(self.confirm_chat_delete()),
            KeyAction::DismissChatDelete => {
                self.chat_delete_confirmation = None;
                quiet_outcome()
            },
            KeyAction::ConfirmDeleteProfile => command_outcome(self.confirm_delete_profile()),
            KeyAction::DismissDeleteProfile => {
                self.input_mode = InputMode::Idle;
                quiet_outcome()
            },
            KeyAction::CloseDialog => {
                self.chat_deletion_dialog = None;
                quiet_outcome()
            },
            KeyAction::DialogUp => {
                self.select_chat_setting_up();
                quiet_outcome()
            },
            KeyAction::DialogDown => {
                self.select_chat_setting_down();
                quiet_outcome()
            },
            _ => command_outcome(self.activate_chat_setting()),
        }
    }

    fn perform_editing(&mut self, a: KeyAction) -> (out: KeyOutcome)
        requires
            a is CloseEditor || a is SubmitNewProfile || a is SubmitServer || a is SubmitConnection
                || a is EraseInput || a is TypeInput || a is Unfocus || a is DropDraft || a is ComposerNewline
                || a is ComposerSend || a is ComposerErase || a is ComposerType
                || a is StartProfileName || a is StartProfileNameWith,
        ensures
            performed(*old(self), a, 0, *final(self), out),
    {
        match a {
            KeyAction::CloseEditor => {
                self.input_mode = InputMode::Idle;
                self.input = String::new();
                quiet_outcome()
            },
            KeyAction::SubmitNewProfile => command_outcome(self.submit_new_profile()),
            KeyAction::SubmitServer => command_outcome(self.add_server()),
            KeyAction::SubmitConnection => command_outcome(self.connect_invitation()),
            KeyAction::EraseInput => {
                self.input = popped(self.input.as_str());
                quiet_outcome()
            },
            KeyAction::TypeInput(c) => {
                self.input = pushed(self.input.as_str(), c);
                quiet_outcome()
            },
            KeyAction::Unfocus => {
                self.composer_focused = false;
                quiet_outcome()
            },
            KeyAction::DropDraft => {
                self.composer_focused = false;
                self.composer = String::new();
                quiet_outcome()
            },
            KeyAction::ComposerNewline => {
                self.composer = pushed(self.composer.as_str(), '\n');
                quiet_outcome()
            },
            KeyAction::ComposerSend => command_outcome(self.send_message()),
            KeyAction::ComposerErase => {
                self.composer = popped(self.composer.as_str());
                quiet_outcome()
            },
            KeyAction::ComposerType(c) => {
                self.composer = pushed(self.composer.as_str(), c);
                quiet_outcome()
            },
            KeyAction::StartProfileName => {
                self.input_mode = InputMode::CreateProfile;
                self.input = String::new();
                quiet_outcome()
            },
            KeyAction::StartProfileNameWith(c) => {
                self.input_mode = InputMode::CreateProfile;
                self.input = pushed("", c);
                proof {
                    reveal_strlit("");
                    assert(self.input@ =~= seq![c]);
                }
                quiet_outcome()
            },
            _ => quiet_outcome(),
        }
    }

    fn perform_chats(&mut self, a: KeyAction, max_scroll: usize) -> (out: KeyOutcome)
        requires
            a is ShowInvitation || a is ShowConnect || a is OpenChatDeletion || a is CreateInvitation
                || a is CreateMissingInvitation || a is FocusComposer || a is ScrollUp
                || a is ScrollDown || a is JumpToLatest,
        ensures
            performed(*old(self), a, max_scroll, *final(self), out),
    {
        match a {
            KeyAction::ShowInvitation => command_outcome(self.show_invitation()),
            KeyAction::ShowConnect => {
                self.show_connect_invitation();
                quiet_outcome()
            },
            KeyAction::OpenChatDeletion => {
                let loads = self.open_chat_deletion();
                KeyOutcome { command: None, loads, event: None, setting: None, save: false }
            },
            KeyAction::CreateInvitation => command_outcome(self.create_invitation()),
            KeyAction::CreateMissingInvitation => {
                if self.invitation_link.is_none() {
                    command_outcome(self.create_invitation())
                } else {
                    quiet_outcome()
                }
            },
            KeyAction::FocusComposer => {
                self.composer_focused = true;
                quiet_outcome()
            },
            KeyAction::ScrollUp => {
                self.scroll_chat_up(5, max_scroll);
                quiet_outcome()
            },
            KeyAction::ScrollDown => {
                self.scroll_chat_down(5);
                quiet_outcome()
            },
            _ => {
                self.jump_to_latest();
                quiet_outcome()
            },
        }
    }

    fn perform_lists(&mut self, a: KeyAction) -> (out: KeyOutcome)
        requires
            a is ActivateProfile || a is NewProfile || a is AskDeleteProfile || a is ToggleServer
                || a is ActivateSetting || a is OpenAddServer || a is SwitchProtocol || a is ServerUp
                || a is ServerDown || a is ToggleCompact || a is ToggleFeature,
        ensures
            performed(*old(self), a, 0, *final(self), out),
    {
        match a {
            KeyAction::ActivateProfile => command_outcome(self.activate_profile()),
            KeyAction::NewProfile => {
                self.input_mode = InputMode::CreateProfile;
                self.input = String::new();
                quiet_outcome()
            },
            KeyAction::AskDeleteProfile => {
                self.input_mode = InputMode::ConfirmDeleteProfile;
                quiet_outcome()
            },
            KeyAction::ToggleServer => command_outcome(self.toggle_selected_server()),
            KeyAction::ActivateSetting => {
                let setting = self.activate_setting();
                KeyOutcome { command: None, loads: Vec::new(), event: None, setting: Some(setting), save: false }
            },
            KeyAction::OpenAddServer => {
                self.input_mode = InputMode::AddServer;
                self.input = String::new();
                quiet_outcome()
            },
            KeyAction::SwitchProtocol => {
                self.server_protocol = match self.server_protocol {
                    ServerProtocol::Smp => ServerProtocol::Xftp,
                    ServerProtocol::Xftp => ServerProtocol::Smp,
                };
                self.selected_server = 0;
                quiet_outcome()
            },
            KeyAction::ServerUp => {
                self.selected_server = if self.selected_server == 0 {
                    0
                } else {
                    self.selected_server - 1
                };
                quiet_outcome()
            },
            KeyAction::ServerDown => {
                let next = if self.selected_server == usize::MAX {
                    usize::MAX
                } else {
                    self.selected_server + 1
                };
                let n = self.visible_server_count();
                self.selected_server = crate::state::clamp_selection(next, n);
                quiet_outcome()
            },
            KeyAction::ToggleCompact => {
                self.preferences.compact_messages = !self.preferences.compact_messages;
                KeyOutcome { command: None, loads: Vec::new(), event: None, setting: None, save: true }
            },
            KeyAction::ToggleFeature(f) => {
                let on = match f {
                    ChatFeature::FullDeletion => self.chat_features.full_deletion,
                    ChatFeature::Reactions => self.chat_features.reactions,
                    ChatFeature::VoiceMessages => self.chat_features.voice_messages,
                    ChatFeature::FilesAndMedia => self.chat_features.files_and_media,
                };
                command_outcome(self.toggle_chat_feature(f, !on))
            },
            _ => quiet_outcome(),
        }
    }

    /// Handles a key press; `max_scroll` is how far the shown conversation can scroll up.
    pub fn handle_key(&mut self, key: Key, max_scroll: usize) -> (out: KeyOutcome)
        ensures
            performed(*old(self), action_for(*old(self), key), max_scroll, *final(self), out),
    {
        let a = self.key_action(key);
        match a {
            KeyAction::Nothing => quiet_outcome(),
            KeyAction::Quit => event_outcome(AppEvent::Quit),
            KeyAction::Navigate(e) => event_outcome(e),
            KeyAction::ConfirmCancelDownload | KeyAction::DismissCancelDownload
            | KeyAction::ConfirmChatDelete | KeyAction::DismissChatDelete
            | KeyAction::ConfirmDeleteProfile | KeyAction::DismissDeleteProfile
            | KeyAction::CloseDialog | KeyAction::DialogUp | KeyAction::DialogDown
            | KeyAction::DialogActivate => self.perform_dialogs(a),
            KeyAction::CloseEditor | KeyAction::SubmitNewProfile | KeyAction::SubmitServer
            | KeyAction::SubmitConnection | KeyAction::EraseInput | KeyAction::TypeInput(_)
            | KeyAction::Unfocus | KeyAction::DropDraft | KeyAction::ComposerNewline | KeyAction::ComposerSend
            | KeyAction::ComposerErase | KeyAction::ComposerType(_) | KeyAction::StartProfileName
            | KeyAction::StartProfileNameWith(_) => self.perform_editing(a),
            KeyAction::ShowInvitation | KeyAction::ShowConnect | KeyAction::OpenChatDeletion
            | KeyAction::CreateInvitation | KeyAction::CreateMissingInvitation
            | KeyAction::FocusComposer | KeyAction::ScrollUp | KeyAction::ScrollDown
            | KeyAction::JumpToLatest => self.perform_chats(a, max_scroll),
            _ => self.perform_lists(a),
        }
    }
}

/// Destructive requests need an explicit answer: a key press asks the worker to delete a
/// conversation, to delete a profile or to cancel a download only when that question is open
/// and the key is `y`.
pub proof fn lemma_destructive_keys_need_confirmation(
    old: AppState,
    key: Key,
    max_scroll: usize,
    new: AppState,
    out: KeyOutcome,
)
    requires
        performed(old, action_for(old, key), max_scroll, new, out),
    ensures
        out.command matches Some(SimplexCommand::DeleteChat { .. }) ==> old.chat_delete_confirmation
            is Some && key.code == KeyCode::Char('y'),
        out.command matches Some(SimplexCommand::DeleteProfile(_)) ==> old.input_mode
            == InputMode::ConfirmDeleteProfile && key.code == KeyCode::Char('y'),
        out.command matches Some(SimplexCommand::CancelFile { .. }) ==> old.download_cancel_dialog
            is Some && key.code == KeyCode::Char('y'),
{
}

/// Choosing another automatic deletion only asks the core: no key press changes the shown
/// setting, which follows the core's confirmation.
pub proof fn lemma_keys_leave_auto_delete_to_the_core(
    old: AppState,
    key: Key,
    max_scroll: usize,
    new: AppState,
    out: KeyOutcome,
)
    requires
        performed(old, action_for(old, key), max_scroll, new, out),
    ensures
        new.auto_delete_seconds == old.auto_delete_seconds,
{
}

/// The screen keys scroll the open conversation: in the Chats section, with no dialog, line
/// editor or message composer taking the keys, Page Up moves five messages further into the
/// past, no further than `max_scroll`, and Page Down five messages back towards the newest one,
/// no further than it; nothing else changes and nothing is asked of the worker.
pub proof fn lemma_page_keys_scroll_the_conversation(
    old: AppState,
    key: Key,
    max_scroll: usize,
    new: AppState,
    out: KeyOutcome,
)
    requires
        old.section == Section::Chats,
        old.download_cancel_dialog is None,
        old.chat_delete_confirmation is None,
        old.input_mode == InputMode::Idle,
        old.chat_deletion_dialog is None,
        !old.composer_focused,
        key.code == KeyCode::PageUp || key.code == KeyCode::PageDown,
        performed(old, action_for(old, key), max_scroll, new, out),
    ensures
        key.code == KeyCode::PageUp ==> new.chat_scroll == if old.chat_scroll + 5 > max_scroll {
            max_scroll as int
        } else {
            old.chat_scroll + 5
        },
        key.code == KeyCode::PageDown ==> new.chat_scroll == if old.chat_scroll > 5 {
            old.chat_scroll - 5
        } else {
            0
        },
        new.messages == old.messages && new.selected_chat == old.selected_chat && new.section == old.section,
        new.loaded_chat == old.loaded_chat,
        out.command is None && out.event is None,
{
}

} // verus!
