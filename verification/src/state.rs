use vstd::prelude::*;

use crate::cache::MessageCache;
use crate::client::ChatDeleteMode;
use crate::command::SimplexCommand;
use crate::json::text_eq;
use crate::model::{
    ChatDeletionSettings, ChatFeatures, ChatRef, ChatSummary, ChatSummaryView, Message, ServerEntry,
    ServerEntryView, ServerProtocol, User, UserView,
};
use crate::prefs::Preferences;

verus! {

/// The three parts of the interface.
#[derive(Clone, Copy, Debug, PartialEq, Eq, Structural)]
pub enum Section {
    Chats,
    Profiles,
    Settings,
}

/// Whether the core has started, and as which user.
#[derive(Clone, Debug)]
pub enum StartupState {
    Loading,
    NoActiveUser,
    Ready(User),
    Failed(String),
}

/// Which line editor, if any, has the keyboard.
#[derive(Clone, Copy, Debug, PartialEq, Eq, Structural)]
pub enum InputMode {
    Idle,
    CreateProfile,
    ConfirmDeleteProfile,
    AddServer,
    ConnectInvitation,
}

/// A request of the interface itself, from the keyboard or the mouse.
#[derive(Clone, Copy, Debug, PartialEq, Eq, Structural)]
pub enum AppEvent {
    Quit,
    ToggleSection,
    PreviousSection,
    NextSection,
    SelectSection(Section),
    SelectPrevious,
    SelectNext,
    SelectIndex(usize),
}

/// The emoji picker opened on one message.
#[derive(Clone, Debug)]
pub struct ReactionPicker {
    pub chat_ref: ChatRef,
    pub item_id: i64,
    pub column: u16,
    pub row: u16,
}

/// The dialog that shows and changes how long one conversation keeps its messages.
#[derive(Clone, Debug)]
pub struct ChatDeletionDialog {
    pub chat_ref: ChatRef,
    pub settings: Option<ChatDeletionSettings>,
    pub features: Option<ChatFeatures>,
    pub selected: usize,
    pub pending: bool,
    pub error: Option<String>,
}

/// A deletion of a conversation that waits for the user's confirmation.
#[derive(Clone, Debug)]
pub struct ChatDeleteConfirmation {
    pub chat_ref: ChatRef,
    pub chat_name: String,
    pub mode: ChatDeleteMode,
}

/// A cancellation of a download that waits for the user's confirmation.
#[derive(Clone, Debug)]
pub struct DownloadCancelDialog {
    pub file_id: i64,
    pub file_name: String,
}

/// The names of the settings pages, in their order.
pub open spec fn settings_count() -> int {
    7
}

/// What the interface holds: everything but the terminal and the channels to the worker.
pub struct AppState {
    pub running: bool,
    pub section: Section,
    pub selected_chat: usize,
    pub selected_profile: usize,
    pub selected_setting: usize,
    pub startup: StartupState,
    pub chats: Vec<ChatSummary>,
    pub profiles: Vec<User>,
    pub messages: Vec<Message>,
    pub loaded_chat: Option<ChatRef>,
    pub chat_loading: bool,
    pub chat_error: Option<String>,
    pub chat_scroll: usize,
    pub new_messages_below: usize,
    pub composer: String,
    pub composer_focused: bool,
    pub sending: bool,
    pub preferences: Preferences,
    pub auto_delete_seconds: i64,
    pub auto_delete_pending: Option<i64>,
    pub servers: Vec<ServerEntry>,
    pub server_protocol: ServerProtocol,
    pub selected_server: usize,
    pub chat_features: ChatFeatures,
    pub invitation_link: Option<String>,
    pub invitation_loading: bool,
    pub invitation_error: Option<String>,
    pub connection_loading: bool,
    pub connection_error: Option<String>,
    pub input_mode: InputMode,
    pub input: String,
    pub profile_create_pending: bool,
    pub notice: Option<String>,
    pub reaction_picker: Option<ReactionPicker>,
    pub chat_deletion_dialog: Option<ChatDeletionDialog>,
    pub chat_delete_confirmation: Option<ChatDeleteConfirmation>,
    pub download_cancel_dialog: Option<DownloadCancelDialog>,
    pub message_cache: MessageCache,
}

/// The section after `s` in the tab order.
pub open spec fn next_section(s: Section) -> Section {
    match s {
        Section::Chats => Section::Profiles,
        Section::Profiles => Section::Settings,
        Section::Settings => Section::Chats,
    }
}

/// The section before `s` in the tab order.
pub open spec fn previous_section(s: Section) -> Section {
    match s {
        Section::Chats => Section::Settings,
        Section::Profiles => Section::Chats,
        Section::Settings => Section::Profiles,
    }
}

/// Moving to the next section undoes moving to the previous one and the other way round, and
/// three moves in one direction come back to the start.
pub proof fn lemma_section_cycle(s: Section)
    ensures
        next_section(previous_section(s)) == s,
        previous_section(next_section(s)) == s,
        next_section(next_section(next_section(s))) == s,
{
}

/// The index of the last of `n` items, or 0 when there is none.
pub open spec fn last_index(n: int) -> int {
    if n <= 0 {
        0
    } else {
        n - 1
    }
}

/// A selection moved back into a list of `n` items.
pub open spec fn clamped(selected: usize, n: int) -> usize {
    if selected <= last_index(n) {
        selected
    } else {
        last_index(n) as usize
    }
}

pub(crate) fn clamp_selection(selected: usize, n: usize) -> (r: usize)
    ensures
        r == clamped(selected, n as int),
{
    let last = if n == 0 {
        0
    } else {
        n - 1
    };
    if selected <= last {
        selected
    } else {
        last
    }
}

/// Whether an optional conversation is the conversation `k`.
pub open spec fn is_chat(c: Option<ChatRef>, k: Seq<char>) -> bool {
    c matches Some(r) && r.0@ == k
}

pub(crate) fn same_chat(c: &Option<ChatRef>, k: &ChatRef) -> (r: bool)
    ensures
        r == is_chat(*c, k.0@),
{
    match c {
        Some(r) => text_eq(r.0.as_str(), k.0.as_str()),
        None => false,
    }
}

pub(crate) fn copy_ref(k: &ChatRef) -> (r: ChatRef)
    ensures
        r.0@ == k.0@,
{
    ChatRef(k.0.clone())
}

/// `i` is the first conversation of the list that is `k`.
pub open spec fn first_chat(chats: Seq<ChatSummaryView>, k: Seq<char>, i: int) -> bool {
    &&& 0 <= i < chats.len()
    &&& chats[i].chat_ref == k
    &&& forall|j: int| 0 <= j < i ==> (#[trigger] chats[j]).chat_ref != k
}

pub open spec fn lists_chat(chats: Seq<ChatSummaryView>, k: Seq<char>) -> bool {
    exists|j: int| 0 <= j < chats.len() && (#[trigger] chats[j]).chat_ref == k
}

/// Where the first conversation `k` stands in the list.
pub open spec fn chat_index(chats: Seq<ChatSummaryView>, k: Seq<char>) -> int {
    choose|i: int| first_chat(chats, k, i)
}

/// A listed conversation has a first position in the list.
pub proof fn lemma_chat_index_exists(chats: Seq<ChatSummaryView>, k: Seq<char>, w: int)
    requires
        0 <= w < chats.len(),
        chats[w].chat_ref == k,
    ensures
        first_chat(chats, k, chat_index(chats, k)),
    decreases w,
{
    if exists|j: int| 0 <= j < w && (#[trigger] chats[j]).chat_ref == k {
        let j = choose|j: int| 0 <= j < w && (#[trigger] chats[j]).chat_ref == k;
        lemma_chat_index_exists(chats, k, j);
    } else {
        lemma_chat_index(chats, k, w);
    }
}

proof fn lemma_chat_index(chats: Seq<ChatSummaryView>, k: Seq<char>, i: int)
    requires
        first_chat(chats, k, i),
    ensures
        chat_index(chats, k) == i,
        lists_chat(chats, k),
{
    let j = chat_index(chats, k);
    assert(first_chat(chats, k, j));
    if j < i {
        assert(chats[j].chat_ref != k);
    } else if i < j {
        assert(chats[i].chat_ref != k);
    }
}

pub(crate) fn find_chat(chats: &Vec<ChatSummary>, k: &ChatRef) -> (r: Option<usize>)
    ensures
        match r {
            Some(i) => first_chat(chats.deep_view(), k.0@, i as int) && chat_index(
                chats.deep_view(),
                k.0@,
            ) == i,
            None => !lists_chat(chats.deep_view(), k.0@),
        },
{
    let ghost s = chats.deep_view();
    let mut i: usize = 0;
    while i < chats.len()
        invariant
            i <= chats@.len(),
            s == chats.deep_view(),
            s.len() == chats@.len(),
            forall|j: int| 0 <= j < i ==> (#[trigger] s[j]).chat_ref != k.0@,
        decreases chats.len() - i,
    {
        if text_eq(chats[i].chat_ref.0.as_str(), k.0.as_str()) {
            proof {
                lemma_chat_index(s, k.0@, i as int);
            }
            return Some(i);
        }
        i = i + 1;
    }
    None
}

/// The position of conversation `k` in the list, or the first line when it is not listed.
pub open spec fn position_or_first(chats: Seq<ChatSummaryView>, k: Seq<char>) -> int {
    if lists_chat(chats, k) {
        chat_index(chats, k)
    } else {
        0
    }
}

/// The list with the unread count of the first conversation `k` set by `f`.
pub open spec fn unread_set(
    chats: Seq<ChatSummaryView>,
    k: Seq<char>,
    f: spec_fn(u64) -> u64,
) -> Seq<ChatSummaryView> {
    if lists_chat(chats, k) {
        let i = chat_index(chats, k);
        chats.update(i, ChatSummaryView { unread_count: f(chats[i].unread_count), ..chats[i] })
    } else {
        chats
    }
}

/// The first profile marked active.
pub open spec fn first_active(profiles: Seq<UserView>, i: int) -> bool {
    &&& 0 <= i < profiles.len()
    &&& profiles[i].active
    &&& forall|j: int| 0 <= j < i ==> !(#[trigger] profiles[j]).active
}

pub open spec fn has_active(profiles: Seq<UserView>) -> bool {
    exists|j: int| 0 <= j < profiles.len() && (#[trigger] profiles[j]).active
}

/// The profile that the Profiles list selects once the list changed: the active one, else the
/// old selection moved back into the list.
pub open spec fn synced_profile(profiles: Seq<UserView>, selected: usize) -> usize {
    if has_active(profiles) {
        (choose|i: int| first_active(profiles, i)) as usize
    } else {
        clamped(selected, profiles.len() as int)
    }
}

/// How many servers of `protocol` the list holds.
pub open spec fn servers_of(servers: Seq<ServerEntryView>, protocol: ServerProtocol) -> int
    decreases servers.len(),
{
    if servers.len() == 0 {
        0
    } else {
        servers_of(servers.drop_last(), protocol) + if servers.last().protocol == protocol {
            1int
        } else {
            0int
        }
    }
}

impl AppState {
    /// The user that the core runs as, once it is ready.
    pub open spec fn active_user_of(self) -> Option<User> {
        match self.startup {
            StartupState::Ready(u) => Some(u),
            _ => None,
        }
    }

    /// How many lines the current section lists: the conversations and, with an active user,
    /// the line for a new contact; the profiles and the line for a new one; or the settings.
    pub open spec fn item_total(self) -> int {
        match self.section {
            Section::Chats => self.chats@.len() + if self.active_user_of() is Some {
                1int
            } else {
                0int
            },
            Section::Profiles => if self.profiles@.len() == usize::MAX {
                usize::MAX as int
            } else {
                self.profiles@.len() + 1int
            },
            Section::Settings => settings_count(),
        }
    }

    /// The selected line of the current section.
    pub open spec fn selected_index(self) -> usize {
        match self.section {
            Section::Chats => self.selected_chat,
            Section::Profiles => self.selected_profile,
            Section::Settings => self.selected_setting,
        }
    }

    /// The state with the current section's selection at `i`.
    pub open spec fn with_selected(self, i: usize) -> AppState {
        match self.section {
            Section::Chats => AppState { selected_chat: i, ..self },
            Section::Profiles => AppState { selected_profile: i, ..self },
            Section::Settings => AppState { selected_setting: i, ..self },
        }
    }

    /// The conversation that the Chats list selects, if the selection is on one.
    pub open spec fn selected_ref(self) -> Option<Seq<char>> {
        if self.selected_chat < self.chats@.len() {
            Some(self.chats@[self.selected_chat as int].chat_ref.0@)
        } else {
            None
        }
    }

    /// The state of a freshly started interface.
    pub fn new(preferences: Preferences) -> (r: AppState)
        ensures
            r.running,
            r.section == Section::Chats,
            r.selected_chat == 0 && r.selected_profile == 0 && r.selected_setting == 0,
            r.startup is Loading,
            r.chats@.len() == 0 && r.profiles@.len() == 0 && r.messages@.len() == 0,
            r.loaded_chat is None && !r.chat_loading && r.chat_error is None,
            r.chat_scroll == 0 && r.new_messages_below == 0,
            r.composer@.len() == 0 && !r.composer_focused && !r.sending,
            r.preferences == preferences,
            r.auto_delete_seconds == 0 && r.auto_delete_pending is None,
            r.servers@.len() == 0 && r.server_protocol == ServerProtocol::Smp && r.selected_server
                == 0,
            r.chat_features == (ChatFeatures {
                disappearing_messages: false,
                full_deletion: false,
                reactions: false,
                voice_messages: false,
                files_and_media: false,
            }),
            r.invitation_link is None && !r.invitation_loading && r.invitation_error is None,
            !r.connection_loading && r.connection_error is None,
            r.input_mode == InputMode::Idle && r.input@.len() == 0,
            !r.profile_create_pending && r.notice is None,
            r.reaction_picker is None && r.chat_deletion_dialog is None,
            r.chat_delete_confirmation is None && r.download_cancel_dialog is None,
            r.message_cache.view() == Map::<Seq<char>, Seq<crate::model::MessageView>>::empty(),
    {
        AppState {
            running: true,
            section: Section::Chats,
            selected_chat: 0,
            selected_profile: 0,
            selected_setting: 0,
            startup: StartupState::Loading,
            chats: Vec::new(),
            profiles: Vec::new(),
            messages: Vec::new(),
            loaded_chat: None,
            chat_loading: false,
            chat_error: None,
            chat_scroll: 0,
            new_messages_below: 0,
            composer: String::new(),
            composer_focused: false,
            sending: false,
            preferences,
            auto_delete_seconds: 0,
            auto_delete_pending: None,
            servers: Vec::new(),
            server_protocol: ServerProtocol::Smp,
            selected_server: 0,
            chat_features: ChatFeatures::default(),
            invitation_link: None,
            invitation_loading: false,
            invitation_error: None,
            connection_loading: false,
            connection_error: None,
            input_mode: InputMode::Idle,
            input: String::new(),
            profile_create_pending: false,
            notice: None,
            reaction_picker: None,
            chat_deletion_dialog: None,
            chat_delete_confirmation: None,
            download_cancel_dialog: None,
            message_cache: MessageCache::new(),
        }
    }

    /// The active user, once the core is ready.
    pub fn active_user(&self) -> (r: Option<&User>)
        ensures
            match r {
                Some(u) => self.active_user_of() == Some(*u),
                None => self.active_user_of() is None,
            },
    {
        match &self.startup {
            StartupState::Ready(u) => Some(u),
            _ => None,
        }
    }

    /// The conversation that the Chats list selects.
    pub fn selected_chat_ref(&self) -> (r: Option<&ChatRef>)
        ensures
            match r {
                Some(k) => self.selected_ref() == Some(k.0@),
                None => self.selected_ref() is None,
            },
    {
        if self.selected_chat < self.chats.len() {
            Some(&self.chats[self.selected_chat].chat_ref)
        } else {
            None
        }
    }

    /// How many lines the current section lists.
    pub fn item_count(&self) -> (r: usize)
        requires
            self.chats@.len() < usize::MAX,
        ensures
            r == self.item_total(),
    {
        match self.section {
            Section::Chats => self.chats.len() + if self.active_user().is_some() {
                1
            } else {
                0
            },
            Section::Profiles => if self.profiles.len() == usize::MAX {
                usize::MAX
            } else {
                self.profiles.len() + 1
            },
            Section::Settings => 7,
        }
    }

    /// How many servers of the chosen protocol the Servers page lists.
    pub fn visible_server_count(&self) -> (r: usize)
        ensures
            r == servers_of(self.servers.deep_view(), self.server_protocol),
    {
        let ghost s = self.servers.deep_view();
        let mut n: usize = 0;
        let mut i: usize = 0;
        assert(s.take(0) =~= Seq::<ServerEntryView>::empty());
        while i < self.servers.len()
            invariant
                i <= self.servers@.len(),
                s == self.servers.deep_view(),
                s.len() == self.servers@.len(),
                n == servers_of(s.take(i as int), self.server_protocol),
                n <= i,
            decreases self.servers.len() - i,
        {
            assert(s.take(i + 1).drop_last() =~= s.take(i as int));
            if self.servers[i].protocol == self.server_protocol {
                n = n + 1;
            }
            i = i + 1;
        }
        assert(s.take(self.servers@.len() as int) =~= s);
        n
    }

    /// Selects the active profile, or keeps the selection inside the list.
    pub fn sync_selected_profile(&mut self)
        ensures
            *final(self) == (AppState {
                selected_profile: synced_profile(old(self).profiles.deep_view(), old(self).selected_profile),
                ..*old(self)
            }),
    {
        let ghost ps = self.profiles.deep_view();
        let mut i: usize = 0;
        while i < self.profiles.len()
            invariant
                i <= self.profiles@.len(),
                ps == self.profiles.deep_view(),
                ps.len() == self.profiles@.len(),
                *self == *old(self),
                forall|j: int| 0 <= j < i ==> !(#[trigger] ps[j]).active,
            decreases self.profiles.len() - i,
        {
            if self.profiles[i].active {
                proof {
                    assert(first_active(ps, i as int));
                    let c = choose|c: int| first_active(ps, c);
                    assert(first_active(ps, c));
                    if c < i {
                        assert(!ps[c].active);
                    } else if i < c {
                        assert(!ps[i as int].active);
                    }
                }
                self.selected_profile = i;
                return ;
            }
            i = i + 1;
        }
        self.selected_profile = clamp_selection(self.selected_profile, self.profiles.len());
    }

    /// Shows the newest messages.
    pub fn jump_to_latest(&mut self)
        ensures
            *final(self) == (AppState { chat_scroll: 0, new_messages_below: 0, ..*old(self) }),
    {
        self.chat_scroll = 0;
        self.new_messages_below = 0;
    }

    /// Sets the unread count of the conversation at `i`.
    pub(crate) fn set_unread_at(&mut self, i: usize, count: u64)
        requires
            i < old(self).chats@.len(),
        ensures
            final(self).chats.deep_view() == old(self).chats.deep_view().update(
                i as int,
                ChatSummaryView { unread_count: count, ..old(self).chats.deep_view()[i as int] },
            ),
            *final(self) == (AppState { chats: final(self).chats, ..*old(self) }),
    {
        let ghost before = self.chats.deep_view();
        let mut c = self.chats.remove(i);
        c.unread_count = count;
        let ghost cv = c.deep_view();
        self.chats.insert(i, c);
        assert(self.chats.deep_view() =~= before.update(i as int, cv));
    }

    fn set_selected(&mut self, i: usize)
        ensures
            *final(self) == old(self).with_selected(i),
    {
        match self.section {
            Section::Chats => self.selected_chat = i,
            Section::Profiles => self.selected_profile = i,
            Section::Settings => self.selected_setting = i,
        }
    }

    fn selected_now(&self) -> (r: usize)
        ensures
            r == self.selected_index(),
    {
        match self.section {
            Section::Chats => self.selected_chat,
            Section::Profiles => self.selected_profile,
            Section::Settings => self.selected_setting,
        }
    }

    fn apply_move(&mut self, event: AppEvent)
        requires
            event is SelectNext ==> old(self).selected_index() < usize::MAX,
            old(self).chats@.len() < usize::MAX,
        ensures
            *final(self) == moved(*old(self), event),
    {
        match event {
            AppEvent::Quit => self.running = false,
            AppEvent::ToggleSection | AppEvent::NextSection => {
                self.section = match self.section {
                    Section::Chats => Section::Profiles,
                    Section::Profiles => Section::Settings,
                    Section::Settings => Section::Chats,
                };
            },
            AppEvent::PreviousSection => {
                self.section = match self.section {
                    Section::Chats => Section::Settings,
                    Section::Profiles => Section::Chats,
                    Section::Settings => Section::Profiles,
                };
            },
            AppEvent::SelectSection(section) => self.section = section,
            AppEvent::SelectPrevious => {
                let current = self.selected_now();
                let i = if current == 0 {
                    0
                } else {
                    current - 1
                };
                self.set_selected(i);
            },
            AppEvent::SelectNext => {
                let count = self.item_count();
                let max = if count == 0 {
                    0
                } else {
                    count - 1
                };
                let current = self.selected_now();
                let i = if current + 1 <= max {
                    current + 1
                } else {
                    max
                };
                self.set_selected(i);
            },
            AppEvent::SelectIndex(index) => {
                if index < self.item_count() {
                    self.set_selected(index);
                }
            },
        }
    }

    fn settle_input(&mut self, previous_section: Section, select_index: bool)
        ensures
            *final(self) == (AppState {
                input_mode: final(self).input_mode,
                input: final(self).input,
                ..*old(self)
            }),
            input_settled(*old(self), previous_section, select_index, *final(self)),
    {
        let section_changed = previous_section != self.section;
        let editing = match self.input_mode {
            InputMode::CreateProfile | InputMode::AddServer | InputMode::ConnectInvitation => true,
            _ => false,
        };
        if self.section == Section::Profiles && self.selected_profile >= self.profiles.len() && (
        section_changed || select_index) {
            self.input_mode = InputMode::CreateProfile;
            self.input = String::new();
        } else if section_changed && editing {
            self.input_mode = InputMode::Idle;
            self.input = String::new();
        }
    }

    fn settle_chat(&mut self, previous_section: Section, previous_chat: &Option<ChatRef>)
        ensures
            *final(self) == (AppState {
                chat_scroll: final(self).chat_scroll,
                new_messages_below: final(self).new_messages_below,
                loaded_chat: final(self).loaded_chat,
                messages: final(self).messages,
                chat_loading: final(self).chat_loading,
                chat_error: final(self).chat_error,
                reaction_picker: final(self).reaction_picker,
                ..*old(self)
            }),
            chat_settled(
                *old(self),
                previous_section,
                match previous_chat {
                    Some(k) => Some(k.0@),
                    None => None,
                },
                *final(self),
            ),
    {
        let chat_changed = match (previous_chat, self.selected_chat_ref()) {
            (Some(a), Some(b)) => !text_eq(a.0.as_str(), b.0.as_str()),
            (None, None) => false,
            _ => true,
        };
        if self.section == Section::Chats && (previous_section != Section::Chats || chat_changed) {
            self.jump_to_latest();
            self.loaded_chat = None;
            self.messages = Vec::new();
            self.chat_loading = false;
            self.chat_error = None;
            self.reaction_picker = None;
        }
    }

    /// Handles a request of the interface itself: quitting, moving between sections, and moving
    /// the selection.
    pub fn handle_app_event(&mut self, event: AppEvent)
        requires
            event is SelectNext ==> old(self).selected_index() < usize::MAX,
            old(self).chats@.len() < usize::MAX,
        ensures
            navigated(*old(self), event, *final(self)),
    {
        let previous_section = self.section;
        let previous_chat = match self.selected_chat_ref() {
            Some(k) => Some(copy_ref(k)),
            None => None,
        };
        self.apply_move(event);
        let select_index = match event {
            AppEvent::SelectIndex(_) => true,
            _ => false,
        };
        self.settle_input(previous_section, select_index);
        self.settle_chat(previous_section, &previous_chat);
    }

    /// Loads the selected conversation when it is not loaded yet, or marks it read when it is
    /// shown from its newest message; says what the worker must be asked.
    pub fn follow_selection(&mut self) -> (r: Option<SimplexCommand>)
        ensures
            followed(*old(self), *final(self), r),
    {
        if self.section != Section::Chats {
            return None;
        }
        let chat_ref = match self.selected_chat_ref() {
            Some(k) => copy_ref(k),
            None => return None,
        };
        if !same_chat(&self.loaded_chat, &chat_ref) {
            self.loaded_chat = Some(copy_ref(&chat_ref));
            self.messages = Vec::new();
            self.chat_loading = true;
            self.chat_error = None;
            Some(SimplexCommand::LoadChat(chat_ref))
        } else if !self.chat_loading && self.chat_error.is_none() && self.chat_scroll == 0 {
            let i = self.selected_chat;
            if self.chats[i].unread_count > 0 {
                self.set_unread_at(i, 0);
                Some(SimplexCommand::MarkChatRead(chat_ref))
            } else {
                None
            }
        } else {
            None
        }
    }
}

/// The state right after an interface request, before what a change of section or conversation
/// resets.
pub open spec fn moved(old: AppState, e: AppEvent) -> AppState {
    match e {
        AppEvent::Quit => AppState { running: false, ..old },
        AppEvent::ToggleSection => AppState { section: next_section(old.section), ..old },
        AppEvent::NextSection => AppState { section: next_section(old.section), ..old },
        AppEvent::PreviousSection => AppState { section: previous_section(old.section), ..old },
        AppEvent::SelectSection(s) => AppState { section: s, ..old },
        AppEvent::SelectPrevious => old.with_selected(
            if old.selected_index() == 0 {
                0
            } else {
                (old.selected_index() - 1) as usize
            },
        ),
        AppEvent::SelectNext => old.with_selected(
            if old.selected_index() + 1 <= last_index(old.item_total()) {
                (old.selected_index() + 1) as usize
            } else {
                last_index(old.item_total()) as usize
            },
        ),
        AppEvent::SelectIndex(i) => if i < old.item_total() {
            old.with_selected(i)
        } else {
            old
        },
    }
}

/// Line editors that leaving their section closes.
pub open spec fn edits_a_line(m: InputMode) -> bool {
    m == InputMode::CreateProfile || m == InputMode::AddServer || m == InputMode::ConnectInvitation
}

/// What an interface request does: `moved`, then a change of section closes a line editor, the
/// line for a new profile opens its editor when it gets selected, and a change to another
/// conversation (or back to the Chats section) unloads the shown one.
pub open spec fn navigated(old: AppState, e: AppEvent, new: AppState) -> bool {
    settled(moved(old, e), old.section, old.selected_ref(), e is SelectIndex, new)
}

/// What follows a move from `previous_section`, where `previous_chat` was selected, to the
/// state `m`.
pub open spec fn settled(
    m: AppState,
    previous_section: Section,
    previous_chat: Option<Seq<char>>,
    select_index: bool,
    new: AppState,
) -> bool {
    &&& new == AppState {
        input_mode: new.input_mode,
        input: new.input,
        chat_scroll: new.chat_scroll,
        new_messages_below: new.new_messages_below,
        loaded_chat: new.loaded_chat,
        messages: new.messages,
        chat_loading: new.chat_loading,
        chat_error: new.chat_error,
        reaction_picker: new.reaction_picker,
        ..m
    }
    &&& input_settled(m, previous_section, select_index, new)
    &&& chat_settled(m, previous_section, previous_chat, new)
}

/// The line editor after a move to `m`: the line for a new profile opens its editor when it gets
/// selected, and leaving a section closes an editor of a line.
pub open spec fn input_settled(m: AppState, previous_section: Section, select_index: bool, new: AppState) -> bool {
    let section_changed = previous_section != m.section;
    if m.section == Section::Profiles && m.selected_profile >= m.profiles@.len() && (
    section_changed || select_index) {
        new.input_mode == InputMode::CreateProfile && new.input@.len() == 0
    } else if section_changed && edits_a_line(m.input_mode) {
        new.input_mode == InputMode::Idle && new.input@.len() == 0
    } else {
        new.input_mode == m.input_mode && new.input == m.input
    }
}

/// The shown conversation after a move to `m`: coming to the Chats section, or selecting
/// another conversation, unloads it and shows the newest messages.
pub open spec fn chat_settled(
    m: AppState,
    previous_section: Section,
    previous_chat: Option<Seq<char>>,
    new: AppState,
) -> bool {
    if m.section == Section::Chats && (previous_section != Section::Chats || previous_chat
        != m.selected_ref()) {
        &&& new.chat_scroll == 0 && new.new_messages_below == 0
        &&& new.loaded_chat is None && new.messages@.len() == 0
        &&& !new.chat_loading && new.chat_error is None && new.reaction_picker is None
    } else {
        &&& new.chat_scroll == m.chat_scroll && new.new_messages_below == m.new_messages_below
        &&& new.loaded_chat == m.loaded_chat && new.messages == m.messages
        &&& new.chat_loading == m.chat_loading && new.chat_error == m.chat_error
        &&& new.reaction_picker == m.reaction_picker
    }
}

/// What following the selection does (see `follow_selection`).
pub open spec fn followed(old: AppState, new: AppState, cmd: Option<SimplexCommand>) -> bool {
    if old.section == Section::Chats && old.selected_ref() is Some {
        let k = old.selected_ref()->0;
        let i = old.selected_chat as int;
        if !is_chat(old.loaded_chat, k) {
            &&& new == AppState {
                loaded_chat: new.loaded_chat,
                messages: new.messages,
                chat_loading: true,
                chat_error: None,
                ..old
            }
            &&& is_chat(new.loaded_chat, k)
            &&& new.messages@.len() == 0
            &&& cmd matches Some(SimplexCommand::LoadChat(r)) && r.0@ == k
        } else if !old.chat_loading && old.chat_error is None && old.chat_scroll == 0
            && old.chats@[i].unread_count > 0 {
            &&& new == AppState { chats: new.chats, ..old }
            &&& new.chats.deep_view() == old.chats.deep_view().update(
                i,
                ChatSummaryView { unread_count: 0, ..old.chats.deep_view()[i] },
            )
            &&& cmd matches Some(SimplexCommand::MarkChatRead(r)) && r.0@ == k
        } else {
            new == old && cmd is None
        }
    } else {
        new == old && cmd is None
    }
}

/// Moving the selection up, down or to a line keeps it on a line of the list.
pub proof fn lemma_selection_stays_in_list(old: AppState, e: AppEvent, new: AppState)
    requires
        navigated(old, e, new),
        e is SelectPrevious || e is SelectNext || e is SelectIndex,
        old.selected_index() < old.item_total(),
    ensures
        new.section == old.section,
        new.item_total() == old.item_total(),
        new.selected_index() < new.item_total(),
{
}

/// Every section request other than choosing a line leaves the selections alone.
pub proof fn lemma_section_moves_keep_selections(old: AppState, e: AppEvent, new: AppState)
    requires
        navigated(old, e, new),
        e is ToggleSection || e is NextSection || e is PreviousSection || e is SelectSection,
    ensures
        new.selected_chat == old.selected_chat,
        new.selected_profile == old.selected_profile,
        new.selected_setting == old.selected_setting,
{
}

/// Moving the selection touches only the current section's selection and keeps it on the
/// list: up moves one line up and stops at the first, down moves one line down and stops at the
/// last, and choosing a line moves there when that line exists and otherwise does nothing.
pub proof fn lemma_navigation(old: AppState, e: AppEvent, new: AppState)
    requires
        navigated(old, e, new),
        e is SelectPrevious || e is SelectNext || e is SelectIndex,
        old.selected_index() <= last_index(old.item_total()),
    ensures
        new.section == old.section,
        new.item_total() == old.item_total(),
        new.selected_index() <= last_index(new.item_total()),
        old.section != Section::Chats ==> new.selected_chat == old.selected_chat,
        old.section != Section::Profiles ==> new.selected_profile == old.selected_profile,
        old.section != Section::Settings ==> new.selected_setting == old.selected_setting,
        e is SelectPrevious ==> new.selected_index() == if old.selected_index() == 0 {
            0
        } else {
            old.selected_index() - 1
        },
        e is SelectNext ==> new.selected_index() == if old.selected_index() + 1 <= last_index(
            old.item_total(),
        ) {
            old.selected_index() + 1
        } else {
            last_index(old.item_total())
        },
        e matches AppEvent::SelectIndex(k) ==> new.selected_index() == if k < old.item_total() {
            k
        } else {
            old.selected_index()
        },
{
    assert(old.chats@.len() == old.chats.len());
    assert(old.profiles@.len() == old.profiles.len());
    let m = moved(old, e);
    assert(0 <= last_index(old.item_total()) <= usize::MAX);
    assert(m.section == old.section && m.item_total() == old.item_total());
    assert(new.selected_chat == m.selected_chat && new.selected_profile == m.selected_profile
        && new.selected_setting == m.selected_setting && new.section == m.section);
}

} // verus!
