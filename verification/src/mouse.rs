use vstd::prelude::*;

use crate::actions::{
    chat_deletion_requested, chat_setting_activated, download_cancel_requested, message_sent_by_user,
    profile_deletion_requested,
    scrolled_down, scrolled_up,
};
use crate::command::SimplexCommand;
use crate::messages::{has_id, index_of_id};
use crate::state::{navigated, AppEvent, AppState, ChatDeletionDialog, InputMode, ReactionPicker, Section};

verus! {

/// A rectangle of the terminal, in cells.
#[derive(Clone, Copy, Debug, PartialEq, Eq, Structural)]
pub struct Rect {
    pub x: u16,
    pub y: u16,
    pub width: u16,
    pub height: u16,
}

/// The cell (`column`, `row`) lies in the rectangle; its right and bottom edges stop at the
/// terminal's largest coordinate.
pub open spec fn inside(r: Rect, column: u16, row: u16) -> bool {
    &&& r.x <= column
    &&& column < if r.x + r.width > u16::MAX {
        u16::MAX as int
    } else {
        r.x + r.width
    }
    &&& r.y <= row
    &&& row < if r.y + r.height > u16::MAX {
        u16::MAX as int
    } else {
        r.y + r.height
    }
}

pub fn contains(r: Rect, column: u16, row: u16) -> (b: bool)
    ensures
        b == inside(r, column, row),
{
    let right: u16 = if r.x as u32 + r.width as u32 > u16::MAX as u32 {
        u16::MAX
    } else {
        r.x + r.width
    };
    let bottom: u16 = if r.y as u32 + r.height as u32 > u16::MAX as u32 {
        u16::MAX
    } else {
        r.y + r.height
    };
    r.x <= column && column < right && r.y <= row && row < bottom
}

/// Where the last drawing put what the mouse can hit.
pub struct HitAreas {
    pub area: Rect,
    pub composer: Rect,
    pub send: Rect,
    pub jump_to_latest: Rect,
    pub delete_cancel: Rect,
    pub delete_ok: Rect,
    /// The button that dismisses the question whether to delete a conversation.
    pub chat_deletion_close: Rect,
    /// The button that confirms the deletion of a conversation.
    pub chat_deletion_change: Rect,
    pub download_cancel_no: Rect,
    pub download_cancel_yes: Rect,
    /// The messages shown, each with its place, in drawing order.
    pub messages: Vec<(Rect, i64)>,
    /// The emoji of the open picker, each with its place.
    pub reactions: Vec<(Rect, String)>,
    /// The rows of the open conversation-settings dialog, each with its place and index.
    pub chat_settings: Vec<(Rect, usize)>,
}

/// What the mouse did.
#[derive(Clone, Copy, Debug, PartialEq, Eq, Structural)]
pub enum MouseKind {
    LeftDown,
    RightDown,
    OtherDown,
    ScrollUp,
    ScrollDown,
    Other,
}

/// What a mouse event asks for.
#[derive(Clone, Copy, Debug, PartialEq, Eq, Structural)]
pub enum MouseAction {
    Nothing,
    ConfirmCancelDownload,
    DismissCancelDownload,
    ConfirmChatDelete,
    DismissChatDelete,
    ChooseChatSetting(usize),
    React(usize),
    ClosePicker,
    OpenPicker(i64),
    ConfirmDeleteProfile,
    CancelDeleteProfile,
    Download(i64),
    JumpToLatest,
    Send,
    FocusComposer,
    ScrollChatUp,
    ScrollChatDown,
    Navigate(AppEvent),
}

/// The first of the rectangles, in order, that holds the cell.
pub open spec fn first_hit<T>(boxes: Seq<(Rect, T)>, column: u16, row: u16, i: int) -> bool {
    &&& 0 <= i < boxes.len()
    &&& inside(boxes[i].0, column, row)
    &&& forall|k: int| 0 <= k < i ==> !inside(#[trigger] boxes[k].0, column, row)
}

/// The last of the rectangles, in order, that holds the cell: the one drawn on top.
pub open spec fn last_hit<T>(boxes: Seq<(Rect, T)>, column: u16, row: u16, i: int) -> bool {
    &&& 0 <= i < boxes.len()
    &&& inside(boxes[i].0, column, row)
    &&& forall|k: int| i < k < boxes.len() ==> !inside(#[trigger] boxes[k].0, column, row)
}

pub open spec fn any_hit<T>(boxes: Seq<(Rect, T)>, column: u16, row: u16) -> bool {
    exists|k: int| 0 <= k < boxes.len() && inside(#[trigger] boxes[k].0, column, row)
}

/// The message under the cell, if any.
pub open spec fn message_at(a: HitAreas, column: u16, row: u16) -> Option<i64> {
    if any_hit(a.messages@, column, row) {
        Some(a.messages@[choose|i: int| last_hit(a.messages@, column, row, i)].1)
    } else {
        None
    }
}

/// The emoji option under the cell, if any.
pub open spec fn reaction_at(a: HitAreas, column: u16, row: u16) -> Option<int> {
    if any_hit(a.reactions@, column, row) {
        Some(choose|i: int| first_hit(a.reactions@, column, row, i))
    } else {
        None
    }
}

/// The row of the conversation-settings dialog under the cell, if any.
pub open spec fn setting_at(a: HitAreas, column: u16, row: u16) -> Option<int> {
    if any_hit(a.chat_settings@, column, row) {
        Some(choose|i: int| first_hit(a.chat_settings@, column, row, i))
    } else {
        None
    }
}

/// Whether clicking message `id` acts on a file: it is shown, received, and has one.
pub open spec fn downloadable(s: AppState, id: i64) -> bool {
    let ms = s.messages.deep_view();
    has_id(ms, id) && !ms[index_of_id(ms, id)].outgoing && ms[index_of_id(ms, id)].attachment
        is Some
}

/// The width of the list on the left: a third of the area, cut down.
pub open spec fn sidebar_end(a: Rect) -> int {
    a.x + (a.width * 32) / 100
}

/// The section whose tab lies at `column`.
pub open spec fn tab_at(a: Rect, column: u16) -> Section {
    let relative = if column >= a.x + 1 {
        column - (a.x + 1)
    } else {
        0
    };
    if relative < 8 {
        Section::Chats
    } else if relative < 19 {
        Section::Profiles
    } else {
        Section::Settings
    }
}

/// What a mouse event asks for, by what the interface shows: the download and deletion dialogs,
/// the emoji picker, a message's picker (right button), the profile deletion question, a
/// message's file, the buttons of the conversation, and the lists on the left.
pub open spec fn mouse_action(s: AppState, a: HitAreas, kind: MouseKind, column: u16, row: u16) -> MouseAction {
    let left = kind == MouseKind::LeftDown;
    if left && s.download_cancel_dialog is Some {
        if inside(a.download_cancel_yes, column, row) {
            MouseAction::ConfirmCancelDownload
        } else if inside(a.download_cancel_no, column, row) {
            MouseAction::DismissCancelDownload
        } else {
            MouseAction::Nothing
        }
    } else if left && s.chat_delete_confirmation is Some {
        if inside(a.chat_deletion_change, column, row) {
            MouseAction::ConfirmChatDelete
        } else if inside(a.chat_deletion_close, column, row) {
            MouseAction::DismissChatDelete
        } else {
            MouseAction::Nothing
        }
    } else if left && s.chat_deletion_dialog is Some {
        match setting_at(a, column, row) {
            Some(i) => MouseAction::ChooseChatSetting(a.chat_settings@[i].1),
            None => MouseAction::Nothing,
        }
    } else if left && s.reaction_picker is Some {
        match reaction_at(a, column, row) {
            Some(i) => MouseAction::React(i as usize),
            None => MouseAction::ClosePicker,
        }
    } else if kind == MouseKind::RightDown {
        match message_at(a, column, row) {
            Some(id) => if s.selected_ref() is Some {
                MouseAction::OpenPicker(id)
            } else {
                MouseAction::ClosePicker
            },
            None => MouseAction::ClosePicker,
        }
    } else if s.input_mode == InputMode::ConfirmDeleteProfile && left {
        if inside(a.delete_ok, column, row) {
            MouseAction::ConfirmDeleteProfile
        } else if inside(a.delete_cancel, column, row) {
            MouseAction::CancelDeleteProfile
        } else {
            MouseAction::Nothing
        }
    } else if left && message_at(a, column, row) is Some && downloadable(
        s,
        message_at(a, column, row)->0,
    ) {
        MouseAction::Download(message_at(a, column, row)->0)
    } else if left && inside(a.jump_to_latest, column, row) {
        MouseAction::JumpToLatest
    } else if left && inside(a.send, column, row) {
        MouseAction::Send
    } else if left && inside(a.composer, column, row) {
        MouseAction::FocusComposer
    } else if s.section == Section::Chats && column >= sidebar_end(a.area) {
        if kind == MouseKind::ScrollUp {
            MouseAction::ScrollChatUp
        } else if kind == MouseKind::ScrollDown {
            MouseAction::ScrollChatDown
        } else {
            MouseAction::Nothing
        }
    } else if column >= sidebar_end(a.area) || row < a.area.y || row >= (if a.area.y + a.area.height
        > u16::MAX {
        u16::MAX as int
    } else {
        a.area.y + a.area.height
    }) {
        MouseAction::Nothing
    } else if left && row == a.area.y + 1 {
        MouseAction::Navigate(AppEvent::SelectSection(tab_at(a.area, column)))
    } else if left && row >= a.area.y + 5 {
        MouseAction::Navigate(AppEvent::SelectIndex((row - a.area.y - 5) as usize))
    } else if kind == MouseKind::ScrollUp {
        MouseAction::Navigate(AppEvent::SelectPrevious)
    } else if kind == MouseKind::ScrollDown {
        MouseAction::Navigate(AppEvent::SelectNext)
    } else {
        MouseAction::Nothing
    }
}

/// A button press outside the composer takes the focus from it.
pub open spec fn unfocused(s: AppState, a: HitAreas, kind: MouseKind, column: u16, row: u16) -> AppState {
    if (kind == MouseKind::LeftDown || kind == MouseKind::RightDown || kind == MouseKind::OtherDown)
        && !inside(a.composer, column, row) {
        AppState { composer_focused: false, ..s }
    } else {
        s
    }
}

/// What performing each mouse action does; `command` is what the worker must be asked.
pub open spec fn mouse_performed(
    old: AppState,
    a: HitAreas,
    m: MouseAction,
    column: u16,
    row: u16,
    max_scroll: usize,
    new: AppState,
    command: Option<SimplexCommand>,
) -> bool {
    match m {
        MouseAction::Nothing => new == old && command is None,
        MouseAction::ConfirmCancelDownload => download_cancel_requested(old, new, command),
        MouseAction::DismissCancelDownload => new == (AppState {
            download_cancel_dialog: None,
            ..old
        }) && command is None,
        MouseAction::ConfirmChatDelete => chat_deletion_requested(old, new, command),
        MouseAction::DismissChatDelete => new == (AppState { chat_delete_confirmation: None, ..old })
            && command is None,
        MouseAction::ChooseChatSetting(i) => old.chat_deletion_dialog matches Some(d)
            && chat_setting_activated(
            AppState { chat_deletion_dialog: Some(ChatDeletionDialog { selected: i, ..d }), ..old },
            new,
            command,
        ),
        MouseAction::React(i) => {
            &&& new == (AppState { reaction_picker: None, ..old })
            &&& i < a.reactions@.len()
            &&& command matches Some(SimplexCommand::SendReaction { chat_ref, item_id, emoji })
                && old.reaction_picker matches Some(p) && chat_ref == p.chat_ref && item_id
                == p.item_id && emoji@ == a.reactions@[i as int].1@
        },
        MouseAction::ClosePicker => new == (AppState { reaction_picker: None, ..old }) && command
            is None,
        MouseAction::OpenPicker(id) => {
            &&& new == (AppState { reaction_picker: new.reaction_picker, ..old })
            &&& new.reaction_picker matches Some(p) && Some(p.chat_ref.0@) == old.selected_ref()
                && p.item_id == id && p.column == column && p.row == row
            &&& command is None
        },
        MouseAction::ConfirmDeleteProfile => profile_deletion_requested(old, new, command),
        MouseAction::CancelDeleteProfile => new == (AppState {
            input_mode: InputMode::Idle,
            ..old
        }) && command is None,
        MouseAction::Download(id) => crate::actions::download_handled(old, id, new, (true, command)),
        MouseAction::JumpToLatest => new == (AppState {
            chat_scroll: 0,
            new_messages_below: 0,
            ..old
        }) && command is None,
        MouseAction::Send => message_sent_by_user(old, new, command),
        MouseAction::FocusComposer => new == (AppState {
            composer_focused: old.selected_chat < old.chats@.len(),
            ..old
        })
            && command is None,
        MouseAction::ScrollChatUp => scrolled_up(old, 3, max_scroll, new) && command is None,
        MouseAction::ScrollChatDown => scrolled_down(old, 3, new) && command is None,
        MouseAction::Navigate(e) => navigated(old, e, new) && command is None,
    }
}

/// When some rectangle holds the cell, a first one does.
pub proof fn lemma_first_hit_exists<T>(boxes: Seq<(Rect, T)>, column: u16, row: u16, w: int)
    requires
        0 <= w < boxes.len(),
        inside(boxes[w].0, column, row),
    ensures
        first_hit(boxes, column, row, choose|i: int| first_hit(boxes, column, row, i)),
    decreases w,
{
    if exists|j: int| 0 <= j < w && inside(#[trigger] boxes[j].0, column, row) {
        let j = choose|j: int| 0 <= j < w && inside(#[trigger] boxes[j].0, column, row);
        lemma_first_hit_exists(boxes, column, row, j);
    } else {
        assert(first_hit(boxes, column, row, w));
    }
}

fn message_under(a: &HitAreas, column: u16, row: u16) -> (r: Option<i64>)
    ensures
        r == message_at(*a, column, row),
{
    let ghost boxes = a.messages@;
    let mut i: usize = a.messages.len();
    while i > 0
        invariant
            i <= boxes.len(),
            boxes == a.messages@,
            forall|k: int| i <= k < boxes.len() ==> !inside(#[trigger] boxes[k].0, column, row),
        decreases i,
    {
        let (r, id) = a.messages[i - 1];
        if contains(r, column, row) {
            proof {
                let j = (i - 1) as int;
                assert(last_hit(boxes, column, row, j));
                assert(any_hit(boxes, column, row));
                let c = choose|c: int| last_hit(boxes, column, row, c);
                if c < j {
                    assert(!inside(boxes[j].0, column, row));
                } else if j < c {
                    assert(!inside(boxes[c].0, column, row));
                }
            }
            return Some(id);
        }
        i = i - 1;
    }
    assert(!any_hit(boxes, column, row));
    None
}

fn reaction_under(a: &HitAreas, column: u16, row: u16) -> (r: Option<usize>)
    ensures
        match r {
            Some(i) => reaction_at(*a, column, row) == Some(i as int) && i < a.reactions@.len(),
            None => reaction_at(*a, column, row) is None,
        },
{
    let ghost boxes = a.reactions@;
    let mut i: usize = 0;
    while i < a.reactions.len()
        invariant
            i <= boxes.len(),
            boxes == a.reactions@,
            forall|k: int| 0 <= k < i ==> !inside(#[trigger] boxes[k].0, column, row),
        decreases a.reactions.len() - i,
    {
        if contains(a.reactions[i].0, column, row) {
            proof {
                let j = i as int;
                assert(first_hit(boxes, column, row, j));
                assert(any_hit(boxes, column, row));
                let c = choose|c: int| first_hit(boxes, column, row, c);
                if c < j {
                    assert(!inside(boxes[c].0, column, row));
                } else if j < c {
                    assert(!inside(boxes[j].0, column, row));
                }
            }
            return Some(i);
        }
        i = i + 1;
    }
    assert(!any_hit(boxes, column, row));
    None
}

fn setting_under(a: &HitAreas, column: u16, row: u16) -> (r: Option<usize>)
    ensures
        match r {
            Some(i) => setting_at(*a, column, row) == Some(i as int) && i < a.chat_settings@.len(),
            None => setting_at(*a, column, row) is None,
        },
{
    let ghost boxes = a.chat_settings@;
    let mut i: usize = 0;
    while i < a.chat_settings.len()
        invariant
            i <= boxes.len(),
            boxes == a.chat_settings@,
            forall|k: int| 0 <= k < i ==> !inside(#[trigger] boxes[k].0, column, row),
        decreases a.chat_settings.len() - i,
    {
        if contains(a.chat_settings[i].0, column, row) {
            proof {
                let j = i as int;
                assert(first_hit(boxes, column, row, j));
                assert(any_hit(boxes, column, row));
                let c = choose|c: int| first_hit(boxes, column, row, c);
                if c < j {
                    assert(!inside(boxes[c].0, column, row));
                } else if j < c {
                    assert(!inside(boxes[j].0, column, row));
                }
            }
            return Some(i);
        }
        i = i + 1;
    }
    assert(!any_hit(boxes, column, row));
    None
}

impl AppState {
    fn downloadable_now(&self, id: i64) -> (b: bool)
        ensures
            b == downloadable(*self, id),
    {
        match crate::messages::find_id(&self.messages, id) {
            Some(i) => !self.messages[i].outgoing && self.messages[i].attachment.is_some(),
            None => false,
        }
    }

    /// Which action a mouse event asks for.
    pub fn mouse_action_for(&self, a: &HitAreas, kind: MouseKind, column: u16, row: u16) -> (m: MouseAction)
        requires
            a.area.width * 32 <= u16::MAX,
            sidebar_end(a.area) <= u16::MAX,
            a.area.y + 5 <= u16::MAX,
            a.area.x < u16::MAX,
        ensures
            m == mouse_action(*self, *a, kind, column, row),
    {
        let left = kind == MouseKind::LeftDown;
        if left && self.download_cancel_dialog.is_some() {
            return if contains(a.download_cancel_yes, column, row) {
                MouseAction::ConfirmCancelDownload
            } else if contains(a.download_cancel_no, column, row) {
                MouseAction::DismissCancelDownload
            } else {
                MouseAction::Nothing
            };
        }
        if left && self.chat_delete_confirmation.is_some() {
            return if contains(a.chat_deletion_change, column, row) {
                MouseAction::ConfirmChatDelete
            } else if contains(a.chat_deletion_close, column, row) {
                MouseAction::DismissChatDelete
            } else {
                MouseAction::Nothing
            };
        }
        if left && self.chat_deletion_dialog.is_some() {
            return match setting_under(a, column, row) {
                Some(i) => MouseAction::ChooseChatSetting(a.chat_settings[i].1),
                None => MouseAction::Nothing,
            };
        }
        if left && self.reaction_picker.is_some() {
            return match reaction_under(a, column, row) {
                Some(i) => MouseAction::React(i),
                None => MouseAction::ClosePicker,
            };
        }
        if kind == MouseKind::RightDown {
            return match message_under(a, column, row) {
                Some(id) => if self.selected_chat_ref().is_some() {
                    MouseAction::OpenPicker(id)
                } else {
                    MouseAction::ClosePicker
                },
                None => MouseAction::ClosePicker,
            };
        }
        if self.input_mode == InputMode::ConfirmDeleteProfile && left {
            return if contains(a.delete_ok, column, row) {
                MouseAction::ConfirmDeleteProfile
            } else if contains(a.delete_cancel, column, row) {
                MouseAction::CancelDeleteProfile
            } else {
                MouseAction::Nothing
            };
        }
        if left {
            match message_under(a, column, row) {
                Some(id) => {
                    if self.downloadable_now(id) {
                        return MouseAction::Download(id);
                    }
                },
                None => {},
            }
            if contains(a.jump_to_latest, column, row) {
                return MouseAction::JumpToLatest;
            }
            if contains(a.send, column, row) {
                return MouseAction::Send;
            }
            if contains(a.composer, column, row) {
                return MouseAction::FocusComposer;
            }
        }
        let area = a.area;
        let sidebar = area.x + area.width * 32 / 100;
        if self.section == Section::Chats && column >= sidebar {
            return if kind == MouseKind::ScrollUp {
                MouseAction::ScrollChatUp
            } else if kind == MouseKind::ScrollDown {
                MouseAction::ScrollChatDown
            } else {
                MouseAction::Nothing
            };
        }
        let bottom: u16 = if area.y as u32 + area.height as u32 > u16::MAX as u32 {
            u16::MAX
        } else {
            area.y + area.height
        };
        if column >= sidebar || row < area.y || row >= bottom {
            return MouseAction::Nothing;
        }
        if left && row == area.y + 1 {
            let relative = if column >= area.x + 1 {
                column - (area.x + 1)
            } else {
                0
            };
            let section = if relative < 8 {
                Section::Chats
            } else if relative < 19 {
                Section::Profiles
            } else {
                Section::Settings
            };
            return MouseAction::Navigate(AppEvent::SelectSection(section));
        }
        if left && row >= area.y + 5 {
            return MouseAction::Navigate(AppEvent::SelectIndex((row - area.y - 5) as usize));
        }
        if kind == MouseKind::ScrollUp {
            MouseAction::Navigate(AppEvent::SelectPrevious)
        } else if kind == MouseKind::ScrollDown {
            MouseAction::Navigate(AppEvent::SelectNext)
        } else {
            MouseAction::Nothing
        }
    }

    fn perform_mouse(&mut self, a: &HitAreas, m: MouseAction, column: u16, row: u16, max_scroll: usize) -> (command: Option<SimplexCommand>)
        requires
            m is React ==> m->React_0 < a.reactions@.len() && old(self).reaction_picker is Some,
            m is ChooseChatSetting ==> old(self).chat_deletion_dialog is Some,
            m is OpenPicker ==> old(self).selected_ref() is Some,
            m is Download ==> downloadable(*old(self), m->Download_0),
            m is Navigate ==> old(self).chats@.len() < usize::MAX && (m->Navigate_0 is SelectNext
                ==> old(self).selected_index() < usize::MAX),
        ensures
            mouse_performed(*old(self), *a, m, column, row, max_scroll, *final(self), command),
    {
        match m {
            MouseAction::Nothing => None,
            MouseAction::ConfirmCancelDownload => self.confirm_cancel_download(),
            MouseAction::DismissCancelDownload => {
                self.download_cancel_dialog = None;
                None
            },
            MouseAction::ConfirmChatDelete => self.confirm_chat_delete(),
            MouseAction::DismissChatDelete => {
                self.chat_delete_confirmation = None;
                None
            },
            MouseAction::ChooseChatSetting(i) => {
                match self.chat_deletion_dialog.take() {
                    Some(mut d) => {
                        d.selected = i;
                        self.chat_deletion_dialog = Some(d);
                    },
                    None => {},
                }
                self.activate_chat_setting()
            },
            MouseAction::React(i) => {
                let emoji = a.reactions[i].1.clone();
                self.send_reaction(emoji)
            },
            MouseAction::ClosePicker => {
                self.reaction_picker = None;
                None
            },
            MouseAction::OpenPicker(id) => {
                let chat_ref = match self.selected_chat_ref() {
                    Some(k) => crate::state::copy_ref(k),
                    None => return None,
                };
                self.reaction_picker = Some(ReactionPicker { chat_ref, item_id: id, column, row });
                None
            },
            MouseAction::ConfirmDeleteProfile => self.confirm_delete_profile(),
            MouseAction::CancelDeleteProfile => {
                self.input_mode = InputMode::Idle;
                None
            },
            MouseAction::Download(id) => {
                let (_, command) = self.download_attachment(id);
                command
            },
            MouseAction::JumpToLatest => {
                self.jump_to_latest();
                None
            },
            MouseAction::Send => self.send_message(),
            MouseAction::FocusComposer => {
                self.composer_focused = self.selected_chat < self.chats.len();
                None
            },
            MouseAction::ScrollChatUp => {
                self.scroll_chat_up(3, max_scroll);
                None
            },
            MouseAction::ScrollChatDown => {
                self.scroll_chat_down(3);
                None
            },
            MouseAction::Navigate(e) => {
                self.handle_app_event(e);
                None
            },
        }
    }

    /// Handles a mouse event at (`column`, `row`) over what was last drawn; `max_scroll` is how
    /// far the shown conversation can scroll up. Says what the worker must be asked.
    pub fn handle_mouse(
        &mut self,
        a: &HitAreas,
        kind: MouseKind,
        column: u16,
        row: u16,
        max_scroll: usize,
    ) -> (command: Option<SimplexCommand>)
        requires
            a.area.width * 32 <= u16::MAX,
            sidebar_end(a.area) <= u16::MAX,
            a.area.y + 5 <= u16::MAX,
            a.area.x < u16::MAX,
            old(self).chats@.len() < usize::MAX,
            old(self).selected_chat < usize::MAX,
            old(self).selected_profile < usize::MAX,
            old(self).selected_setting < usize::MAX,
        ensures
            ({
                let s = unfocused(*old(self), *a, kind, column, row);
                mouse_performed(
                    s,
                    *a,
                    mouse_action(s, *a, kind, column, row),
                    column,
                    row,
                    max_scroll,
                    *final(self),
                    command,
                )
            }),
    {
        let down = kind == MouseKind::LeftDown || kind == MouseKind::RightDown || kind
            == MouseKind::OtherDown;
        if down && !contains(a.composer, column, row) {
            self.composer_focused = false;
        }
        let m = self.mouse_action_for(a, kind, column, row);
        proof {
            if m is React {
                let boxes = a.reactions@;
                let w = choose|k: int| 0 <= k < boxes.len() && inside(#[trigger] boxes[k].0, column, row);
                lemma_first_hit_exists(boxes, column, row, w);
            }
        }
        self.perform_mouse(a, m, column, row, max_scroll)
    }
}

/// Destructive requests need an explicit answer by mouse too: a click deletes a conversation,
/// deletes a profile or cancels a download only on the confirming button of that open question.
pub proof fn lemma_destructive_clicks_need_confirmation(
    old: AppState,
    a: HitAreas,
    kind: MouseKind,
    column: u16,
    row: u16,
    max_scroll: usize,
    new: AppState,
    command: Option<SimplexCommand>,
)
    requires
        ({
            let s = unfocused(old, a, kind, column, row);
            mouse_performed(s, a, mouse_action(s, a, kind, column, row), column, row, max_scroll, new, command)
        }),
    ensures
        command matches Some(SimplexCommand::DeleteProfile(_)) ==> old.input_mode
            == InputMode::ConfirmDeleteProfile && inside(a.delete_ok, column, row),
        command matches Some(SimplexCommand::CancelFile { .. }) ==> old.download_cancel_dialog is Some
            && inside(a.download_cancel_yes, column, row),
        command matches Some(SimplexCommand::DeleteChat { .. }) ==> old.chat_delete_confirmation is Some
            && inside(a.chat_deletion_change, column, row),
{
}

} // verus!
