use vstd::prelude::*;

use crate::client::{ChatDeleteMode, ChatFeature};
use crate::model::{ChatRef, ServerProtocol};

verus! {

/// What the interface asks the SimpleX worker to do.
#[derive(Debug)]
pub enum SimplexCommand {
    LoadChat(ChatRef),
    MarkChatRead(ChatRef),
    SendMessage { chat_ref: ChatRef, text: String },
    SendReaction { chat_ref: ChatRef, item_id: i64, emoji: String },
    ReceiveFile { file_id: i64, file_name: String },
    CancelFile { file_id: i64 },
    ActivateProfile(i64),
    CreateProfile(String),
    DeleteProfile(i64),
    SetAutoDelete { user_id: i64, seconds: i64 },
    LoadChatDeletion { chat_ref: ChatRef },
    SetChatDeletion { user_id: i64, chat_ref: ChatRef, seconds: Option<i64> },
    LoadConversationFeatures { chat_ref: ChatRef },
    SetConversationFeature { chat_ref: ChatRef, feature: ChatFeature, enabled: bool },
    DeleteChat { user_id: i64, chat_ref: ChatRef, mode: ChatDeleteMode },
    CreateInvitation { user_id: i64 },
    ConnectInvitation { user_id: i64, link: String },
    SetChatFeature { user_id: i64, feature: ChatFeature, enabled: bool },
    SetServerEnabled { user_id: i64, protocol: ServerProtocol, address: String, enabled: bool },
    AddServer { user_id: i64, protocol: ServerProtocol, address: String },
}

} // verus!
