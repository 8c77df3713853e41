//! The process-wide state every handler works against, assembled and
//! injected by the embedding program.

use vstd::prelude::*;

use crate::conversation::ConversationManager;
use crate::kvcache::KvCache;
use crate::repo::{GradeStore, StudentStore};
use crate::{GroupData, UserData};

verus! {

/// Mathematical image of [`BotSettings`].
pub ghost struct BotSettingsView {
    pub cmd_suffix: Seq<char>,
    pub default_model: Seq<char>,
    pub system_prompt: Seq<char>,
    pub admins: Seq<i64>,
    pub auto_capture_group_messages: bool,
    pub history_limit: usize,
}

/// Immutable process configuration.
#[derive(Clone, Debug)]
pub struct BotSettings {
    /// The prefix that marks a scripted command, usually a slash.
    pub cmd_suffix: String,
    /// Model used when no record names one.
    pub default_model: String,
    /// System prompt used when no record carries a custom one.
    pub system_prompt: String,
    /// User ids with elevated permission.
    pub admins: Vec<i64>,
    /// Whether unaddressed group chatter is recorded as context.
    pub auto_capture_group_messages: bool,
    /// How many recent turns an outbound completion request carries.
    pub history_limit: usize,
}

impl View for BotSettings {
    type V = BotSettingsView;

    open spec fn view(&self) -> BotSettingsView {
        BotSettingsView {
            cmd_suffix: self.cmd_suffix@,
            default_model: self.default_model@,
            system_prompt: self.system_prompt@,
            admins: self.admins@,
            auto_capture_group_messages: self.auto_capture_group_messages,
            history_limit: self.history_limit,
        }
    }
}

/// Everything the routing and command layers read and write: the session
/// store, both configuration caches, the record stores, and the process
/// settings.
pub struct BotState {
    pub conversations: ConversationManager,
    pub users: KvCache<UserData>,
    pub groups: KvCache<GroupData>,
    pub students: StudentStore,
    pub grades: GradeStore,
    pub settings: BotSettings,
}

impl BotState {
    pub open spec fn inv(&self) -> bool {
        &&& self.conversations.inv()
        &&& self.users.inv()
        &&& self.groups.inv()
        &&& self.students.inv()
    }
}

} // verus!
