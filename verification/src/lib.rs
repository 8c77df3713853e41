//! Conversation routing and context engine for a chat bot.
//!
//! The crate decides, per inbound message, whether a scripted command or a
//! generative completion answers it, keeps a bounded, time-expiring
//! conversation history per session, normalizes heterogeneous message
//! payloads into one canonical content model, and assembles role-ordered
//! requests for an external completion endpoint.  All state lives in
//! explicitly constructed stores handed in by the embedding program; all
//! timestamps are plain seconds so that the logic itself stays pure.

use vstd::prelude::*;

pub mod error;
pub mod text;
pub mod decimal;
pub mod content;
pub mod store;
pub mod session;
pub mod conversation;
pub mod kvcache;
pub mod resolver;
pub mod permission;
pub mod repo;
pub mod state;
pub mod cmd;
pub mod reply_strategy;
pub mod llm;
pub mod reply_manager;
pub mod app_config;

verus! {

/// Identifies a conversation scope: one user's private thread, or a group
/// thread shared by all its participants.
#[derive(Clone, Copy, Debug, PartialEq, Eq, Structural, Hash)]
pub enum SessionId {
    Private(i64),
    Group(i64),
}

impl SessionId {
    pub fn get_user_id(&self) -> (r: Option<i64>)
        ensures
            r == (match *self {
                SessionId::Private(u) => Some(u),
                SessionId::Group(_) => None::<i64>,
            }),
    {
        match self {
            SessionId::Private(user_id) => Some(*user_id),
            SessionId::Group(_) => None,
        }
    }

    pub fn get_group_id(&self) -> (r: Option<i64>)
        ensures
            r == (match *self {
                SessionId::Private(_) => None::<i64>,
                SessionId::Group(g) => Some(g),
            }),
    {
        match self {
            SessionId::Private(_) => None,
            SessionId::Group(group_id) => Some(*group_id),
        }
    }

    pub fn is_private(&self) -> (r: bool)
        ensures
            r == self is Private,
    {
        matches!(self, SessionId::Private(_))
    }

    pub fn is_group(&self) -> (r: bool)
        ensures
            r == self is Group,
    {
        matches!(self, SessionId::Group(_))
    }
}

/// How a message is answered: by the scripted command dispatcher, or by the
/// generative completion pipeline.
#[derive(Clone, Copy, Debug, PartialEq, Eq, Structural)]
pub enum StrategeType {
    CmdStrategy,
    LlmStrategy,
}

impl Default for StrategeType {
    /// The strategy applied to a sender that nobody ever configured.
    ///
    /// Two baselines were observed for this: scripted commands as the safe
    /// fallback, and generative replies as the product default.  This crate
    /// settles on the generative default; a deployment that wants the
    /// conservative behaviour stores an explicit command-strategy record.
    fn default() -> (r: Self)
        ensures
            r == StrategeType::LlmStrategy,
    {
        StrategeType::LlmStrategy
    }
}

/// Mathematical image of [`UserData`].
pub ghost struct UserDataView {
    pub stratege: StrategeType,
    pub model: Seq<char>,
    pub custom_prompt: Option<Seq<char>>,
}

/// Per-user reply configuration: strategy, model name, optional custom
/// system prompt.
#[derive(Clone, Debug)]
pub struct UserData {
    pub stratege: StrategeType,
    pub model: String,
    pub custom_prompt: Option<String>,
}

impl View for UserData {
    type V = UserDataView;

    open spec fn view(&self) -> UserDataView {
        UserDataView {
            stratege: self.stratege,
            model: self.model@,
            custom_prompt: self.custom_prompt.deep_view(),
        }
    }
}

impl UserData {
    /// A field-for-field copy whose view equals this one's.
    pub fn duplicate(&self) -> (r: Self)
        ensures
            r@ == self@,
    {
        UserData {
            stratege: self.stratege,
            model: self.model.clone(),
            custom_prompt: match &self.custom_prompt {
                Some(p) => Some(p.clone()),
                None => None,
            },
        }
    }
}

impl crate::kvcache::Duplicable for UserData {
    fn duplicate(&self) -> (r: Self)
        ensures
            r@ == self@,
    {
        UserData::duplicate(self)
    }
}

impl Default for UserData {
    fn default() -> (r: Self)
        ensures
            r@.stratege == StrategeType::LlmStrategy,
            r@.model.len() == 0,
            r@.custom_prompt is None,
    {
        UserData {
            stratege: StrategeType::LlmStrategy,
            model: String::new(),
            custom_prompt: None,
        }
    }
}

/// Mathematical image of [`GroupData`].
pub ghost struct GroupDataView {
    pub stratege: StrategeType,
    pub model: Seq<char>,
    pub custom_prompt: Option<Seq<char>>,
}

/// Per-group reply configuration; when present it overrides every member's
/// own [`UserData`] inside that group.
#[derive(Clone, Debug)]
pub struct GroupData {
    pub stratege: StrategeType,
    pub model: String,
    pub custom_prompt: Option<String>,
}

impl View for GroupData {
    type V = GroupDataView;

    open spec fn view(&self) -> GroupDataView {
        GroupDataView {
            stratege: self.stratege,
            model: self.model@,
            custom_prompt: self.custom_prompt.deep_view(),
        }
    }
}

impl GroupData {
    /// A field-for-field copy whose view equals this one's.
    pub fn duplicate(&self) -> (r: Self)
        ensures
            r@ == self@,
    {
        GroupData {
            stratege: self.stratege,
            model: self.model.clone(),
            custom_prompt: match &self.custom_prompt {
                Some(p) => Some(p.clone()),
                None => None,
            },
        }
    }
}

impl crate::kvcache::Duplicable for GroupData {
    fn duplicate(&self) -> (r: Self)
        ensures
            r@ == self@,
    {
        GroupData::duplicate(self)
    }
}

impl Default for GroupData {
    fn default() -> (r: Self)
        ensures
            r@.stratege == StrategeType::LlmStrategy,
            r@.model.len() == 0,
            r@.custom_prompt is None,
    {
        GroupData {
            stratege: StrategeType::LlmStrategy,
            model: String::new(),
            custom_prompt: None,
        }
    }
}

} // verus!
