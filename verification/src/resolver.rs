//! Strategy resolution: merging group, user, and process-default
//! configuration into the configuration that actually applies to one
//! message, and validating configuration mutations.

use vstd::prelude::*;

use crate::error::{AppError, ErrorKind};
use crate::kvcache::KvCache;
use crate::text::spec_is_blank;
use crate::{GroupData, GroupDataView, SessionId, StrategeType, UserData, UserDataView};

verus! {

/// Mathematical image of [`EffectiveConfig`].
pub ghost struct EffectiveConfigView {
    pub stratege: StrategeType,
    pub model: Seq<char>,
    pub custom_prompt: Option<Seq<char>>,
}

/// The configuration that applies to one message, after precedence
/// resolution.  Derived, never stored.
#[derive(Clone, Debug)]
pub struct EffectiveConfig {
    pub stratege: StrategeType,
    pub model: String,
    pub custom_prompt: Option<String>,
}

impl View for EffectiveConfig {
    type V = EffectiveConfigView;

    open spec fn view(&self) -> EffectiveConfigView {
        EffectiveConfigView {
            stratege: self.stratege,
            model: self.model@,
            custom_prompt: self.custom_prompt.deep_view(),
        }
    }
}

/// A record's model name, with the process default standing in for an
/// empty one.
pub open spec fn model_or_default(model: Seq<char>, default_model: Seq<char>) -> Seq<char> {
    if model.len() == 0 {
        default_model
    } else {
        model
    }
}

/// The precedence rule: a group record wins outright; otherwise the
/// sender's user record; otherwise process defaults (the generative
/// strategy, the default model, no custom prompt).
pub open spec fn spec_merge(
    group: Option<GroupDataView>,
    user: Option<UserDataView>,
    default_model: Seq<char>,
) -> EffectiveConfigView {
    match group {
        Some(g) => EffectiveConfigView {
            stratege: g.stratege,
            model: model_or_default(g.model, default_model),
            custom_prompt: g.custom_prompt,
        },
        None => match user {
            Some(u) => EffectiveConfigView {
                stratege: u.stratege,
                model: model_or_default(u.model, default_model),
                custom_prompt: u.custom_prompt,
            },
            None => EffectiveConfigView {
                stratege: StrategeType::LlmStrategy,
                model: default_model,
                custom_prompt: None,
            },
        },
    }
}

/// A group record, even one that conflicts with the sender's own record,
/// decides the outcome; without one the user record does; with neither,
/// the process defaults apply.
pub proof fn lemma_merge_precedence(
    g: GroupDataView,
    u: UserDataView,
    default_model: Seq<char>,
)
    ensures
        spec_merge(Some(g), Some(u), default_model).stratege == g.stratege,
        spec_merge(Some(g), Some(u), default_model).custom_prompt == g.custom_prompt,
        spec_merge(None, Some(u), default_model).stratege == u.stratege,
        spec_merge(None, Some(u), default_model).custom_prompt == u.custom_prompt,
        spec_merge(None, None, default_model) == (EffectiveConfigView {
            stratege: StrategeType::LlmStrategy,
            model: default_model,
            custom_prompt: None,
        }),
{
}

fn model_field_or_default(model: &String, default_model: &str) -> (r: String)
    ensures
        r@ == model_or_default(model@, default_model@),
{
    if model.as_str().unicode_len() == 0 {
        default_model.to_owned()
    } else {
        model.clone()
    }
}

/// Merges an optional group record and an optional user record with the
/// process defaults.
pub fn merge_config(
    group: Option<&GroupData>,
    user: Option<&UserData>,
    default_model: &str,
) -> (r: EffectiveConfig)
    ensures
        r@ == spec_merge(
            match group {
                Some(g) => Some(g@),
                None => None,
            },
            match user {
                Some(u) => Some(u@),
                None => None,
            },
            default_model@,
        ),
{
    match group {
        Some(g) => EffectiveConfig {
            stratege: g.stratege,
            model: model_field_or_default(&g.model, default_model),
            custom_prompt: match &g.custom_prompt {
                Some(p) => Some(p.clone()),
                None => None,
            },
        },
        None => match user {
            Some(u) => EffectiveConfig {
                stratege: u.stratege,
                model: model_field_or_default(&u.model, default_model),
                custom_prompt: match &u.custom_prompt {
                    Some(p) => Some(p.clone()),
                    None => None,
                },
            },
            None => EffectiveConfig {
                stratege: StrategeType::LlmStrategy,
                model: default_model.to_owned(),
                custom_prompt: None,
            },
        },
    }
}

/// Resolves the configuration in effect for `scope` and `sender_id` from
/// the two caches: group scope consults the group cache first and falls
/// back to the sender's record; private scope uses the sender's record;
/// absent or stale entries fall through to the process defaults.
pub fn effective_config(
    scope: &SessionId,
    sender_id: i64,
    groups: &KvCache<GroupData>,
    users: &KvCache<UserData>,
    default_model: &str,
    now: u64,
) -> (r: EffectiveConfig)
    requires
        groups.inv(),
        users.inv(),
    ensures
        r@ == spec_merge(
            match *scope {
                SessionId::Group(g) => groups.live_value(g, now),
                SessionId::Private(_) => None,
            },
            users.live_value(sender_id, now),
            default_model@,
        ),
{
    let group_rec = match scope {
        SessionId::Group(g) => groups.get(*g, now),
        SessionId::Private(_) => None,
    };
    let user_rec = users.get(sender_id, now);
    merge_config(group_rec.as_ref(), user_rec.as_ref(), default_model)
}

/// The longest custom prompt accepted, in characters.
pub const MAX_PROMPT_CHARS: usize = 2000;

/// Accepts a custom prompt exactly when it is neither blank nor longer
/// than [`MAX_PROMPT_CHARS`] characters.
pub fn validate_prompt(prompt: &str) -> (r: Result<(), AppError>)
    ensures
        r is Ok <==> (!spec_is_blank(prompt@) && prompt@.len() <= MAX_PROMPT_CHARS as int),
        r is Err ==> r->Err_0@.kind == ErrorKind::Validation,
{
    if crate::text::is_blank(prompt) {
        return Err(AppError::validation(String::from_str("the prompt must not be empty")));
    }
    if prompt.unicode_len() > MAX_PROMPT_CHARS {
        return Err(
            AppError::validation(
                String::from_str("the prompt must not exceed 2000 characters"),
            ),
        );
    }
    Ok(())
}

} // verus!
