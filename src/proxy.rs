//! Telling proxied messages apart from their authors' originals.
//!
//! A proxying service deletes a member's message and posts it again through a
//! webhook. For a webhook message the identity service tells who really wrote
//! it; for any other message it tells whether the message was already
//! proxied, in which case the repost will be handled instead. The service is
//! asked only after `SETTLE_DELAY_MS`, since the repost lags the original.

use vstd::prelude::*;
use crate::model::Message;

verus! {

/// Wait before asking the identity service, in milliseconds.
pub const SETTLE_DELAY_MS: u64 = 1000;

/// What the identity service said about a message id.
#[derive(Clone, Copy, Debug, PartialEq, Eq, Structural)]
pub enum SenderLookup {
    /// The service was not asked.
    NotQueried,
    /// The message was sent for this account.
    Found(u64),
    /// The service knows no such message.
    NotFound,
    /// The service could not be reached or failed.
    Failed,
}

#[derive(Clone, Copy, Debug, PartialEq, Eq, Structural)]
pub enum ProxyDecision {
    NotAWebhookMessage,
    ProxiedBy(u64),
    Unresolvable,
}

#[derive(Clone, Copy, Debug, PartialEq, Eq, Structural)]
pub enum ProxyError {
    /// The identity service failed while the true author of a webhook
    /// message was asked for.
    ServiceFailure,
}

/// The id to ask the identity service about, after the settle delay, to learn
/// whether `msg` was already proxied; `None` where no question is needed.
pub fn suppression_query(msg: &Message) -> (r: Option<u64>)
    ensures
        r == (if msg.webhook_id is None { Some(msg.id) } else { None::<u64> }),
{
    match msg.webhook_id {
        Some(_) => None,
        None => Some(msg.id),
    }
}

/// Whether `msg` is an original that the proxying service already reposted.
/// A webhook message never is; a failed or missing answer counts as "no".
pub fn is_message_proxied(msg: &Message, lookup: &SenderLookup) -> (r: bool)
    ensures
        r == (msg.webhook_id is None && lookup is Found),
{
    match msg.webhook_id {
        Some(_) => false,
        None => match lookup {
            SenderLookup::Found(_) => true,
            _ => false,
        },
    }
}

/// The id to ask the identity service about, after the settle delay, to learn
/// the true author of `msg`; `None` for a message not sent through a webhook.
pub fn author_query(msg: &Message) -> (r: Option<u64>)
    ensures
        r == (if msg.webhook_id is Some { Some(msg.id) } else { None::<u64> }),
{
    match msg.webhook_id {
        Some(_) => Some(msg.id),
        None => None,
    }
}

pub open spec fn original_author_spec(msg: Message, lookup: SenderLookup) -> Result<ProxyDecision, ProxyError> {
    if msg.webhook_id is None {
        Ok(ProxyDecision::NotAWebhookMessage)
    } else {
        match lookup {
            SenderLookup::Found(a) => Ok(ProxyDecision::ProxiedBy(a)),
            SenderLookup::Failed => Err(ProxyError::ServiceFailure),
            _ => Ok(ProxyDecision::Unresolvable),
        }
    }
}

/// Who really wrote `msg`, given what the identity service answered to
/// `author_query(msg)`. A service failure is an error, since a wrong author is
/// worse than none.
pub fn get_original_author(msg: &Message, lookup: &SenderLookup) -> (r: Result<ProxyDecision, ProxyError>)
    ensures
        r == original_author_spec(*msg, *lookup),
{
    match msg.webhook_id {
        None => Ok(ProxyDecision::NotAWebhookMessage),
        Some(_) => match lookup {
            SenderLookup::Found(a) => Ok(ProxyDecision::ProxiedBy(*a)),
            SenderLookup::Failed => Err(ProxyError::ServiceFailure),
            _ => Ok(ProxyDecision::Unresolvable),
        },
    }
}

} // verus!
