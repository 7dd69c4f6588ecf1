//! Routing inbound events to handlers.

use vstd::prelude::*;
use crate::model::Message;
use crate::proxy::{is_message_proxied, suppression_query, SenderLookup};

verus! {

/// The handlers that events are handed to.
#[derive(Clone, Copy, Debug, PartialEq, Eq, Structural)]
pub enum Handler {
    /// Answers questions about release dates.
    Eta,
    /// Expands message links (see `resolver`).
    ExpandLink,
    /// Reads uploaded logs.
    AnalyzeLogs,
    /// Deletes a bot message on request.
    DeleteOnReaction,
    /// Greets new support threads.
    SupportOnboard,
}

#[derive(Clone, Debug)]
pub enum InboundEvent {
    Ready,
    NewMessage(Message),
    ReactionAdded,
    ThreadCreated,
    Other,
}

/// What to do first with an event.
#[derive(Clone, Debug, PartialEq, Eq)]
pub enum RoutePlan {
    /// Nothing is to be done.
    Ignore,
    /// Set the bot's presence from the latest version name.
    SetPresence,
    /// A message to pass on: first ask the identity service about `query`
    /// (where it is `Some`), then call `message_handlers`.
    CheckMessage { query: Option<u64> },
    /// Run these handlers, in order.
    Run(Vec<Handler>),
}

/// Handlers failed while an event was dispatched; the others still ran.
#[derive(Clone, Debug, PartialEq, Eq)]
pub struct RouteError {
    pub failed: Vec<Handler>,
}

/// The bot's own messages are ignored, and so are other bots' unless they
/// come through a webhook (proxied members post that way).
pub open spec fn ignored_spec(msg: Message, bot_id: u64) -> bool {
    msg.author.id == bot_id || (msg.author.bot && msg.webhook_id is None)
}

/// The handlers that see a message, in this order.
pub open spec fn message_pipeline() -> Seq<Handler> {
    seq![Handler::Eta, Handler::ExpandLink, Handler::AnalyzeLogs]
}

pub fn is_ignored(msg: &Message, bot_id: u64) -> (r: bool)
    ensures
        r == ignored_spec(*msg, bot_id),
{
    msg.author.id == bot_id || (msg.author.bot && msg.webhook_id.is_none())
}

pub fn plan(event: &InboundEvent, bot_id: u64) -> (r: RoutePlan)
    ensures
        match event {
            InboundEvent::Ready => r == RoutePlan::SetPresence,
            InboundEvent::NewMessage(m) => if ignored_spec(*m, bot_id) {
                r == RoutePlan::Ignore
            } else {
                r == (RoutePlan::CheckMessage {
                    query: if m.webhook_id is None { Some(m.id) } else { None::<u64> },
                })
            },
            InboundEvent::ReactionAdded => r is Run && r->Run_0@ == seq![Handler::DeleteOnReaction],
            InboundEvent::ThreadCreated => r is Run && r->Run_0@ == seq![Handler::SupportOnboard],
            InboundEvent::Other => r == RoutePlan::Ignore,
        },
{
    match event {
        InboundEvent::Ready => RoutePlan::SetPresence,
        InboundEvent::NewMessage(m) => {
            if is_ignored(m, bot_id) {
                RoutePlan::Ignore
            } else {
                RoutePlan::CheckMessage { query: suppression_query(m) }
            }
        },
        InboundEvent::ReactionAdded => RoutePlan::Run(vec![Handler::DeleteOnReaction]),
        InboundEvent::ThreadCreated => RoutePlan::Run(vec![Handler::SupportOnboard]),
        InboundEvent::Other => RoutePlan::Ignore,
    }
}

/// The handlers to run on a message once the identity service has answered:
/// none for an original that was already proxied, else the whole pipeline.
pub fn message_handlers(msg: &Message, lookup: &SenderLookup) -> (r: Vec<Handler>)
    ensures
        r@ == (if msg.webhook_id is None && lookup is Found {
            Seq::<Handler>::empty()
        } else {
            message_pipeline()
        }),
{
    if is_message_proxied(msg, lookup) {
        Vec::new()
    } else {
        let r = vec![Handler::Eta, Handler::ExpandLink, Handler::AnalyzeLogs];
        assert(r@ =~= message_pipeline());
        r
    }
}

/// The handlers whose run failed, in the order they ran.
pub open spec fn failed_of(hs: Seq<Handler>, ok: Seq<bool>) -> Seq<Handler>
    decreases hs.len(),
{
    if hs.len() == 0 {
        seq![]
    } else if ok.last() {
        failed_of(hs.drop_last(), ok.drop_last())
    } else {
        failed_of(hs.drop_last(), ok.drop_last()).push(hs.last())
    }
}

/// The result of a dispatch in which each handler ran whatever the others
/// did: `Ok` when all succeeded, else the ones that failed.
pub fn route_outcome(handlers: &Vec<Handler>, succeeded: &Vec<bool>) -> (r: Result<(), RouteError>)
    requires
        handlers@.len() == succeeded@.len(),
    ensures
        failed_of(handlers@, succeeded@).len() == 0 ==> r is Ok,
        failed_of(handlers@, succeeded@).len() > 0 ==> r is Err && r->Err_0.failed@ == failed_of(
            handlers@,
            succeeded@,
        ),
{
    let mut failed: Vec<Handler> = Vec::new();
    let mut i: usize = 0;
    while i < handlers.len()
        invariant
            handlers@.len() == succeeded@.len(),
            i <= handlers@.len(),
            failed@ == failed_of(handlers@.take(i as int), succeeded@.take(i as int)),
        decreases handlers@.len() - i,
    {
        assert(handlers@.take(i as int + 1).drop_last() =~= handlers@.take(i as int));
        assert(succeeded@.take(i as int + 1).drop_last() =~= succeeded@.take(i as int));
        if !succeeded[i] {
            failed.push(handlers[i]);
        }
        i = i + 1;
    }
    assert(handlers@.take(i as int) =~= handlers@);
    assert(succeeded@.take(i as int) =~= succeeded@);
    if failed.len() == 0 {
        Ok(())
    } else {
        Err(RouteError { failed })
    }
}

/// The presence text shown at startup: the latest version's name after
/// "Minecraft ".
pub fn presence_text(version: &str) -> (r: String)
    ensures
        r@ == "Minecraft "@ + version@,
{
    String::from_str("Minecraft ").concat(version)
}

} // verus!
