use refraction::model::{Author, Message};
use refraction::proxy::{
    author_query, get_original_author, is_message_proxied, suppression_query, ProxyDecision,
    ProxyError, SenderLookup, SETTLE_DELAY_MS,
};
use refraction::router::{
    is_ignored, message_handlers, plan, presence_text, route_outcome, Handler, InboundEvent,
    RouteError, RoutePlan,
};

const BOT: u64 = 999;

fn message(id: u64, author: u64, bot: bool, webhook: Option<u64>) -> Message {
    Message {
        id,
        channel_id: 200,
        guild_id: Some(100),
        webhook_id: webhook,
        author: Author { id: author, bot, tag: "someone".to_string(), avatar_url: "av".to_string() },
        content: "hello".to_string(),
        attachments: vec![],
        timestamp: "2024-01-01T00:00:00Z".to_string(),
    }
}

#[test]
fn settle_delay_is_one_second() {
    assert_eq!(SETTLE_DELAY_MS, 1000);
}

#[test]
fn webhook_message_resolves_to_its_author() {
    let m = message(5, 7, true, Some(1));
    assert_eq!(author_query(&m), Some(5));
    assert_eq!(get_original_author(&m, &SenderLookup::Found(42)), Ok(ProxyDecision::ProxiedBy(42)));
    assert_eq!(get_original_author(&m, &SenderLookup::NotFound), Ok(ProxyDecision::Unresolvable));
    assert_eq!(get_original_author(&m, &SenderLookup::Failed), Err(ProxyError::ServiceFailure));
    // a webhook message is not suppressed, and reaches every handler
    assert_eq!(suppression_query(&m), None);
    assert!(!is_message_proxied(&m, &SenderLookup::Found(42)));
    assert_eq!(
        message_handlers(&m, &SenderLookup::Found(42)),
        vec![Handler::Eta, Handler::ExpandLink, Handler::AnalyzeLogs]
    );
    assert_eq!(plan(&InboundEvent::NewMessage(m), BOT), RoutePlan::CheckMessage { query: None });
}

#[test]
fn plain_message_is_not_a_webhook_message() {
    let m = message(5, 7, false, None);
    assert_eq!(author_query(&m), None);
    assert_eq!(get_original_author(&m, &SenderLookup::NotQueried), Ok(ProxyDecision::NotAWebhookMessage));
}

#[test]
fn already_proxied_original_runs_no_handlers() {
    let m = message(5, 7, false, None);
    assert_eq!(plan(&InboundEvent::NewMessage(m.clone()), BOT), RoutePlan::CheckMessage { query: Some(5) });
    assert_eq!(suppression_query(&m), Some(5));
    assert!(is_message_proxied(&m, &SenderLookup::Found(42)));
    assert!(message_handlers(&m, &SenderLookup::Found(42)).is_empty());
}

#[test]
fn suppression_check_fails_open() {
    let m = message(5, 7, false, None);
    for l in [SenderLookup::NotFound, SenderLookup::Failed, SenderLookup::NotQueried] {
        assert!(!is_message_proxied(&m, &l));
        assert_eq!(message_handlers(&m, &l), vec![Handler::Eta, Handler::ExpandLink, Handler::AnalyzeLogs]);
    }
}

#[test]
fn own_and_bot_messages_are_ignored() {
    assert!(is_ignored(&message(1, BOT, true, None), BOT));
    assert!(is_ignored(&message(1, BOT, true, Some(3)), BOT));
    assert!(is_ignored(&message(1, 8, true, None), BOT));
    assert!(!is_ignored(&message(1, 8, true, Some(3)), BOT));
    assert!(!is_ignored(&message(1, 8, false, None), BOT));
    assert_eq!(plan(&InboundEvent::NewMessage(message(1, 8, true, None)), BOT), RoutePlan::Ignore);
}

#[test]
fn other_events_are_routed() {
    assert_eq!(plan(&InboundEvent::Ready, BOT), RoutePlan::SetPresence);
    assert_eq!(plan(&InboundEvent::ReactionAdded, BOT), RoutePlan::Run(vec![Handler::DeleteOnReaction]));
    assert_eq!(plan(&InboundEvent::ThreadCreated, BOT), RoutePlan::Run(vec![Handler::SupportOnboard]));
    assert_eq!(plan(&InboundEvent::Other, BOT), RoutePlan::Ignore);
}

#[test]
fn handler_failures_are_collected() {
    let hs = vec![Handler::Eta, Handler::ExpandLink, Handler::AnalyzeLogs];
    assert_eq!(route_outcome(&hs, &vec![true, true, true]), Ok(()));
    assert_eq!(
        route_outcome(&hs, &vec![false, true, false]),
        Err(RouteError { failed: vec![Handler::Eta, Handler::AnalyzeLogs] })
    );
    assert_eq!(route_outcome(&vec![], &vec![]), Ok(()));
}

#[test]
fn presence_names_the_version() {
    assert_eq!(presence_text("1.21.4"), "Minecraft 1.21.4");
}
