//! Event-handling core of a chat bot: finding message links and resolving
//! them under the linking member's permissions, telling proxied messages
//! apart, and routing events to handlers.

pub mod decimal;
pub mod links;
pub mod model;
pub mod permissions;
pub mod proxy;
pub mod router;
pub mod resolver;
