//! Coordination core of an embedded database's RPC layer: capability
//! resolution, the session, transaction and live-query registries, the
//! notification channel, the request/response envelope and the dispatcher.
pub mod capabilities;
pub mod connect;
pub mod dispatch;
pub mod entries;
pub mod envelope;
pub mod ids;
pub mod live;
pub mod notifications;
pub mod sessions;
pub mod transactions;
pub mod value;
