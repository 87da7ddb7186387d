//! Cluster membership and call routing: a lazily filled registry cache kept
//! current by watch events, the renewal cadence of the registration lease,
//! and the decisions of the rpc dispatch server.

pub mod dispatch;
pub mod lease;
pub mod registry;
pub mod server;
pub mod watch;
