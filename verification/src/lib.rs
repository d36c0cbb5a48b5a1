//! Transport core of a REST API client: a connection-pooled user agent.
//!
//! The crate classifies HTTP status outcomes into a closed taxonomy,
//! models the set of request verbs, owns a bounded pool of reusable
//! transport handles with first-come-first-served fairness for waiting
//! callers, and maps raw transport outcomes to a closed error model.

pub mod error;
pub mod init;
pub mod method;
pub mod pool;
pub mod session;
pub mod status;
pub mod transport;
pub mod user_agent;

pub use error::Error;
pub use init::GlobalInitGuard;
pub use method::HTTPMethod;
pub use pool::{AcquireOutcome, HandlePool, ReleaseOutcome};
pub use status::HTTPStatusCode;
pub use transport::TransportHandle;
pub use user_agent::{DispatchStart, UserAgent};
