//! Session storage: configuration, the session record and the decisions
//! that the Redis, Memcached and CouchDB back ends take around their I/O.

pub mod time;
pub mod text;
pub mod error;
pub mod config;
pub mod session;
pub mod redis_session;
pub mod memcached_session;
pub mod couchdb_session;
pub mod couchdb_flow;
pub mod prelude;

pub use config::{SessionBackend, SessionConfig};
pub use couchdb_session::CouchDbSessionStore;
pub use error::{SessionError, SessionResult};
pub use session::{generate_session_id, Session, SessionData};
pub use time::{Timestamp, Ttl};
