//! Re-export commonly used types.

pub use crate::config::{SessionBackend, SessionConfig};
pub use crate::couchdb_session::CouchDbSessionStore;
pub use crate::error::{SessionError, SessionResult};
pub use crate::session::{generate_session_id, Session, SessionData};
pub use crate::time::{Timestamp, Ttl};
