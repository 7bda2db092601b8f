//! The steps of the CouchDB session store's reads, writes and deletions.
//!
//! Each operation is a short exchange with CouchDB. The functions here take
//! what came back from the last request (a status code, a revision, a
//! session) and say what to do next; the caller sends the requests and
//! decodes the bodies. A transport failure or a body that does not decode
//! ends the operation with that error, whatever step it came in.

use crate::config::namespaced_key;
use crate::couchdb_session::{
    couchdb_failure, is_success_status, str_debug_text, uuid_accepts, CouchDbSessionStore,
    NOT_FOUND,
};
use crate::error::{SessionError, SessionResult};
use crate::session::{expired_at, Session};
use crate::time::{is_clock_reading, now_utc, Timestamp};
use vstd::prelude::*;

verus! {

/// What a read of a session does next.
pub enum GetStep {
    /// Send a GET to this document URL and report the status.
    Fetch(String),
    /// Decode the body as a session document and report its session.
    ReadSession,
    /// The session has expired: delete it and report the outcome.
    DeleteExpired,
    /// The read is over, with this outcome.
    Finish(SessionResult<Option<Session>>),
}

/// What a write of a session does next.
pub enum SaveStep {
    /// Send a GET to the document URL `url` of the document `doc_id` and
    /// report the status.
    Lookup { doc_id: String, url: String },
    /// Decode the body as a session document and report its revision.
    ReadRevision,
    /// PUT the session document, with this revision, to the document URL
    /// and report the status and, on failure, the response body.
    Write(Option<String>),
    /// The write is over, with this outcome.
    Finish(SessionResult<()>),
}

/// What a deletion of a session does next.
pub enum DeleteStep {
    /// Send a GET to this document URL and report the status.
    Lookup(String),
    /// Decode the body as a session document and report its revision.
    ReadRevision,
    /// Send a DELETE to this URL and report the status.
    Remove(String),
    /// The deletion is over, with this outcome.
    Finish(SessionResult<()>),
}

/// Whether `e` is the error with which an ID that `uuid` rejects is refused.
pub open spec fn refused_session_id(e: SessionError, session_id: Seq<char>) -> bool {
    e matches SessionError::InvalidSessionId(m) && m@ == "session_id must be a valid UUID, got: "@
        + str_debug_text(session_id)
}

impl CouchDbSessionStore {
    /// What the document URL of `session_id` comes to as a first step: the
    /// URL to fetch when it could be built, and the error otherwise.
    pub open spec fn first_url(self, session_id: Seq<char>, url: SessionResult<String>) -> bool {
        &&& !uuid_accepts(session_id) ==> (url matches Err(e) && refused_session_id(e, session_id))
        &&& uuid_accepts(session_id) ==> self.document_url_result(
            namespaced_key(self.spec_config().namespace@, session_id),
            url,
        )
    }

    /// Start reading the session `session_id`: fetch its document, or stop
    /// with the error with which its URL could not be built.
    pub fn get_begin(&self, session_id: &str) -> (r: GetStep)
        ensures
            exists|url: SessionResult<String>|
                #[trigger] self.first_url(session_id@, url) && match url {
                    Ok(u) => r == GetStep::Fetch(u),
                    Err(e) => r == GetStep::Finish(Err(e)),
                },
    {
        let url = self.session_url(session_id);
        let ghost seen = url;
        assert(self.first_url(session_id@, seen));
        match url {
            Ok(u) => GetStep::Fetch(u),
            Err(e) => GetStep::Finish(Err(e)),
        }
    }

    /// The step after the document fetch answered `status`: no session when
    /// the document does not exist (404), the session to decode on success,
    /// and a `CouchDb` error otherwise.
    pub fn get_on_status(status: u16) -> (r: GetStep)
        requires
            100 <= status <= 999,
        ensures
            status == NOT_FOUND ==> r == GetStep::Finish(Ok(None)),
            is_success_status(status) ==> r is ReadSession,
            status != NOT_FOUND && !is_success_status(status) ==> (r matches GetStep::Finish(Err(e))
                && couchdb_failure(e, "Failed to get session: "@, status)),
    {
        match CouchDbSessionStore::get_result(status) {
            Ok(true) => GetStep::ReadSession,
            Ok(false) => GetStep::Finish(Ok(None)),
            Err(e) => GetStep::Finish(Err(e)),
        }
    }

    /// The step after the document decoded to `session`, when the clock
    /// reads `now`: delete it when it has expired, return it otherwise.
    pub fn get_on_session_at(session: Session, now: Timestamp) -> (r: GetStep)
        ensures
            expired_at(session, now) ==> r is DeleteExpired,
            !expired_at(session, now) ==> r == GetStep::Finish(Ok(Some(session))),
    {
        match session.unless_expired_at(now) {
            Some(s) => GetStep::Finish(Ok(Some(s))),
            None => GetStep::DeleteExpired,
        }
    }

    /// The step after the document decoded to `session`: delete it when it
    /// has expired by now, return it otherwise.
    pub fn get_on_session(session: Session) -> (r: GetStep)
        ensures
            exists|now: Timestamp|
                {
                    &&& is_clock_reading(now)
                    &&& #[trigger] expired_at(session, now) ==> r is DeleteExpired
                    &&& !expired_at(session, now) ==> r == GetStep::Finish(Ok(Some(session)))
                },
    {
        let now = now_utc();
        CouchDbSessionStore::get_on_session_at(session, now)
    }

    /// The step after the expired session was deleted with outcome
    /// `deleted`: no session, or the deletion's error.
    pub fn get_on_deleted(deleted: SessionResult<()>) -> (r: GetStep)
        ensures
            deleted is Ok ==> r == GetStep::Finish(Ok(None)),
            deleted matches Err(e) ==> r == GetStep::Finish(Err(e)),
    {
        match deleted {
            Ok(()) => GetStep::Finish(Ok(None)),
            Err(e) => GetStep::Finish(Err(e)),
        }
    }

    /// Start writing the session `session_id`: look its document up for the
    /// revision to replace, or stop with the error with which its URL could
    /// not be built.
    pub fn save_begin(&self, session_id: &str) -> (r: SaveStep)
        ensures
            exists|url: SessionResult<String>|
                #[trigger] self.first_url(session_id@, url) && match url {
                    Ok(u) => r matches SaveStep::Lookup { doc_id, url: v } && v == u && doc_id@
                        == namespaced_key(self.spec_config().namespace@, session_id@),
                    Err(e) => r == SaveStep::Finish(Err(e)),
                },
    {
        match self.doc_id(session_id) {
            Err(e) => {
                let ghost seen: SessionResult<String> = Err(e);
                assert(self.first_url(session_id@, seen));
                SaveStep::Finish(Err(e))
            },
            Ok(doc_id) => {
                let url = self.document_url(doc_id.as_str());
                let ghost seen = url;
                assert(self.first_url(session_id@, seen));
                match url {
                    Ok(u) => SaveStep::Lookup { doc_id, url: u },
                    Err(e) => SaveStep::Finish(Err(e)),
                }
            },
        }
    }

    /// The step after the lookup answered `status`: the revision to read
    /// when the document exists (2xx), a write without a revision otherwise.
    pub fn save_on_lookup(status: u16) -> (r: SaveStep)
        ensures
            is_success_status(status) ==> r is ReadRevision,
            !is_success_status(status) ==> r == SaveStep::Write(None),
    {
        if crate::couchdb_session::is_success(status) {
            SaveStep::ReadRevision
        } else {
            SaveStep::Write(None)
        }
    }

    /// The step after the existing document decoded with revision `rev`:
    /// the write that replaces that revision.
    pub fn save_on_revision(rev: Option<String>) -> (r: SaveStep)
        ensures
            r == SaveStep::Write(rev),
    {
        SaveStep::Write(rev)
    }

    /// The step after the write answered `status` with body `body`: success,
    /// or a `CouchDb` error carrying the body.
    pub fn save_on_write(status: u16, body: &str) -> (r: SaveStep)
        ensures
            is_success_status(status) ==> r == SaveStep::Finish(Ok(())),
            !is_success_status(status) ==> (r matches SaveStep::Finish(Err(e))
                && e matches SessionError::CouchDb(m) && m@ == "Failed to save session: "@ + body@),
    {
        match CouchDbSessionStore::save_result(status, body) {
            Ok(()) => SaveStep::Finish(Ok(())),
            Err(e) => SaveStep::Finish(Err(e)),
        }
    }

    /// Start deleting the session `session_id`: look its document up for
    /// its revision, or stop with the error with which its URL could not be
    /// built.
    pub fn delete_begin(&self, session_id: &str) -> (r: DeleteStep)
        ensures
            exists|url: SessionResult<String>|
                #[trigger] self.first_url(session_id@, url) && match url {
                    Ok(u) => r == DeleteStep::Lookup(u),
                    Err(e) => r == DeleteStep::Finish(Err(e)),
                },
    {
        let url = self.session_url(session_id);
        let ghost seen = url;
        assert(self.first_url(session_id@, seen));
        match url {
            Ok(u) => DeleteStep::Lookup(u),
            Err(e) => DeleteStep::Finish(Err(e)),
        }
    }

    /// The step after the lookup answered `status`: done when the document
    /// is already gone (404), its revision to read otherwise.
    pub fn delete_on_lookup(status: u16) -> (r: DeleteStep)
        ensures
            status == NOT_FOUND ==> r == DeleteStep::Finish(Ok(())),
            status != NOT_FOUND ==> r is ReadRevision,
    {
        if CouchDbSessionStore::document_found(status) {
            DeleteStep::ReadRevision
        } else {
            DeleteStep::Finish(Ok(()))
        }
    }

    /// The step after the document at `url` decoded with revision `rev`:
    /// delete that revision (`{url}?rev={rev}`), or stop when the document
    /// has none.
    pub fn delete_on_revision(url: &str, rev: Option<String>) -> (r: DeleteStep)
        ensures
            rev is None ==> r == DeleteStep::Finish(Ok(())),
            rev matches Some(v) ==> (r matches DeleteStep::Remove(u) && u@ == url@ + "?rev="@
                + v@),
    {
        match rev {
            Some(v) => DeleteStep::Remove(CouchDbSessionStore::revision_url(url, v.as_str())),
            None => DeleteStep::Finish(Ok(())),
        }
    }

    /// The step after the deletion answered `status`: success, also when the
    /// document was already gone (404); a `CouchDb` error otherwise.
    pub fn delete_on_remove(status: u16) -> (r: DeleteStep)
        requires
            100 <= status <= 999,
        ensures
            is_success_status(status) || status == NOT_FOUND ==> r == DeleteStep::Finish(Ok(())),
            !is_success_status(status) && status != NOT_FOUND ==> (r matches DeleteStep::Finish(
                Err(e),
            ) && couchdb_failure(e, "Failed to delete session: "@, status)),
    {
        match CouchDbSessionStore::delete_result(status) {
            Ok(()) => DeleteStep::Finish(Ok(())),
            Err(e) => DeleteStep::Finish(Err(e)),
        }
    }
}

} // verus!
