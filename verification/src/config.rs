//! Session configuration.

use crate::error::{SessionError, SessionResult};
use crate::text::{concat, starts_with};
use crate::time::{Ttl, NANOS_PER_SEC};
use vstd::prelude::*;

verus! {

/// Session backend type.
#[derive(Debug, Clone, Copy, PartialEq, Eq, Structural)]
pub enum SessionBackend {
    /// Redis backend
    Redis,
    /// Memcached backend
    Memcached,
    /// CouchDB backend
    CouchDb,
}

/// Session configuration.
#[derive(Debug, Clone)]
pub struct SessionConfig {
    /// Backend type
    pub backend: SessionBackend,
    /// Connection URL
    pub url: String,
    /// Session namespace/prefix
    pub namespace: String,
    /// Default session TTL
    pub default_ttl: Ttl,
    /// Maximum session TTL (for security)
    pub max_ttl: Ttl,
    /// CouchDB database name (only for CouchDB backend)
    pub database: Option<String>,
    /// CouchDB username (only for CouchDB backend)
    pub username: Option<String>,
    /// CouchDB password (only for CouchDB backend)
    pub password: Option<String>,
}

/// The settings that every constructor starts from, apart from the backend,
/// the URL and the database: namespace `session`, a default TTL of one hour,
/// a maximum TTL of seven days and no credentials.
pub open spec fn has_default_settings(c: SessionConfig) -> bool {
    &&& c.namespace@ == "session"@
    &&& c.default_ttl@ == 3600 * NANOS_PER_SEC
    &&& c.max_ttl@ == 604800 * NANOS_PER_SEC
    &&& c.username is None
    &&& c.password is None
}

/// The text of `s` when present.
pub open spec fn opt_view(s: Option<String>) -> Option<Seq<char>> {
    match s {
        Some(v) => Some(v@),
        None => None,
    }
}

/// Whether `url` may serve as a Redis connection URL.
pub open spec fn is_redis_url(url: Seq<char>) -> bool {
    "redis://"@.is_prefix_of(url) || "rediss://"@.is_prefix_of(url)
}

impl Default for SessionConfig {
    fn default() -> (r: Self)
        ensures
            r.backend == SessionBackend::Redis,
            r.url@ == "redis://localhost:6379"@,
            r.database is None,
            has_default_settings(r),
    {
        proof {
            reveal_strlit("session");
        }
        SessionConfig {
            backend: SessionBackend::Redis,
            url: "redis://localhost:6379".to_owned(),
            namespace: "session".to_owned(),
            default_ttl: Ttl::from_secs(3600),
            max_ttl: Ttl::from_secs(86400 * 7),
            database: None,
            username: None,
            password: None,
        }
    }
}

/// Whether `url` may serve as a Memcached connection URL.
pub open spec fn is_memcached_url(url: Seq<char>) -> bool {
    "memcache://"@.is_prefix_of(url)
}

/// Whether `url` may serve as a CouchDB connection URL.
pub open spec fn is_couchdb_url(url: Seq<char>) -> bool {
    "http://"@.is_prefix_of(url) || "https://"@.is_prefix_of(url)
}

/// The key under which the session `id` is stored in `namespace`.
pub open spec fn namespaced_key(namespace: Seq<char>, id: Seq<char>) -> Seq<char> {
    namespace + ":"@ + id
}

/// The TTL that a store applies when `requested` is asked for: the
/// request, cut down to `max` when it is longer.
pub open spec fn capped_ttl(requested: Ttl, max: Ttl) -> Ttl {
    if requested@ > max@ {
        max
    } else {
        requested
    }
}

/// Every session key of a namespace begins with the namespace and a colon.
pub proof fn session_keys_start_with_namespace(namespace: Seq<char>, id: Seq<char>)
    ensures
        (namespace + ":"@).is_prefix_of(namespaced_key(namespace, id)),
{
    assert((namespace + ":"@) =~= namespaced_key(namespace, id).subrange(
        0,
        (namespace + ":"@).len() as int,
    ));
}

/// Two different session IDs never share a key within a namespace, so each
/// session addresses its own entry.
pub proof fn session_keys_are_distinct(namespace: Seq<char>, a: Seq<char>, b: Seq<char>)
    requires
        a != b,
    ensures
        namespaced_key(namespace, a) != namespaced_key(namespace, b),
{
    let p = namespace + ":"@;
    if namespaced_key(namespace, a) == namespaced_key(namespace, b) {
        assert(a =~= namespaced_key(namespace, a).subrange(p.len() as int, namespaced_key(namespace, a).len() as int));
        assert(b =~= namespaced_key(namespace, b).subrange(p.len() as int, namespaced_key(namespace, b).len() as int));
    }
}

/// A store never grants more than the configured maximum TTL, and grants
/// exactly what is asked for when that is within the maximum.
pub proof fn granted_ttl_is_capped(requested: Ttl, max: Ttl)
    ensures
        capped_ttl(requested, max)@ <= max@,
        requested@ <= max@ ==> capped_ttl(requested, max) == requested,
        requested@ > max@ ==> capped_ttl(requested, max) == max,
{
}

/// A Redis configuration is made of exactly the URLs whose scheme is
/// `redis://` or `rediss://`, whatever follows it (a host without a port
/// among them).
pub proof fn redis_urls_are_those_of_a_redis_scheme(url: Seq<char>)
    ensures
        is_redis_url(url) <==> ("redis://"@.is_prefix_of(url) || "rediss://"@.is_prefix_of(url)),
{
}

/// A Memcached configuration is made of exactly the URLs whose scheme is
/// `memcache://`.
pub proof fn memcached_urls_are_those_of_the_memcache_scheme(url: Seq<char>)
    ensures
        is_memcached_url(url) <==> "memcache://"@.is_prefix_of(url),
{
}

/// A CouchDB configuration is made of exactly the URLs whose scheme is
/// `http://` or `https://`.
pub proof fn couchdb_urls_are_those_of_an_http_scheme(url: Seq<char>)
    ensures
        is_couchdb_url(url) <==> ("http://"@.is_prefix_of(url) || "https://"@.is_prefix_of(url)),
{
}

/// A requested TTL is granted as asked, cut down to the maximum when it is
/// longer; the default TTL plays no part in it. The default is granted,
/// likewise cut down, only when no TTL is requested.
pub proof fn requested_ttl_overrides_the_default(config: SessionConfig, other: SessionConfig, t: Ttl)
    ensures
        t@ <= config.max_ttl@ ==> config.effective_ttl_spec(Some(t)) == t,
        t@ > config.max_ttl@ ==> config.effective_ttl_spec(Some(t)) == config.max_ttl,
        other.max_ttl == config.max_ttl ==> other.effective_ttl_spec(Some(t))
            == config.effective_ttl_spec(Some(t)),
        config.default_ttl@ <= config.max_ttl@ ==> config.effective_ttl_spec(None)
            == config.default_ttl,
        config.default_ttl@ > config.max_ttl@ ==> config.effective_ttl_spec(None) == config.max_ttl,
{
}

impl SessionConfig {
    /// Create a Redis session configuration.
    ///
    /// `url` must start with `redis://` or `rediss://`.
    pub fn redis(url: &str) -> (r: SessionResult<Self>)
        ensures
            r is Ok <==> is_redis_url(url@),
            r is Ok <==> ("redis://"@.is_prefix_of(url@) || "rediss://"@.is_prefix_of(url@)),
            r matches Ok(c) ==> {
                &&& c.backend == SessionBackend::Redis
                &&& c.url@ == url@
                &&& c.database is None
                &&& has_default_settings(c)
            },
            r matches Err(e) ==> e matches SessionError::InvalidUrl(m)
                && m@ == "Redis URL must start with redis:// or rediss://"@,
    {
        if !starts_with(url, "redis://") && !starts_with(url, "rediss://") {
            return Err(
                SessionError::InvalidUrl(
                    "Redis URL must start with redis:// or rediss://".to_owned(),
                ),
            );
        }
        let d = Self::default();
        Ok(SessionConfig { backend: SessionBackend::Redis, url: url.to_owned(), ..d })
    }

    /// Create a Memcached session configuration.
    ///
    /// `url` must start with `memcache://`.
    pub fn memcached(url: &str) -> (r: SessionResult<Self>)
        ensures
            r is Ok <==> is_memcached_url(url@),
            r is Ok <==> "memcache://"@.is_prefix_of(url@),
            r matches Ok(c) ==> {
                &&& c.backend == SessionBackend::Memcached
                &&& c.url@ == url@
                &&& c.database is None
                &&& has_default_settings(c)
            },
            r matches Err(e) ==> e matches SessionError::InvalidUrl(m)
                && m@ == "Memcached URL must start with memcache://"@,
    {
        if !starts_with(url, "memcache://") {
            return Err(
                SessionError::InvalidUrl("Memcached URL must start with memcache://".to_owned()),
            );
        }
        let d = Self::default();
        Ok(SessionConfig { backend: SessionBackend::Memcached, url: url.to_owned(), ..d })
    }

    /// Create a CouchDB session configuration for the database `database`.
    ///
    /// `url` must start with `http://` or `https://`.
    pub fn couchdb(url: &str, database: &str) -> (r: SessionResult<Self>)
        ensures
            r is Ok <==> is_couchdb_url(url@),
            r is Ok <==> ("http://"@.is_prefix_of(url@) || "https://"@.is_prefix_of(url@)),
            r matches Ok(c) ==> {
                &&& c.backend == SessionBackend::CouchDb
                &&& c.url@ == url@
                &&& opt_view(c.database) == Some(database@)
                &&& has_default_settings(c)
            },
            r matches Err(e) ==> e matches SessionError::InvalidUrl(m)
                && m@ == "CouchDB URL must start with http:// or https://"@,
    {
        if !starts_with(url, "http://") && !starts_with(url, "https://") {
            return Err(
                SessionError::InvalidUrl(
                    "CouchDB URL must start with http:// or https://".to_owned(),
                ),
            );
        }
        let d = Self::default();
        Ok(
            SessionConfig {
                backend: SessionBackend::CouchDb,
                url: url.to_owned(),
                database: Some(database.to_owned()),
                ..d
            },
        )
    }

    /// Set the session namespace/prefix.
    pub fn with_namespace(self, namespace: &str) -> (r: Self)
        ensures
            r.namespace@ == namespace@,
            r == (SessionConfig { namespace: r.namespace, ..self }),
    {
        SessionConfig { namespace: namespace.to_owned(), ..self }
    }

    /// Set the default session TTL.
    pub fn with_default_ttl(self, ttl: Ttl) -> (r: Self)
        ensures
            r == (SessionConfig { default_ttl: ttl, ..self }),
    {
        SessionConfig { default_ttl: ttl, ..self }
    }

    /// Set the maximum session TTL.
    pub fn with_max_ttl(self, ttl: Ttl) -> (r: Self)
        ensures
            r == (SessionConfig { max_ttl: ttl, ..self }),
    {
        SessionConfig { max_ttl: ttl, ..self }
    }

    /// Set CouchDB authentication credentials.
    pub fn with_auth(self, username: &str, password: &str) -> (r: Self)
        ensures
            opt_view(r.username) == Some(username@),
            opt_view(r.password) == Some(password@),
            r == (SessionConfig { username: r.username, password: r.password, ..self }),
    {
        SessionConfig {
            username: Some(username.to_owned()),
            password: Some(password.to_owned()),
            ..self
        }
    }

    /// Build the session key with namespace: `{namespace}:{session_id}`.
    pub fn session_key(&self, session_id: &str) -> (r: String)
        ensures
            r@ == namespaced_key(self.namespace@, session_id@),
    {
        proof {
            reveal_strlit(":");
        }
        let prefix = concat(self.namespace.as_str(), ":");
        concat(prefix.as_str(), session_id)
    }

    /// The pattern matching every key of this namespace: `{namespace}:*`.
    pub fn key_pattern(&self) -> (r: String)
        ensures
            r@ == self.namespace@ + ":*"@,
    {
        concat(self.namespace.as_str(), ":*")
    }

    /// `ttl`, cut down to the configured maximum when it is longer.
    pub fn cap_ttl(&self, ttl: Ttl) -> (r: Ttl)
        ensures
            r == capped_ttl(ttl, self.max_ttl),
            r@ <= self.max_ttl@,
    {
        if ttl.is_longer_than(&self.max_ttl) {
            self.max_ttl
        } else {
            ttl
        }
    }

    /// The TTL of a new session: the one asked for, or the default when none
    /// is, cut down to the maximum.
    pub open spec fn effective_ttl_spec(&self, ttl: Option<Ttl>) -> Ttl {
        capped_ttl(
            match ttl {
                Some(t) => t,
                None => self.default_ttl,
            },
            self.max_ttl,
        )
    }

    /// The TTL of a new session: the one asked for, or the default when none
    /// is, cut down to the maximum.
    pub fn effective_ttl(&self, ttl: Option<Ttl>) -> (r: Ttl)
        ensures
            r == self.effective_ttl_spec(ttl),
            r@ <= self.max_ttl@,
            ttl matches Some(t) ==> (t@ <= self.max_ttl@ ==> r == t),
            ttl matches Some(t) ==> (t@ > self.max_ttl@ ==> r == self.max_ttl),
            ttl is None ==> (self.default_ttl@ <= self.max_ttl@ ==> r == self.default_ttl),
            ttl is None ==> (self.default_ttl@ > self.max_ttl@ ==> r == self.max_ttl),
    {
        let requested = match ttl {
            Some(t) => t,
            None => self.default_ttl,
        };
        self.cap_ttl(requested)
    }
}

} // verus!
