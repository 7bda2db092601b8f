use armature_session::config::{SessionBackend, SessionConfig};
use armature_session::error::SessionError;
use armature_session::time::Ttl;

#[test]
fn test_doc_id_generation() {
    let config = SessionConfig::couchdb("http://localhost:5984", "sessions").unwrap();
    // Can't test against actual CouchDB here, just the config helper.
    assert!(config.session_key("test-id").starts_with("session:"));
}

#[test]
fn memcached_session_test_session_key_generation() {
    let config = SessionConfig::memcached("memcache://localhost:11211").unwrap();
    assert!(config.session_key("test-id").starts_with("session:"));
}

#[test]
fn redis_session_test_session_key_generation() {
    let config = SessionConfig::redis("redis://localhost:6379").unwrap();
    assert!(config.session_key("test-id").starts_with("session:"));
}

#[test]
fn default_config_values() {
    let config = SessionConfig::default();
    assert_eq!(config.backend, SessionBackend::Redis);
    assert_eq!(config.url, "redis://localhost:6379");
    assert_eq!(config.namespace, "session");
    assert_eq!(config.default_ttl, Ttl::from_secs(3600));
    assert_eq!(config.max_ttl, Ttl::from_secs(604800));
    assert!(config.database.is_none());
    assert!(config.username.is_none());
    assert!(config.password.is_none());
}

#[test]
fn redis_config_accepts_both_schemes() {
    let plain = SessionConfig::redis("redis://localhost:6379").unwrap();
    assert_eq!(plain.backend, SessionBackend::Redis);
    assert_eq!(plain.url, "redis://localhost:6379");
    let tls = SessionConfig::redis("rediss://cache.example.com:6380").unwrap();
    assert_eq!(tls.url, "rediss://cache.example.com:6380");
    assert_eq!(tls.namespace, "session");
}

#[test]
fn redis_config_rejects_other_schemes() {
    for url in ["http://localhost", "redis:/localhost", "", "REDIS://x", " redis://x"] {
        match SessionConfig::redis(url) {
            Err(SessionError::InvalidUrl(m)) => {
                assert_eq!(m, "Redis URL must start with redis:// or rediss://")
            }
            _ => panic!("expected InvalidUrl for {url:?}"),
        }
    }
}

#[test]
fn memcached_config_checks_scheme() {
    let c = SessionConfig::memcached("memcache://localhost:11211").unwrap();
    assert_eq!(c.backend, SessionBackend::Memcached);
    assert_eq!(c.url, "memcache://localhost:11211");
    match SessionConfig::memcached("memcached://localhost") {
        Err(SessionError::InvalidUrl(m)) => assert_eq!(m, "Memcached URL must start with memcache://"),
        _ => panic!("expected InvalidUrl"),
    }
}

#[test]
fn couchdb_config_checks_scheme_and_keeps_database() {
    let c = SessionConfig::couchdb("https://db.example.com", "sessions").unwrap();
    assert_eq!(c.backend, SessionBackend::CouchDb);
    assert_eq!(c.database.as_deref(), Some("sessions"));
    assert!(SessionConfig::couchdb("http://localhost:5984", "s").is_ok());
    match SessionConfig::couchdb("ftp://localhost", "sessions") {
        Err(SessionError::InvalidUrl(m)) => {
            assert_eq!(m, "CouchDB URL must start with http:// or https://")
        }
        _ => panic!("expected InvalidUrl"),
    }
}

#[test]
fn builders_change_only_their_field() {
    let c = SessionConfig::redis("redis://localhost:6379")
        .unwrap()
        .with_namespace("myapp:session")
        .with_default_ttl(Ttl::from_secs(60))
        .with_max_ttl(Ttl::from_secs(120))
        .with_auth("admin", "password");
    assert_eq!(c.namespace, "myapp:session");
    assert_eq!(c.default_ttl, Ttl::from_secs(60));
    assert_eq!(c.max_ttl, Ttl::from_secs(120));
    assert_eq!(c.username.as_deref(), Some("admin"));
    assert_eq!(c.password.as_deref(), Some("password"));
    assert_eq!(c.url, "redis://localhost:6379");
    assert_eq!(c.backend, SessionBackend::Redis);
}

#[test]
fn session_key_joins_namespace_and_id() {
    let c = SessionConfig::default().with_namespace("myapp");
    assert_eq!(c.session_key("abc"), "myapp:abc");
    assert_eq!(c.session_key(""), "myapp:");
    assert_eq!(c.key_pattern(), "myapp:*");
}

#[test]
fn ttl_is_capped_at_the_maximum() {
    let c = SessionConfig::default()
        .with_default_ttl(Ttl::from_secs(100))
        .with_max_ttl(Ttl::from_secs(500));
    assert_eq!(c.cap_ttl(Ttl::from_secs(501)), Ttl::from_secs(500));
    assert_eq!(c.cap_ttl(Ttl::new(500, 1)), Ttl::from_secs(500));
    assert_eq!(c.cap_ttl(Ttl::from_secs(500)), Ttl::from_secs(500));
    assert_eq!(c.cap_ttl(Ttl::from_secs(20)), Ttl::from_secs(20));
    assert_eq!(c.effective_ttl(None), Ttl::from_secs(100));
    assert_eq!(c.effective_ttl(Some(Ttl::from_secs(9000))), Ttl::from_secs(500));
    let small_max = c.with_max_ttl(Ttl::from_secs(10));
    assert_eq!(small_max.effective_ttl(None), Ttl::from_secs(10));
}

#[test]
fn credentials_need_both_parts() {
    let c = SessionConfig::default();
    assert!(c.credentials().is_none());
    let mut half = SessionConfig::default();
    half.username = Some("admin".to_string());
    assert!(half.credentials().is_none());
    let full = SessionConfig::default().with_auth("u", "p");
    let (u, p) = full.credentials().unwrap();
    assert_eq!(u, "u");
    assert_eq!(p, "p");
}
