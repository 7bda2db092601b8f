use armature_session::config::SessionConfig;
use armature_session::session::{generate_session_id, Session, SessionData};
use armature_session::time::{Timestamp, Ttl};
use serde_json::Value;

fn at(secs: i64) -> Timestamp {
    Timestamp::from_parts(secs, 0).unwrap()
}

fn is_random_uuid(s: &str) -> bool {
    let b: Vec<char> = s.chars().collect();
    b.len() == 36
        && b.iter().enumerate().all(|(i, c)| {
            if i == 8 || i == 13 || i == 18 || i == 23 {
                *c == '-'
            } else {
                c.is_ascii_digit() || ('a'..='f').contains(c)
            }
        })
        && b[14] == '4'
        && "89ab".contains(b[19])
}

#[test]
fn generated_ids_are_random_uuids() {
    let a = generate_session_id();
    let b = generate_session_id();
    assert!(is_random_uuid(&a), "{a}");
    assert!(is_random_uuid(&b), "{b}");
    assert_ne!(a, b);
}

#[test]
fn new_session_starts_empty_and_live() {
    let now = at(1_700_000_000);
    let s = Session::new_at("abc", Ttl::from_secs(3600), now).unwrap();
    assert_eq!(s.id, "abc");
    assert_eq!(s.created_at, now);
    assert_eq!(s.last_accessed_at, now);
    assert_eq!(s.expires_at, at(1_700_003_600));
    assert!(s.user_agent.is_none());
    assert!(s.ip_address.is_none());
    assert!(s.keys().is_empty());
    assert!(!s.is_expired_at(now));
    assert!(!s.is_expired_at(at(1_700_003_600)));
    assert!(s.is_expired_at(Timestamp::from_parts(1_700_003_600, 1).unwrap()));
}

#[test]
fn new_session_from_the_clock() {
    let s = Session::new("abc", Ttl::from_secs(3600)).unwrap();
    assert_eq!(s.created_at, s.last_accessed_at);
    assert_eq!(s.expires_at.secs() - s.created_at.secs(), 3600);
    assert!(!s.is_expired());
}

#[test]
fn new_session_past_the_latest_instant_is_refused() {
    let late = Timestamp::from_parts(8_210_266_876_799, 0).unwrap();
    assert!(Session::new_at("abc", Ttl::from_secs(1), late).is_none());
    assert!(Session::new_at("abc", Ttl::from_secs(0), late).is_some());
}

#[test]
fn expired_sessions_are_screened_out() {
    let s = Session::new_at("abc", Ttl::from_secs(10), at(100)).unwrap();
    assert!(Session::new_at("abc", Ttl::from_secs(10), at(100))
        .unwrap()
        .unless_expired_at(at(110))
        .is_some());
    assert!(s.unless_expired_at(at(111)).is_none());
    let live = Session::new("x", Ttl::from_secs(60)).unwrap();
    assert!(live.unless_expired().is_some());
    let dead = Session::new_at("y", Ttl::from_secs(1), at(0)).unwrap();
    assert!(dead.unless_expired().is_none());
}

#[test]
fn values_read_back_after_set() {
    let mut s = Session::new_at("abc", Ttl::from_secs(10), at(0)).unwrap();
    s.set("user_id", Value::from(123));
    s.set("username", Value::from("alice"));
    assert_eq!(s.get("user_id"), Some(&Value::from(123)));
    assert_eq!(s.get("username"), Some(&Value::from("alice")));
    assert!(s.contains("user_id"));
    assert!(!s.contains("missing"));
    assert_eq!(s.get("missing"), None);
    s.set("user_id", Value::from(7));
    assert_eq!(s.get("user_id"), Some(&Value::from(7)));
    let mut keys: Vec<String> = s.keys().into_iter().cloned().collect();
    keys.sort();
    assert_eq!(keys, vec!["user_id".to_string(), "username".to_string()]);
}

#[test]
fn removed_values_are_gone() {
    let mut s = Session::new_at("abc", Ttl::from_secs(10), at(0)).unwrap();
    s.set("a", Value::from(1));
    s.set("b", Value::from(2));
    s.set("c", Value::from(3));
    assert_eq!(s.remove("b"), Some(Value::from(2)));
    assert_eq!(s.remove("b"), None);
    assert!(!s.contains("b"));
    assert_eq!(s.get("a"), Some(&Value::from(1)));
    assert_eq!(s.get("c"), Some(&Value::from(3)));
    s.clear();
    assert!(s.keys().is_empty());
    assert!(!s.contains("a"));
}

#[test]
fn session_data_on_its_own() {
    let mut d = SessionData::new();
    assert!(!d.contains_key("k"));
    d.insert("k", Value::Bool(true));
    assert_eq!(d.get("k"), Some(&Value::Bool(true)));
    assert_eq!(d.keys().len(), 1);
    assert_eq!(d.remove("k"), Some(Value::Bool(true)));
    assert!(d.keys().is_empty());
}

#[test]
fn touch_and_extend_move_timestamps() {
    let mut s = Session::new_at("abc", Ttl::from_secs(10), at(100)).unwrap();
    s.touch_at(at(105));
    assert_eq!(s.last_accessed_at, at(105));
    assert_eq!(s.created_at, at(100));
    assert!(s.extend_at(Ttl::from_secs(60), at(106)));
    assert_eq!(s.expires_at, at(166));
    let late = Timestamp::from_parts(8_210_266_876_799, 0).unwrap();
    assert!(!s.extend_at(Ttl::from_secs(5), late));
    assert_eq!(s.expires_at, at(166));
    let before = s.last_accessed_at;
    s.touch();
    assert!(s.last_accessed_at.is_after(&before));
    assert!(s.extend(Ttl::from_secs(30)));
    assert!(!s.is_expired());
}

#[test]
fn user_agent_and_ip_address() {
    let s = Session::new_at("abc", Ttl::from_secs(10), at(0))
        .unwrap()
        .with_user_agent("Mozilla/5.0")
        .with_ip_address("10.0.0.1");
    assert_eq!(s.user_agent.as_deref(), Some("Mozilla/5.0"));
    assert_eq!(s.ip_address.as_deref(), Some("10.0.0.1"));
    assert_eq!(s.id, "abc");
}

#[test]
fn config_creates_sessions_with_capped_ttl() {
    let c = SessionConfig::default()
        .with_default_ttl(Ttl::from_secs(100))
        .with_max_ttl(Ttl::from_secs(50));
    let s = c.new_session(None).unwrap();
    assert!(is_random_uuid(&s.id));
    assert_eq!(s.expires_at.secs() - s.created_at.secs(), 50);
    let t = c.new_session(Some(Ttl::from_secs(20))).unwrap();
    assert_eq!(t.expires_at.secs() - t.created_at.secs(), 20);
}

#[test]
fn data_rebuilds_from_its_keys_and_values() {
    let mut d = SessionData::new();
    d.insert("a", Value::from(1));
    d.insert("b", Value::from("two"));
    d.insert("c", Value::Null);
    let mut rebuilt = SessionData::new();
    for k in d.keys().into_iter().rev() {
        rebuilt.insert(k, d.get(k).unwrap().clone());
    }
    assert_eq!(rebuilt.keys().len(), 3);
    for k in ["a", "b", "c"] {
        assert_eq!(rebuilt.get(k), d.get(k));
    }
    let copy = d.clone();
    assert_eq!(copy.get("b"), Some(&Value::from("two")));
    assert_eq!(copy.keys().len(), 3);
}
