use armature_session::error::SessionError;
use armature_session::memcached_session::{count_sessions, save_expiration_at};
use armature_session::config::SessionConfig;
use armature_session::redis_session::{open_client, save_ttl_secs, save_ttl_secs_at, ScanSweep, SCAN_COUNT};
use armature_session::session::Session;
use armature_session::time::{Timestamp, Ttl};

fn at(secs: i64, nanos: u32) -> Timestamp {
    Timestamp::from_parts(secs, nanos).unwrap()
}

/// The cursored SCAN loop of `count`, driven by the library's sweep over
/// batches that a Redis server would return.
fn scan_count_model(batches: &[(u64, Vec<&str>)]) -> usize {
    let mut sweep = ScanSweep::new();
    let mut idx = 0usize;
    while !sweep.is_finished() {
        assert_eq!(sweep.cursor(), if idx == 0 { 0 } else { batches[idx - 1].0 });
        let (next, keys) = &batches[idx];
        sweep.count_batch(*next, keys.len());
        idx += 1;
    }
    sweep.total()
}

#[test]
fn test_scan_loop_accumulates_across_batches() {
    // Non-zero cursors chain batches; a final zero cursor ends the sweep.
    let batches = vec![
        (42u64, vec!["session:a", "session:b"]),
        (7u64, vec!["session:c"]),
        (0u64, vec!["session:d", "session:e"]),
    ];
    assert_eq!(scan_count_model(&batches), 5);
}

#[test]
fn test_scan_loop_single_empty_batch() {
    // An immediately-complete sweep (cursor 0, no keys) counts zero.
    let batches = vec![(0u64, vec![])];
    assert_eq!(scan_count_model(&batches), 0);
}

#[test]
fn scan_sweep_for_clearing() {
    let mut sweep = ScanSweep::new();
    assert!(!ScanSweep::has_keys(0));
    assert!(ScanSweep::has_keys(3));
    sweep.advance(9);
    assert_eq!(sweep.cursor(), 9);
    assert!(!sweep.is_finished());
    sweep.advance(0);
    assert!(sweep.is_finished());
    assert_eq!(sweep.total(), 0);
    assert_eq!(SCAN_COUNT, 500);
}

#[test]
fn redis_save_uses_whole_seconds_left() {
    let s = Session::new_at("id-1", Ttl::from_secs(3600), at(1_000, 0)).unwrap();
    assert_eq!(save_ttl_secs_at(&s, at(1_000, 0)).unwrap(), 3600);
    assert_eq!(save_ttl_secs_at(&s, at(1_000, 1)).unwrap(), 3599);
    assert_eq!(save_ttl_secs_at(&s, at(4_599, 0)).unwrap(), 1);
    assert!(save_ttl_secs(&s).is_err());
}

#[test]
fn redis_save_refuses_sessions_without_a_second_left() {
    let s = Session::new_at("id-2", Ttl::new(0, 900_000_000), at(1_000, 0)).unwrap();
    match save_ttl_secs_at(&s, at(1_000, 0)) {
        Err(SessionError::Expired(id)) => assert_eq!(id, "id-2"),
        _ => panic!("expected Expired"),
    }
    let old = Session::new_at("id-3", Ttl::from_secs(5), at(1_000, 0)).unwrap();
    assert!(matches!(save_ttl_secs_at(&old, at(2_000, 0)), Err(SessionError::Expired(_))));
    let fresh = Session::new("id-4", Ttl::from_secs(60)).unwrap();
    let secs = save_ttl_secs(&fresh).unwrap();
    assert!(secs == 59 || secs == 60);
}

#[test]
fn memcached_expiration_is_cut_to_32_bits() {
    let s = Session::new_at("m", Ttl::from_secs(3600), at(0, 0)).unwrap();
    assert_eq!(save_expiration_at(&s, at(0, 0)), Some(3600));
    assert_eq!(save_expiration_at(&s, at(3600, 0)), None);
    assert_eq!(save_expiration_at(&s, at(3599, 500_000_000)), None);
    let long = Session::new_at("m", Ttl::from_secs((1u64 << 32) + 5), at(0, 0)).unwrap();
    assert_eq!(save_expiration_at(&long, at(0, 0)), Some(5));
    let exact = Session::new_at("m", Ttl::from_secs(1u64 << 32), at(0, 0)).unwrap();
    assert_eq!(save_expiration_at(&exact, at(0, 0)), None);
}

#[test]
fn memcached_cannot_count() {
    match count_sessions() {
        Err(SessionError::Other(m)) => {
            assert_eq!(m, "Memcached does not support counting sessions by prefix")
        }
        _ => panic!("expected an error"),
    }
}

#[test]
fn redis_clients_open_without_connecting() {
    let config = SessionConfig::redis("redis://localhost:6379").unwrap();
    assert!(open_client(&config).is_ok());
    let mut bad = SessionConfig::redis("redis://localhost:6379").unwrap();
    bad.url = "redis://localhost:notaport".to_string();
    let expected = match redis::Client::open("redis://localhost:notaport") {
        Err(e) => e.to_string(),
        Ok(_) => panic!("the port does not parse"),
    };
    assert!(!expected.is_empty());
    match open_client(&bad) {
        Err(SessionError::Connection(message)) => assert_eq!(message, expected),
        _ => panic!("a Connection error was expected"),
    }
}
