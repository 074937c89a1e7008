use stream_gateway::error::StreamingError;
use stream_gateway::session::{SessionStore, User};

fn user(id: &str, bitrate: u32) -> User {
    User { id: id.to_string(), current_bitrate: bitrate }
}

#[test]
fn register_then_get_returns_copy() {
    let mut store = SessionStore::new();
    store.register_user(user("u1", 720));
    let s = store.get_session("u1").expect("registered");
    assert_eq!(s.id, "u1");
    assert_eq!(s.current_bitrate, 720);
}

#[test]
fn get_unknown_session_fails() {
    let store = SessionStore::new();
    assert_eq!(store.get_session("nobody").unwrap_err(), StreamingError::UserNotFound);
}

#[test]
fn update_unregistered_fails_and_creates_nothing() {
    let mut store = SessionStore::new();
    assert_eq!(store.set_user_bitrate("ghost", 1080), Err(StreamingError::UserNotFound));
    assert_eq!(store.set_user_bitrate("ghost", 480), Err(StreamingError::UserNotFound));
    assert_eq!(store.get_session("ghost").unwrap_err(), StreamingError::UserNotFound);
}

#[test]
fn update_replaces_bitrate() {
    let mut store = SessionStore::new();
    store.register_user(user("u1", 0));
    store.register_user(user("u2", 360));
    assert_eq!(store.set_user_bitrate("u1", 1080), Ok(()));
    assert_eq!(store.get_session("u1").unwrap().current_bitrate, 1080);
    assert_eq!(store.get_session("u2").unwrap().current_bitrate, 360);
}

#[test]
fn last_completed_write_wins() {
    let mut store = SessionStore::new();
    assert!(store.set_user_bitrate("u1", 111).is_err());
    store.register_user(user("u1", 240));
    assert!(store.set_user_bitrate("u1", 480).is_ok());
    store.register_user(user("u1", 720));
    assert!(store.set_user_bitrate("u1", 1080).is_ok());
    assert_eq!(store.get_session("u1").unwrap().current_bitrate, 1080);
    store.register_user(user("u1", 360));
    assert_eq!(store.get_session("u1").unwrap().current_bitrate, 360);
}

#[test]
fn register_twice_same_as_once() {
    let mut once = SessionStore::new();
    once.register_user(user("u1", 720));
    let mut twice = SessionStore::new();
    twice.register_user(user("u1", 720));
    twice.register_user(user("u1", 720));
    let a = once.get_session("u1").unwrap();
    let b = twice.get_session("u1").unwrap();
    assert_eq!(a.id, b.id);
    assert_eq!(a.current_bitrate, b.current_bitrate);
    assert_eq!(twice.set_user_bitrate("u1", 480), once.set_user_bitrate("u1", 480));
    assert!(twice.get_session("u2").is_err());
}

#[test]
fn error_messages() {
    assert_eq!(StreamingError::LockPoisoned.message(), "Mutex lock has been poisoned");
    assert_eq!(StreamingError::UserNotFound.message(), "User not found");
    assert_eq!(StreamingError::VideoNotFound.message(), "Video not found");
}
