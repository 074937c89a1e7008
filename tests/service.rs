use stream_gateway::catalog::{Video, VideoRepository};
use stream_gateway::error::StreamingError;
use stream_gateway::service::{stream_with_session, StreamGrant, StreamingService};
use stream_gateway::session::User;

fn catalog() -> VideoRepository {
    let mut repo = VideoRepository::new();
    repo.add_video(Video { id: "v1".to_string(), bitrates: vec![360, 720, 1080] });
    repo
}

fn user(id: &str, bitrate: u32) -> User {
    User { id: id.to_string(), current_bitrate: bitrate }
}

#[test]
fn service_register_and_update() {
    let service = StreamingService::new(catalog());
    assert_eq!(service.register_user(user("u1", 720)), Ok(()));
    assert_eq!(service.set_user_bitrate("u1", 1080), Ok(()));
    assert_eq!(service.get_session("u1").unwrap().current_bitrate, 1080);
}

#[test]
fn service_update_ghost_fails() {
    let service = StreamingService::new(catalog());
    assert_eq!(service.set_user_bitrate("ghost", 1080), Err(StreamingError::UserNotFound));
    assert_eq!(service.get_session("ghost").unwrap_err(), StreamingError::UserNotFound);
}

#[test]
fn initiate_streaming_grants_current_bitrate() {
    let service = StreamingService::new(catalog());
    service.register_user(user("u1", 720)).unwrap();
    let grant = service.initiate_streaming("u1", "v1").expect("both known");
    assert_eq!(
        grant,
        StreamGrant { video_id: "v1".to_string(), user_id: "u1".to_string(), bitrate: 720 }
    );
}

#[test]
fn initiate_streaming_unknown_user_first() {
    let service = StreamingService::new(catalog());
    assert_eq!(service.initiate_streaming("u9", "v1"), Err(StreamingError::UserNotFound));
    assert_eq!(service.initiate_streaming("u9", "v9"), Err(StreamingError::UserNotFound));
}

#[test]
fn initiate_streaming_unknown_video() {
    let service = StreamingService::new(catalog());
    service.register_user(user("u1", 720)).unwrap();
    assert_eq!(service.initiate_streaming("u1", "v9"), Err(StreamingError::VideoNotFound));
}

#[test]
fn stream_with_session_cases() {
    let repo = catalog();
    assert_eq!(
        stream_with_session(&repo, Err(StreamingError::LockPoisoned), "v1"),
        Err(StreamingError::LockPoisoned)
    );
    assert_eq!(
        stream_with_session(&repo, Ok(user("u2", 480)), "v1"),
        Ok(StreamGrant { video_id: "v1".to_string(), user_id: "u2".to_string(), bitrate: 480 })
    );
    assert_eq!(
        stream_with_session(&repo, Ok(user("u2", 480)), "missing"),
        Err(StreamingError::VideoNotFound)
    );
}

#[test]
fn updates_end_with_last_written() {
    let service = StreamingService::new(catalog());
    service.register_user(user("u1", 0)).unwrap();
    let written = [240u32, 480, 720, 1080];
    for b in written {
        service.set_user_bitrate("u1", b).unwrap();
    }
    assert_eq!(service.get_session("u1").unwrap().current_bitrate, 1080);
}
