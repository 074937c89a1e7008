use vstd::prelude::*;
use vstd::rwlock::{RwLock, RwLockPredicate};
use crate::catalog::VideoRepository;
use crate::error::StreamingError;
use crate::session::{SessionStore, User};

verus! {

/// What the lock around the sessions keeps true between operations.
pub struct SessionsWellFormed;

impl RwLockPredicate<SessionStore> for SessionsWellFormed {
    open spec fn inv(self, v: SessionStore) -> bool {
        v.wf()
    }
}

/// A stream that may start: which video, to whom, at which bitrate.
#[derive(Clone, Debug, PartialEq, Eq)]
pub struct StreamGrant {
    pub video_id: String,
    pub user_id: String,
    pub bitrate: u32,
}

/// The sessions shared by all request handlers, and the catalog.
///
/// Every operation on the sessions holds the lock for its whole duration, so
/// no handler observes a partial update. Code holding the lock is verified and
/// cannot fail while it holds it, so the lock is never left broken and
/// `StreamingError::LockPoisoned` never comes out of this service.
pub struct StreamingService {
    user_sessions: RwLock<SessionStore, SessionsWellFormed>,
    videos: VideoRepository,
}

impl StreamingService {
    /// The catalog is well formed.
    pub closed spec fn wf(&self) -> bool {
        self.videos.wf()
    }

    /// The catalog, identifier to bitrate ladder.
    pub closed spec fn catalog(&self) -> Map<Seq<char>, Seq<u32>> {
        self.videos@
    }

    /// A service over the catalog `videos`, with no sessions yet.
    pub fn new(videos: VideoRepository) -> (r: StreamingService)
        requires
            videos.wf(),
        ensures
            r.wf(),
            r.catalog() == videos@,
    {
        let store = SessionStore::new();
        StreamingService {
            user_sessions: RwLock::new(store, Ghost(SessionsWellFormed)),
            videos,
        }
    }

    /// Inserts or replaces the session of `user`; it always succeeds.
    pub fn register_user(&self, user: User) -> (r: Result<(), StreamingError>)
        ensures
            r is Ok,
    {
        let (mut store, handle) = self.user_sessions.acquire_write();
        store.register_user(user);
        handle.release_write(store);
        Ok(())
    }

    /// Replaces the bitrate of the session of `user_id`, or fails with
    /// `UserNotFound` when, at the moment the lock is held, it has none.
    pub fn set_user_bitrate(&self, user_id: &str, bitrate: u32) -> (r: Result<(), StreamingError>)
        ensures
            r is Err ==> r == Err::<(), StreamingError>(StreamingError::UserNotFound),
    {
        let (mut store, handle) = self.user_sessions.acquire_write();
        let r = store.set_user_bitrate(user_id, bitrate);
        handle.release_write(store);
        r
    }

    /// A copy of the session of `user_id` as it stands while the lock is
    /// held, or `UserNotFound`.
    pub fn get_session(&self, user_id: &str) -> (r: Result<User, StreamingError>)
        ensures
            r is Err ==> r == Err::<User, StreamingError>(StreamingError::UserNotFound),
            r matches Ok(u) ==> u.id@ == user_id@,
    {
        let handle = self.user_sessions.acquire_read();
        let r = handle.borrow().get_session(user_id);
        handle.release_read();
        r
    }

    /// Decides whether `video_id` may be streamed to `user_id`: the user's
    /// session is looked up first, then the video.
    pub fn initiate_streaming(&self, user_id: &str, video_id: &str) -> (r: Result<StreamGrant, StreamingError>)
        requires
            self.wf(),
        ensures
            r is Err ==> r == Err::<StreamGrant, StreamingError>(StreamingError::UserNotFound) || r
                == Err::<StreamGrant, StreamingError>(StreamingError::VideoNotFound),
            r == Err::<StreamGrant, StreamingError>(StreamingError::VideoNotFound) ==> !self.catalog().contains_key(video_id@),
            !self.catalog().contains_key(video_id@) ==> r is Err,
            r matches Ok(g) ==> g.user_id@ == user_id@ && g.video_id@ == video_id@,
    {
        let session = self.get_session(user_id);
        stream_with_session(&self.videos, session, video_id)
    }
}

/// What streaming `video_id` comes to, given the outcome of the session lookup:
/// the lookup's error, `VideoNotFound`, or a grant at the session's bitrate.
pub fn stream_with_session(
    videos: &VideoRepository,
    session: Result<User, StreamingError>,
    video_id: &str,
) -> (r: Result<StreamGrant, StreamingError>)
    requires
        videos.wf(),
    ensures
        match session {
            Err(e) => r == Err::<StreamGrant, StreamingError>(e),
            Ok(u) => if videos@.contains_key(video_id@) {
                r matches Ok(g) && g.video_id@ == video_id@ && g.user_id@ == u.id@ && g.bitrate == u.current_bitrate
            } else {
                r == Err::<StreamGrant, StreamingError>(StreamingError::VideoNotFound)
            },
        },
{
    match session {
        Err(e) => Err(e),
        Ok(user) => match videos.find_video_by_id(video_id) {
            Some(_) => Ok(StreamGrant {
                video_id: video_id.to_owned(),
                user_id: user.id,
                bitrate: user.current_bitrate,
            }),
            None => Err(StreamingError::VideoNotFound),
        },
    }
}

} // verus!
