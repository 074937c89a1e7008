use vstd::prelude::*;

verus! {

/// Why an operation on the sessions or the catalog did not complete.
#[derive(Clone, Copy, Debug, PartialEq, Eq, Structural)]
pub enum StreamingError {
    /// The lock guarding the sessions can no longer guarantee exclusive access.
    LockPoisoned,
    /// No session exists for the user.
    UserNotFound,
    /// The catalog holds no video with the identifier.
    VideoNotFound,
}

impl StreamingError {
    /// A sentence describing the error, for logs and response bodies.
    pub fn message(&self) -> (r: &'static str)
        ensures
            r@ == match *self {
                StreamingError::LockPoisoned => "Mutex lock has been poisoned"@,
                StreamingError::UserNotFound => "User not found"@,
                StreamingError::VideoNotFound => "Video not found"@,
            },
    {
        match *self {
            StreamingError::LockPoisoned => "Mutex lock has been poisoned",
            StreamingError::UserNotFound => "User not found",
            StreamingError::VideoNotFound => "Video not found",
        }
    }
}

} // verus!
