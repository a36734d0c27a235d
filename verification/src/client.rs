//! What a client makes of the answers of the server.

use vstd::prelude::*;

verus! {

/// Status code of an accepted submission.
pub const ACCEPTED: u16 = 202;

/// Status code of a result that is there.
pub const FOUND: u16 = 302;

/// Status code of a description that did not pass validation.
pub const BAD_REQUEST: u16 = 400;

/// Status code of a request that was not authorized.
pub const UNAUTHORIZED: u16 = 401;

/// Status code of a job that the server does not know.
pub const NOT_FOUND: u16 = 404;

/// Status code of a request that comes too early: the queue is full, or the
/// job has not finished.
pub const TOO_EARLY: u16 = 425;

/// Status code of a server whose executor no longer takes jobs.
pub const INTERNAL_ERROR: u16 = 500;

/// Seconds that a client waits before it asks again.
pub const POLL_PAUSE_SECS: u64 = 1;

/// What the answer to a submission means.
#[derive(Debug, Clone, Copy, PartialEq, Eq, Structural)]
pub enum Submission {
    /// The job was accepted; the answer holds the job.
    Accepted,
    /// The description was refused; the answer holds the problems.
    Invalid,
    /// The token was not accepted.
    Unauthorized,
    /// Anything else.
    Unexpected { status: u16 },
}

/// What the answer to a submission with the given status code means.
pub open spec fn submission_of(status: u16) -> Submission {
    if status == ACCEPTED {
        Submission::Accepted
    } else if status == BAD_REQUEST {
        Submission::Invalid
    } else if status == UNAUTHORIZED {
        Submission::Unauthorized
    } else {
        Submission::Unexpected { status }
    }
}

/// Reads the status code of the answer to a submission.
pub fn read_submission(status: u16) -> (r: Submission)
    ensures
        r == submission_of(status),
{
    if status == ACCEPTED {
        Submission::Accepted
    } else if status == BAD_REQUEST {
        Submission::Invalid
    } else if status == UNAUTHORIZED {
        Submission::Unauthorized
    } else {
        Submission::Unexpected { status }
    }
}

/// What a client does after an answer to its query for a result.
#[derive(Debug, Clone, Copy, PartialEq, Eq, Structural)]
pub enum Poll {
    /// The result is there; the answer holds it.
    Ready,
    /// The job has not finished: wait and ask again.
    Wait { secs: u64 },
    /// The server does not know the job, though it accepted it.
    Lost,
    /// Anything else.
    Unexpected { status: u16 },
}

/// What a client does after an answer with the given status code.
pub open spec fn poll_of(status: u16) -> Poll {
    if status == NOT_FOUND {
        Poll::Lost
    } else if status == FOUND {
        Poll::Ready
    } else if status == TOO_EARLY {
        Poll::Wait { secs: POLL_PAUSE_SECS }
    } else {
        Poll::Unexpected { status }
    }
}

/// Reads the status code of the answer to a query for a result.
pub fn read_poll(status: u16) -> (r: Poll)
    ensures
        r == poll_of(status),
{
    if status == NOT_FOUND {
        Poll::Lost
    } else if status == FOUND {
        Poll::Ready
    } else if status == TOO_EARLY {
        Poll::Wait { secs: POLL_PAUSE_SECS }
    } else {
        Poll::Unexpected { status }
    }
}

} // verus!
