//! The answers the service gives that carry no captured output: the four
//! ways a run is refused or fails, and the liveness probe.

use vstd::prelude::*;

verus! {

/// Why a run produced no captured output.
#[derive(Clone, Copy, Debug, PartialEq, Eq, Structural)]
pub enum RunError {
    /// The time limit of the request could not be read as a duration.
    WrongTimeoutFormat,
    /// The language needs a checker and the request brought none.
    CheckerRequired,
    /// Preparing the jail, writing the sources, starting the child or
    /// collecting its output failed.
    Internal,
    /// The child was still running when the time limit passed.
    TimeLimitExceeded,
}

/// A status code with a plain-text body.
#[derive(Clone, Copy, Debug, PartialEq, Eq)]
pub struct TextReply {
    pub status: u16,
    pub body: &'static str,
}

impl RunError {
    /// The status code the failure is answered with.
    pub open spec fn status_code(self) -> u16 {
        match self {
            RunError::WrongTimeoutFormat => 400,
            RunError::CheckerRequired => 400,
            RunError::Internal => 500,
            RunError::TimeLimitExceeded => 408,
        }
    }

    /// The text the failure is answered with.
    pub open spec fn body_text(self) -> Seq<char> {
        match self {
            RunError::WrongTimeoutFormat => "wrong timeout format"@,
            RunError::CheckerRequired => "checker_text is required"@,
            RunError::Internal => "internal error"@,
            RunError::TimeLimitExceeded => "timelimit exceeded"@,
        }
    }

    /// Whether the fault lies with the request rather than with the service
    /// or the submitted program.
    pub open spec fn is_malformed_request(self) -> bool {
        self is WrongTimeoutFormat || self is CheckerRequired
    }

    /// The status code the failure is answered with.
    pub fn status(self) -> (code: u16)
        ensures
            code == self.status_code(),
    {
        match self {
            RunError::WrongTimeoutFormat => 400,
            RunError::CheckerRequired => 400,
            RunError::Internal => 500,
            RunError::TimeLimitExceeded => 408,
        }
    }

    /// The text the failure is answered with.
    pub fn message(self) -> (text: &'static str)
        ensures
            text@ == self.body_text(),
    {
        match self {
            RunError::WrongTimeoutFormat => "wrong timeout format",
            RunError::CheckerRequired => "checker_text is required",
            RunError::Internal => "internal error",
            RunError::TimeLimitExceeded => "timelimit exceeded",
        }
    }

    /// The whole answer to a run that failed this way.
    pub fn reply(self) -> (r: TextReply)
        ensures
            r.status == self.status_code(),
            r.body@ == self.body_text(),
    {
        TextReply { status: self.status(), body: self.message() }
    }
}

/// Answer to the liveness probe: success, with nothing in the body.
pub fn health() -> (r: TextReply)
    ensures
        r.status == 200,
        r.body@ == Seq::<char>::empty(),
{
    let body: &'static str = "";
    proof {
        reveal_strlit("");
        assert(body@ =~= Seq::<char>::empty());
    }
    TextReply { status: 200, body }
}

} // verus!
