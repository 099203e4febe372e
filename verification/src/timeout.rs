//! The wall-clock limit of a run and how it is read from a request.

use crate::reply::RunError;
use vstd::prelude::*;

verus! {

/// Nanoseconds in one second.
pub const NANOS_PER_SEC: u32 = 1_000_000_000;

/// Seconds a run may take when the request names no limit.
pub const DEFAULT_TIMEOUT_SECS: u64 = 30;

/// The length, in nanoseconds, of `secs` seconds and `nanos` nanoseconds.
pub open spec fn span_nanos(secs: u64, nanos: u32) -> nat {
    (secs as nat) * (NANOS_PER_SEC as nat) + nanos as nat
}

/// A span of wall-clock time, kept as whole seconds and a part of a second.
#[derive(Clone, Copy, Debug, PartialEq, Eq)]
pub struct Timeout {
    secs: u64,
    nanos: u32,
}

impl View for Timeout {
    type V = nat;

    /// The span in nanoseconds.
    closed spec fn view(&self) -> nat {
        span_nanos(self.secs, self.nanos)
    }
}

impl Timeout {
    #[verifier::type_invariant]
    spec fn part_is_below_a_second(self) -> bool {
        self.nanos < NANOS_PER_SEC
    }

    /// A span of whole seconds.
    pub fn from_secs(secs: u64) -> (t: Timeout)
        ensures
            t@ == span_nanos(secs, 0),
    {
        Timeout { secs, nanos: 0 }
    }

    /// The span of `secs` seconds and `nanos` nanoseconds, if `nanos` is
    /// less than a second.
    pub fn new(secs: u64, nanos: u32) -> (t: Option<Timeout>)
        ensures
            t is Some <==> nanos < NANOS_PER_SEC,
            t matches Some(t) ==> t@ == span_nanos(secs, nanos),
    {
        if nanos < NANOS_PER_SEC {
            Some(Timeout { secs, nanos })
        } else {
            None
        }
    }

    /// The limit that applies when a request names none.
    pub fn default_limit() -> (t: Timeout)
        ensures
            t@ == span_nanos(DEFAULT_TIMEOUT_SECS, 0),
    {
        Timeout::from_secs(DEFAULT_TIMEOUT_SECS)
    }

    /// The whole seconds of the span.
    pub fn as_secs(&self) -> (secs: u64)
        ensures
            secs == self@ / (NANOS_PER_SEC as nat),
    {
        proof {
            use_type_invariant(self);
        }
        self.secs
    }

    /// What of the span is left over its whole seconds, in nanoseconds.
    pub fn subsec_nanos(&self) -> (nanos: u32)
        ensures
            nanos == self@ % (NANOS_PER_SEC as nat),
    {
        proof {
            use_type_invariant(self);
        }
        self.nanos
    }
}

/// What `duration_str::parse` makes of a text: the seconds and the
/// sub-second nanoseconds of the duration it reads, or `None` where it
/// rejects the text.
pub uninterp spec fn parsed_duration(text: Seq<char>) -> Option<(u64, u32)>;

/// Calls `duration_str::parse` on the text and takes the duration apart
/// with `Duration::as_secs` and `Duration::subsec_nanos`.
///
/// Trusted: the outcome depends on the text alone, and the sub-second part
/// is below one second, as the standard library documents.
#[verifier::external_body]
fn parse_duration(text: &str) -> (parsed: Option<(u64, u32)>)
    ensures
        parsed == parsed_duration(text@),
        parsed matches Some(d) ==> d.1 < NANOS_PER_SEC,
{
    match duration_str::parse(text) {
        Ok(d) => Some((d.as_secs(), d.subsec_nanos())),
        Err(_) => None,
    }
}

/// Reads a duration text such as `"10s"` or `"1m"`.
pub fn read_timeout(text: &str) -> (t: Option<Timeout>)
    ensures
        t is Some <==> parsed_duration(text@) is Some,
        t matches Some(t) ==> parsed_duration(text@) matches Some(d) && t@ == span_nanos(d.0, d.1),
{
    match parse_duration(text) {
        Some((secs, nanos)) => Timeout::new(secs, nanos),
        None => None,
    }
}

/// The limit of a run, given what the request asked for: nothing, a text
/// that was no duration (`Some(None)`), or a duration.
pub fn choose_timeout(requested: Option<Option<Timeout>>) -> (r: Result<Timeout, RunError>)
    ensures
        match requested {
            None => r matches Ok(t) && t@ == span_nanos(DEFAULT_TIMEOUT_SECS, 0),
            Some(None) => r == Err::<Timeout, RunError>(RunError::WrongTimeoutFormat),
            Some(Some(t)) => r == Ok::<Timeout, RunError>(t),
        },
{
    match requested {
        None => Ok(Timeout::default_limit()),
        Some(None) => Err(RunError::WrongTimeoutFormat),
        Some(Some(t)) => Ok(t),
    }
}

} // verus!
