//! Fault taxonomy and the rate limit on repeated reports: each sink fault
//! kind is surfaced at most once per notification window while the tick loop
//! keeps retrying.

use vstd::prelude::*;

verus! {

/// How long, in seconds, a fault kind stays quiet after being reported.
pub const NOTIFICATION_TIMEOUT: u64 = 30;

/// Clock faults of the bare command-line timer: none of them stops the loop.
#[derive(Copy, Clone, Debug, PartialEq, Eq, Structural)]
pub enum Error {
    /// The system clock reported a time before the Unix epoch.
    EarlierThanUnixEpoch,
    /// Adding a duration to an instant failed.
    InstantAdd,
    /// Reading the current instant failed.
    CreateInstant,
}

impl Error {
    /// The human-readable description of this fault.
    pub fn describe(self) -> (r: &'static str)
        ensures
            self is EarlierThanUnixEpoch ==> r@ == "The time gotten was earlier than the Unix epoch(0:0:0 1.1.1971)"@,
            self is InstantAdd ==> r@ == "There was an error adding a Duration to a Instant"@,
            self is CreateInstant ==> r@ == "There was an error creating a Instant"@,
    {
        match self {
            Self::EarlierThanUnixEpoch => "The time gotten was earlier than the Unix epoch(0:0:0 1.1.1971)",
            Self::InstantAdd => "There was an error adding a Duration to a Instant",
            Self::CreateInstant => "There was an error creating a Instant",
        }
    }
}

/// A sink failure: each step of the overwrite is reported distinctly, and
/// none is retried before the next tick.
#[derive(Copy, Clone, Debug, PartialEq, Eq, Structural)]
pub enum SinkFault {
    /// Opening the target in overwrite, create-if-absent mode failed.
    Open,
    /// Seeking back to the start of the file failed.
    Seek,
    /// Writing the rendered text failed.
    Write,
}

impl SinkFault {
    /// The report's title for this fault.
    pub fn title(self) -> (r: &'static str)
        ensures
            self is Open ==> r@ == "Failed opening File"@,
            self is Seek ==> r@ == "Error Seeking"@,
            self is Write ==> r@ == "Error Writing"@,
    {
        match self {
            Self::Open => "Failed opening File",
            Self::Seek => "Error Seeking",
            Self::Write => "Error Writing",
        }
    }

    /// The report's summary line for this fault.
    pub fn summary(self) -> (r: &'static str)
        ensures
            self is Open ==> r@ == "Failed to get file to write the counter time to"@,
            self is Seek ==> r@ == "Could not make next write overwrite file"@,
            self is Write ==> r@ == "Could not write to file"@,
    {
        match self {
            Self::Open => "Failed to get file to write the counter time to",
            Self::Seek => "Could not make next write overwrite file",
            Self::Write => "Could not write to file",
        }
    }
}

/// Whether a fault last reported at `last` may be reported again at `now`
/// (both in whole seconds since the activation's anchor).
pub open spec fn window_allows(last: Option<u64>, now: int) -> bool {
    match last {
        Option::None => true,
        Option::Some(t) => now - t > NOTIFICATION_TIMEOUT,
    }
}

/// Per-fault-kind record of when a report last went out, so that repeated
/// identical failures do not flood the reporter.
#[derive(Copy, Clone, Debug, PartialEq, Eq, Structural)]
pub struct FaultLimiter {
    /// When an open failure was last reported, if ever.
    pub last_open: Option<u64>,
    /// When a seek failure was last reported, if ever.
    pub last_seek: Option<u64>,
    /// When a write failure was last reported, if ever.
    pub last_write: Option<u64>,
}

impl FaultLimiter {
    /// The recorded last report time for `kind`.
    pub open spec fn last_of(self, kind: SinkFault) -> Option<u64> {
        match kind {
            SinkFault::Open => self.last_open,
            SinkFault::Seek => self.last_seek,
            SinkFault::Write => self.last_write,
        }
    }

    /// A limiter that has reported nothing yet.
    pub fn new() -> (r: Self)
        ensures
            r.last_open is None,
            r.last_seek is None,
            r.last_write is None,
    {
        FaultLimiter { last_open: None, last_seek: None, last_write: None }
    }

    /// Decides whether a fault of `kind` observed `now_secs` seconds after
    /// the anchor gets a report. A granted report closes the window for that
    /// kind alone; a suppressed one changes nothing.
    pub fn should_report(&mut self, kind: SinkFault, now_secs: u64) -> (granted: bool)
        ensures
            granted == window_allows(old(self).last_of(kind), now_secs as int),
            granted ==> final(self).last_of(kind) == Some(now_secs),
            !granted ==> final(self).last_of(kind) == old(self).last_of(kind),
            forall|other: SinkFault|
                other != kind ==> final(self).last_of(other) == old(self).last_of(other),
    {
        let last = match kind {
            SinkFault::Open => self.last_open,
            SinkFault::Seek => self.last_seek,
            SinkFault::Write => self.last_write,
        };
        let granted = match last {
            None => true,
            Some(t) => now_secs > t && now_secs - t > NOTIFICATION_TIMEOUT,
        };
        if granted {
            match kind {
                SinkFault::Open => self.last_open = Some(now_secs),
                SinkFault::Seek => self.last_seek = Some(now_secs),
                SinkFault::Write => self.last_write = Some(now_secs),
            }
        }
        granted
    }
}

/// Rate-limit law: once a report for some kind goes out at `t`, the window
/// stays closed for the whole notification timeout, and reopens after it.
pub proof fn lemma_rate_limit_window(t: u64, now: int)
    ensures
        t <= now <= t + NOTIFICATION_TIMEOUT ==> !window_allows(Some(t), now),
        now > t + NOTIFICATION_TIMEOUT ==> window_allows(Some(t), now),
{
}

} // verus!
