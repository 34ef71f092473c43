//! Configuration and start-up decisions of the upkeep thread, which keeps a process-wide
//! "recent" time up to date so that it can be read at very low cost.
//!
//! Only one upkeep thread may run in a process.  Claiming that slot, spawning and pinning the
//! thread, and the thread's loop are carried out by the caller; the functions here decide what
//! each outcome means for the caller.

use std::time::Duration;
use vstd::prelude::*;
use vstd::string::StringExecFns;

use crate::clock::Clock;

verus! {

#[verifier::external_type_specification]
#[verifier::external_body]
pub struct ExIoError(std::io::Error);

/// Ultra-low-overhead access to slightly-delayed time: the configuration of an upkeep thread,
/// which updates the process-wide recent time once per `interval`.
#[derive(Debug)]
pub struct Upkeep {
    interval: Duration,
}

/// Errors thrown during the creation/spawning of the upkeep thread.
#[non_exhaustive]
#[derive(Debug)]
pub enum Error {
    /// An upkeep thread is already running in this process.
    UpkeepRunning,
    /// An error occurred when trying to spawn the upkeep thread.
    FailedToSpawnUpkeepThread(std::io::Error),
    /// The upkeep thread could not be successfully pinned.
    FailedToPinUpkeepThread,
}

impl Error {
    /// The human-readable description of the error.
    pub fn message(&self) -> (r: String)
        ensures
            self is UpkeepRunning ==> r@ == "upkeep thread already running"@,
            self is FailedToPinUpkeepThread ==> r@ == "failed to pin upkeep thread"@,
            self matches Error::FailedToSpawnUpkeepThread(e) ==> exists|cause: String|
                vstd::string::to_string_from_display_ensures::<std::io::Error>(&e, cause) && r@
                    == "failed to spawn upkeep thread: "@ + cause@,
    {
        match self {
            Error::UpkeepRunning => String::from_str("upkeep thread already running"),
            Error::FailedToSpawnUpkeepThread(e) => {
                let cause = e.to_string();
                let r = String::from_str("failed to spawn upkeep thread: ").concat(cause.as_str());
                proof {
                    assert(vstd::string::to_string_from_display_ensures::<std::io::Error>(e, cause));
                    assert(r@ == "failed to spawn upkeep thread: "@ + cause@);
                }
                r
            },
            Error::FailedToPinUpkeepThread => String::from_str("failed to pin upkeep thread"),
        }
    }
}

impl Upkeep {
    /// Creates a new [`Upkeep`] that updates the recent time once per `interval`.
    pub fn new(interval: Duration) -> (u: Upkeep)
        ensures
            u.interval() == interval,
    {
        Upkeep { interval }
    }

    /// Creates a new [`Upkeep`]; the clock is not used.  Prefer [`Upkeep::new`], which is just
    /// as fast.
    pub fn new_with_clock(interval: Duration, _clock: Clock) -> (u: Upkeep)
        ensures
            u.interval() == interval,
    {
        Upkeep { interval }
    }

    /// The update interval.
    pub closed spec fn interval(self) -> Duration {
        self.interval
    }

    /// The update interval.
    pub fn update_interval(&self) -> (r: Duration)
        ensures
            r == self.interval(),
    {
        self.interval
    }
}

/// The answer to a start request after trying to claim the process-wide upkeep slot: refused
/// with [`Error::UpkeepRunning`] exactly when another upkeep thread already holds it.
pub fn claim_outcome(already_running: bool) -> (r: Result<(), Error>)
    ensures
        r is Ok <==> !already_running,
        r matches Err(e) ==> e is UpkeepRunning,
{
    if already_running {
        Err(Error::UpkeepRunning)
    } else {
        Ok(())
    }
}

/// The answer to a start request once the upkeep thread has been spawned (`spawned` holds its
/// handle, or the error of the attempt) and, when pinning to a core was requested, the thread
/// has reported whether pinning worked (`pinned`).
///
/// Returns whether the claim on the upkeep slot must be given back (exactly when spawning
/// failed; a thread that failed to pin gives the slot back itself), and the result: a pinning
/// failure first, then a spawning failure, else the handle.  A pinning report cannot come from
/// a thread that was never spawned.
pub fn start_outcome<H>(spawned: Result<H, std::io::Error>, pinned: Option<bool>) -> (r: (
    bool,
    Result<H, Error>,
))
    requires
        spawned is Err ==> pinned is None,
    ensures
        r.0 <==> spawned is Err,
        pinned == Some(false) ==> (r.1 matches Err(e) && e is FailedToPinUpkeepThread),
        pinned != Some(false) ==> match spawned {
            Ok(h) => r.1 == Ok::<H, Error>(h),
            Err(e) => r.1 == Err::<H, Error>(Error::FailedToSpawnUpkeepThread(e)),
        },
{
    let release = spawned.is_err();
    if let Some(false) = pinned {
        return (release, Err(Error::FailedToPinUpkeepThread));
    }
    match spawned {
        Ok(h) => (release, Ok(h)),
        Err(e) => (release, Err(Error::FailedToSpawnUpkeepThread(e))),
    }
}

} // verus!
