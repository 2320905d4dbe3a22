//! The one admission slot for a running session, and the decisions taken
//! when a session is stopped.
use crate::registry::{extend_strings, views};
use crate::text::{owned, str_eq};
use vstd::prelude::*;

verus! {

/// Why a launch was refused.
pub const BUSY_ERROR: &'static str = "A transcription session is already running";

/// How long a stopped worker is given to exit on its own, in milliseconds.
pub const STOP_TIMEOUT_MS: u64 = 5000;

/// How often a stopping worker is checked, in milliseconds.
pub const STOP_POLL_INTERVAL_MS: u64 = 100;

/// The session that holds the slot.
#[derive(Debug)]
pub struct ActiveSession {
    pub session_id: String,
    pub manifest_path: String,
    pub queued_item_ids: Vec<String>,
}

/// The single admission slot: at most one session runs at a time, and a
/// second is refused rather than queued.
#[derive(Debug)]
pub struct SessionSlot {
    active: Option<ActiveSession>,
}

/// What a stop request comes to.
#[derive(Debug)]
pub enum StopPlan {
    /// No session is running: stopping succeeds and changes nothing.
    NothingToStop,
    /// Another session is running; the message names both ids.
    Mismatch(String),
    /// The running session is the one asked for.
    Proceed { manifest_path: String, queued_item_ids: Vec<String> },
}

/// The message for a stop request that names another session.
pub open spec fn mismatch_message(active: Seq<char>, requested: Seq<char>) -> Seq<char> {
    "Session mismatch: active="@ + active + ", requested="@ + requested
}

impl SessionSlot {
    /// The session in the slot.
    pub closed spec fn current(&self) -> Option<ActiveSession> {
        self.active
    }

    /// Whether the session `id` holds the slot.
    pub open spec fn held_by(&self, id: Seq<char>) -> bool {
        self.current() is Some && self.current().unwrap().session_id@ == id
    }

    /// An empty slot.
    pub fn new() -> (r: SessionSlot)
        ensures
            r.current() is None,
    {
        SessionSlot { active: None }
    }

    /// Whether a session holds the slot.
    pub fn is_busy(&self) -> (r: bool)
        ensures
            r == self.current() is Some,
    {
        self.active.is_some()
    }

    /// The id of the session in the slot.
    pub fn active_session_id(&self) -> (r: Option<String>)
        ensures
            r is None <==> self.current() is None,
            r matches Some(id) ==> id@ == self.current().unwrap().session_id@,
    {
        match &self.active {
            Some(a) => Some(owned(a.session_id.as_str())),
            None => None,
        }
    }

    /// Puts `session` in the slot, unless one is already there: then the
    /// launch is refused with a concurrency error and the slot is left as
    /// it was.
    pub fn register(&mut self, session: ActiveSession) -> (r: Result<(), String>)
        ensures
            old(self).current() is Some ==> (r is Err && r->Err_0@ == BUSY_ERROR@ && *final(self)
                == *old(self)),
            old(self).current() is None ==> (r is Ok && final(self).current() == Some(session)),
    {
        if self.active.is_some() {
            return Err(String::from_str(BUSY_ERROR));
        }
        self.active = Some(session);
        Ok(())
    }

    /// What stopping `session_id` comes to; the slot is not touched.
    pub fn begin_stop(&self, session_id: &str) -> (r: StopPlan)
        ensures
            self.current() is None ==> r is NothingToStop,
            self.current() is Some && !self.held_by(session_id@) ==> (r is Mismatch && r->Mismatch_0@
                == mismatch_message(self.current().unwrap().session_id@, session_id@)),
            self.held_by(session_id@) ==> (r is Proceed && r->manifest_path@
                == self.current().unwrap().manifest_path@ && views(r->queued_item_ids@) == views(
                self.current().unwrap().queued_item_ids@,
            )),
    {
        match &self.active {
            None => StopPlan::NothingToStop,
            Some(a) => {
                if !str_eq(a.session_id.as_str(), session_id) {
                    let mut m = String::from_str("Session mismatch: active=");
                    m.append(a.session_id.as_str());
                    m.append(", requested=");
                    m.append(session_id);
                    StopPlan::Mismatch(m)
                } else {
                    let mut ids: Vec<String> = Vec::new();
                    extend_strings(&mut ids, a.queued_item_ids.as_slice());
                    assert(views(ids@) =~= views(a.queued_item_ids@));
                    StopPlan::Proceed { manifest_path: owned(a.manifest_path.as_str()), queued_item_ids: ids }
                }
            },
        }
    }

    /// Empties the slot if `session_id` holds it; otherwise leaves it as it
    /// is.
    pub fn clear_if_matches(&mut self, session_id: &str)
        ensures
            old(self).held_by(session_id@) ==> final(self).current() is None,
            !old(self).held_by(session_id@) ==> *final(self) == *old(self),
    {
        let matches = match &self.active {
            Some(a) => str_eq(a.session_id.as_str(), session_id),
            None => false,
        };
        if matches {
            self.active = None;
        }
    }
}

/// A stop request that names another session than the running one is
/// refused with a message naming both ids, and the running session keeps
/// the slot: the slot is untouched by the request and by clearing for the
/// requested id.
pub proof fn mismatched_stop_law(
    slot: SessionSlot,
    requested: Seq<char>,
    plan: StopPlan,
    after: SessionSlot,
)
    requires
        slot.current() is Some,
        slot.current().unwrap().session_id@ != requested,
        slot.current() is Some && !slot.held_by(requested) ==> (plan is Mismatch
            && plan->Mismatch_0@ == mismatch_message(slot.current().unwrap().session_id@, requested)),
        !slot.held_by(requested) ==> after == slot,
    ensures
        plan is Mismatch,
        plan->Mismatch_0@ == "Session mismatch: active="@ + slot.current().unwrap().session_id@
            + ", requested="@ + requested,
        after.current() == slot.current(),
{
}

/// The next step while waiting for a stopped worker to exit.
#[derive(Debug, Clone, Copy, PartialEq, Eq)]
pub enum PollStep {
    /// It exited within the grace period.
    Exited,
    /// Check again after the poll interval.
    KeepWaiting,
    /// The grace period is over: kill it.
    ForceKill,
}

/// The step to take after a liveness check at `elapsed_ms` into a grace
/// period of `grace_ms`.
pub fn stop_poll_step(finished: bool, elapsed_ms: u64, grace_ms: u64) -> (r: PollStep)
    ensures
        finished ==> r == PollStep::Exited,
        !finished && elapsed_ms >= grace_ms ==> r == PollStep::ForceKill,
        !finished && elapsed_ms < grace_ms ==> r == PollStep::KeepWaiting,
{
    if finished {
        PollStep::Exited
    } else if elapsed_ms >= grace_ms {
        PollStep::ForceKill
    } else {
        PollStep::KeepWaiting
    }
}

/// How a stopped worker ended, as reported to listeners.
pub fn stop_reason(graceful: bool) -> (r: &'static str)
    ensures
        graceful ==> r@ == "graceful"@,
        !graceful ==> r@ == "forced"@,
{
    if graceful {
        "graceful"
    } else {
        "forced"
    }
}

} // verus!
