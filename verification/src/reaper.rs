//! The idle reaper: a recurring check, one per started session, that releases
//! the session's process once it has been idle for too long and retires as
//! soon as the process it watches is no longer the one the session holds.

use crate::clock::Timestamp;
use crate::session::{Session, SessionModel};
use vstd::prelude::*;

verus! {

/// Seconds a reaper sleeps between two checks, whatever the idle timeout is.
pub const POLL_INTERVAL_SECS: u64 = 60;

/// Where a reaper stands. Only `Running` has a successor.
#[derive(Clone, Copy, Debug, PartialEq, Eq, Structural)]
pub enum ReaperState {
    /// Still watching; the next check is due one poll interval from now.
    Running,
    /// Released its process for idleness, and is done.
    KilledDueToIdle,
    /// Found the session holding another process, or none, and is done.
    SupersededExit,
}

/// A reaper as the contracts see it.
pub struct ReaperModel {
    /// The start attempt whose process this reaper watches.
    pub generation: nat,
    /// The idle time, in seconds, beyond which the process is released.
    pub idle_timeout_secs: nat,
    pub state: ReaperState,
}

/// What one wake-up of a reaper leaves behind.
pub struct WakeModel {
    pub reaper: ReaperModel,
    pub session: SessionModel,
    /// The process to terminate, if the wake-up released one.
    pub terminate: Option<nat>,
}

impl ReaperModel {
    /// The reaper launched for the process of start attempt `generation`.
    pub open spec fn launched(generation: nat, idle_timeout_secs: nat) -> ReaperModel {
        ReaperModel { generation, idle_timeout_secs, state: ReaperState::Running }
    }

    /// One wake-up at time `now`. A reaper that is done stays done and
    /// touches nothing; a running one makes the session's idle check and
    /// takes the verdict as its new state.
    pub open spec fn wake(self, session: SessionModel, now: nat) -> WakeModel {
        if self.state != ReaperState::Running {
            WakeModel { reaper: self, session, terminate: None }
        } else {
            let verdict = session.reap_verdict(self.generation, self.idle_timeout_secs, now);
            WakeModel {
                reaper: ReaperModel { state: verdict, ..self },
                session: session.reap(self.generation, self.idle_timeout_secs, now),
                terminate: if verdict == ReaperState::KilledDueToIdle {
                    Some(self.generation)
                } else {
                    None
                },
            }
        }
    }
}

/// The idle reaper of one started session. It owns nothing of the session:
/// it remembers which start attempt it belongs to and how long the session
/// may stay idle.
#[derive(Debug)]
pub struct Reaper {
    generation: u64,
    idle_timeout_secs: u64,
    state: ReaperState,
}

impl View for Reaper {
    type V = ReaperModel;

    closed spec fn view(&self) -> ReaperModel {
        ReaperModel {
            generation: self.generation as nat,
            idle_timeout_secs: self.idle_timeout_secs as nat,
            state: self.state,
        }
    }
}

impl Reaper {
    /// A running reaper for the process of start attempt `generation`.
    pub fn new(generation: u64, idle_timeout_secs: u64) -> (reaper: Reaper)
        ensures
            reaper@ == ReaperModel::launched(generation as nat, idle_timeout_secs as nat),
    {
        Reaper { generation, idle_timeout_secs, state: ReaperState::Running }
    }

    /// The start attempt whose process this reaper watches.
    pub fn generation(&self) -> (generation: u64)
        ensures
            generation == self@.generation,
    {
        self.generation
    }

    /// The idle time, in seconds, beyond which the process is released.
    pub fn idle_timeout_secs(&self) -> (secs: u64)
        ensures
            secs == self@.idle_timeout_secs,
    {
        self.idle_timeout_secs
    }

    pub fn state(&self) -> (state: ReaperState)
        ensures
            state == self@.state,
    {
        self.state
    }

    /// Whether another check is due after the next poll interval.
    pub fn is_running(&self) -> (running: bool)
        ensures
            running == (self@.state == ReaperState::Running),
    {
        match self.state {
            ReaperState::Running => true,
            _ => false,
        }
    }

    /// One wake-up at time `now`, made while holding the session. Returns the
    /// process that the caller must now terminate, if the check released one.
    pub fn wake(&mut self, session: &mut Session, now: Timestamp) -> (terminate: Option<u64>)
        ensures
            final(self)@ == old(self)@.wake(old(session)@, now@).reaper,
            final(session)@ == old(self)@.wake(old(session)@, now@).session,
            crate::session::id_view(terminate) == old(self)@.wake(old(session)@, now@).terminate,
    {
        if !self.is_running() {
            return None;
        }
        let verdict = session.reap(self.generation, self.idle_timeout_secs, now);
        self.state = verdict;
        match verdict {
            ReaperState::KilledDueToIdle => Some(self.generation),
            _ => None,
        }
    }
}

} // verus!
