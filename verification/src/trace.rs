//! Histories of a session: everything that can happen to it, in any order,
//! and what a history leaves behind. Nothing here runs; it is the ground on
//! which the laws of the library are stated.

use crate::clock::NANOS_PER_SEC;
use crate::dispatch::handled;
use crate::protocol::Command;
use crate::reaper::{ReaperModel, WakeModel, POLL_INTERVAL_SECS};
use crate::session::{SessionModel, SpawnReportModel};
use vstd::prelude::*;

verus! {

/// One thing that happens to a session.
pub enum Event {
    /// A start is begun.
    Start,
    /// The spawn made for `attempt` is reported at `now`.
    Report { attempt: nat, report: SpawnReportModel, now: nat },
    /// A request is dispatched at `now`.
    Request { command: Command, now: nat },
    /// A reaper, in whatever state and for whatever generation, wakes up at
    /// `now`.
    Wake { reaper: ReaperModel, now: nat },
    /// The session is torn down.
    Teardown,
}

/// The session after `event`.
pub open spec fn step(session: SessionModel, event: Event) -> SessionModel {
    match event {
        Event::Start => session.begin_start(),
        Event::Report { attempt, report, now } => session.complete_start(attempt, report, now),
        Event::Request { command, now } => handled(session, command, now),
        Event::Wake { reaper, now } => reaper.wake(session, now).session,
        Event::Teardown => session.teardown(),
    }
}

/// The process that `event` takes out of the session's charge: the caller is
/// told to terminate it.
pub open spec fn released(session: SessionModel, event: Event) -> Option<nat> {
    match event {
        Event::Start => session.start_ticket().terminate,
        Event::Report { .. } => None,
        Event::Request { .. } => None,
        Event::Wake { reaper, now } => reaper.wake(session, now).terminate,
        Event::Teardown => session.held_id(),
    }
}

/// The process that `event` puts in the session's charge.
pub open spec fn adopted(session: SessionModel, event: Event) -> Option<nat> {
    match event {
        Event::Report { attempt, report, now } => if session.awaits(attempt)
            && report is FirstLine {
            Some(attempt)
        } else {
            None
        },
        _ => None,
    }
}

/// The session after a history that began at `session`.
pub open spec fn run(session: SessionModel, events: Seq<Event>) -> SessionModel
    decreases events.len(),
{
    if events.len() == 0 {
        session
    } else {
        step(run(session, events.drop_last()), events.last())
    }
}

/// The processes in the session's charge after a history that began with an
/// empty session: those that were adopted and have not been released since.
pub open spec fn in_charge(events: Seq<Event>) -> Set<nat>
    decreases events.len(),
{
    if events.len() == 0 {
        Set::empty()
    } else {
        let before = run(SessionModel::empty(), events.drop_last());
        let kept = match released(before, events.last()) {
            Some(id) => in_charge(events.drop_last()).remove(id),
            None => in_charge(events.drop_last()),
        };
        match adopted(before, events.last()) {
            Some(id) => kept.insert(id),
            None => kept,
        }
    }
}

/// The processes that the session holds: one or none.
pub open spec fn held(session: SessionModel) -> Set<nat> {
    match session.process {
        Some(p) => set![p.id],
        None => Set::empty(),
    }
}

/// The session after keepalives at each of `times`, in order.
pub open spec fn kept_alive(session: SessionModel, times: Seq<nat>) -> SessionModel
    decreases times.len(),
{
    if times.len() == 0 {
        session
    } else {
        kept_alive(session, times.drop_last()).keep_alive(times.last())
    }
}

/// When a reaper launched at `launched` wakes for the `k`-th time, if every
/// sleep lasts exactly one poll interval.
pub open spec fn wake_time(launched: nat, k: nat) -> nat {
    (launched + k * POLL_INTERVAL_SECS * NANOS_PER_SEC) as nat
}

/// The reaper and its session after the reaper's first `k` wake-ups, with
/// nothing else happening to the session in between.
pub open spec fn after_wakes(reaper: ReaperModel, session: SessionModel, launched: nat, k: nat)
    -> WakeModel
    decreases k,
{
    if k == 0 {
        WakeModel { reaper, session, terminate: None }
    } else {
        let before = after_wakes(reaper, session, launched, (k - 1) as nat);
        before.reaper.wake(before.session, wake_time(launched, k))
    }
}

/// The number of the first wake-up that falls after the idle timeout.
pub open spec fn deadline_wake(idle_timeout_secs: nat) -> nat {
    (idle_timeout_secs / (POLL_INTERVAL_SECS as nat) + 1) as nat
}

} // verus!
