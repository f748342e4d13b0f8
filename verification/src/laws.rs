//! What holds of every session, whatever happens to it and in whatever
//! order. Each law is stated over the same models that the contracts of the
//! executable functions speak of.

use crate::clock::{idle_exceeded, NANOS_PER_SEC};
use crate::dispatch::{handled, plan_for, PlanModel};
use crate::protocol::{command_of, keep_alive_token, open_new_connection_token, Command};
use crate::reaper::{ReaperModel, ReaperState, WakeModel, POLL_INTERVAL_SECS};
use crate::session::SessionModel;
use crate::trace::{
    adopted, after_wakes, deadline_wake, held, in_charge, kept_alive, released, run, step,
    wake_time, Event,
};
use vstd::prelude::*;

verus! {

/// No event breaks a well-formed session, and none takes back a start
/// attempt that was issued.
pub proof fn law_step_keeps_well_formed(session: SessionModel, event: Event)
    requires
        session.wf(),
    ensures
        step(session, event).wf(),
        step(session, event).issued >= session.issued,
{
}

/// No history breaks a well-formed session, and none takes back a start
/// attempt that was issued.
pub proof fn law_run_keeps_well_formed(session: SessionModel, events: Seq<Event>)
    requires
        session.wf(),
    ensures
        run(session, events).wf(),
        run(session, events).issued >= session.issued,
    decreases events.len(),
{
    if events.len() > 0 {
        law_run_keeps_well_formed(session, events.drop_last());
        law_step_keeps_well_formed(run(session, events.drop_last()), events.last());
    }
}

/// After any history of starts, reports, requests, reaper wake-ups and
/// teardowns, the processes that have been put in the session's charge and
/// not been ordered to terminate are exactly the one the session holds: there
/// are never two.
pub proof fn law_single_process(events: Seq<Event>)
    ensures
        run(SessionModel::empty(), events).wf(),
        in_charge(events) == held(run(SessionModel::empty(), events)),
        in_charge(events).finite(),
        in_charge(events).len() <= 1,
    decreases events.len(),
{
    let after = run(SessionModel::empty(), events);
    law_run_keeps_well_formed(SessionModel::empty(), events);
    if events.len() > 0 {
        let before = run(SessionModel::empty(), events.drop_last());
        law_single_process(events.drop_last());
        assert(after == step(before, events.last()));
        assert(released(before, events.last()) matches Some(id) ==> before.holds(id)
            && after.process is None);
        assert(adopted(before, events.last()) matches Some(id) ==> before.process is None
            && after.holds(id));
        assert(released(before, events.last()) is None && adopted(before, events.last()) is None
            ==> after.process == before.process);
        assert(in_charge(events) =~= held(after));
    }
    assert(held(after).finite() && held(after).len() <= 1);
}

/// Keepalives at `times`, in order, leave the time of last activity at the
/// last of them, whether a session is active or not, and change nothing
/// else.
pub proof fn law_keepalive_sets_last_activity(session: SessionModel, times: Seq<nat>)
    requires
        times.len() > 0,
    ensures
        kept_alive(session, times) == (SessionModel {
            last_activity: Some(times.last()),
            ..session
        }),
    decreases times.len(),
{
    if times.len() > 1 {
        law_keepalive_sets_last_activity(session, times.drop_last());
    } else {
        assert(kept_alive(session, times.drop_last()) == session);
    }
}

/// A wake-up of a reaper no later than `idle_timeout_secs` after the last
/// activity leaves the process it watches alone.
proof fn lemma_quiet_wakes(reaper: ReaperModel, session: SessionModel, launched: nat, k: nat)
    requires
        session.holds(reaper.generation),
        reaper.state == ReaperState::Running,
        session.last_activity == Some(launched),
        k < deadline_wake(reaper.idle_timeout_secs),
    ensures
        after_wakes(reaper, session, launched, k) == (WakeModel {
            reaper,
            session,
            terminate: None,
        }),
    decreases k,
{
    if k > 0 {
        lemma_quiet_wakes(reaper, session, launched, (k - 1) as nat);
        let timeout = reaper.idle_timeout_secs;
        assert(k * POLL_INTERVAL_SECS * NANOS_PER_SEC <= timeout * NANOS_PER_SEC)
            by (nonlinear_arith)
            requires
                k <= timeout / (POLL_INTERVAL_SECS as nat),
                POLL_INTERVAL_SECS == 60,
                NANOS_PER_SEC > 0,
        ;
        assert(!idle_exceeded(wake_time(launched, k), launched, timeout));
    }
}

/// A session started at `launched` and left without a keepalive: if its
/// reaper wakes once every poll interval, every wake-up up to the idle
/// timeout leaves the session as it is, and the first one after it, which
/// comes no later than one poll interval after the timeout, releases the
/// process, orders its termination and ends the reaper.
pub proof fn law_idle_session_is_reaped(
    reaper: ReaperModel,
    session: SessionModel,
    launched: nat,
)
    requires
        session.holds(reaper.generation),
        reaper.state == ReaperState::Running,
        session.last_activity == Some(launched),
    ensures
        forall|k: nat|
            k < deadline_wake(reaper.idle_timeout_secs) ==> #[trigger] after_wakes(
                reaper,
                session,
                launched,
                k,
            ) == (WakeModel { reaper, session, terminate: None }),
        after_wakes(reaper, session, launched, deadline_wake(reaper.idle_timeout_secs)) == (
        WakeModel {
            reaper: ReaperModel { state: ReaperState::KilledDueToIdle, ..reaper },
            session: SessionModel { process: None, ..session },
            terminate: Some(reaper.generation),
        }),
        wake_time(launched, deadline_wake(reaper.idle_timeout_secs)) > launched
            + reaper.idle_timeout_secs * NANOS_PER_SEC,
        wake_time(launched, deadline_wake(reaper.idle_timeout_secs)) <= launched + (
        reaper.idle_timeout_secs + POLL_INTERVAL_SECS) * NANOS_PER_SEC,
{
    let timeout = reaper.idle_timeout_secs;
    let last = deadline_wake(timeout);
    assert forall|k: nat| k < last implies #[trigger] after_wakes(reaper, session, launched, k)
        == (WakeModel { reaper, session, terminate: None }) by {
        lemma_quiet_wakes(reaper, session, launched, k);
    }
    lemma_quiet_wakes(reaper, session, launched, (last - 1) as nat);
    assert(last * POLL_INTERVAL_SECS * NANOS_PER_SEC > timeout * NANOS_PER_SEC && last
        * POLL_INTERVAL_SECS * NANOS_PER_SEC <= (timeout + POLL_INTERVAL_SECS) * NANOS_PER_SEC)
        by (nonlinear_arith)
        requires
            last == timeout / (POLL_INTERVAL_SECS as nat) + 1,
            POLL_INTERVAL_SECS == 60,
            NANOS_PER_SEC > 0,
    ;
    assert(idle_exceeded(wake_time(launched, last), launched, timeout));
}

/// A reaper whose generation has been overtaken by a later start attempt
/// harms nobody: its wake-up leaves the session as it is, orders no
/// termination, and ends the reaper if it was still running.
pub proof fn law_stale_reaper_is_harmless(reaper: ReaperModel, session: SessionModel, now: nat)
    requires
        session.wf(),
        reaper.generation < session.issued,
    ensures
        reaper.wake(session, now).session == session,
        reaper.wake(session, now).terminate is None,
        reaper.state == ReaperState::Running ==> reaper.wake(session, now).reaper.state
            == ReaperState::SupersededExit,
        reaper.state != ReaperState::Running ==> reaper.wake(session, now).reaper == reaper,
{
}

/// Once a new start has been begun on a session, the reaper of the process
/// that the session held before never touches what comes after: whatever
/// happens next, and whenever that reaper wakes up, the session stays as it
/// is and no termination is ordered.
pub proof fn law_supersession_safety(
    reaper: ReaperModel,
    session: SessionModel,
    later: Seq<Event>,
    now: nat,
)
    requires
        session.wf(),
        session.holds(reaper.generation),
    ensures
        ({
            let after = run(session.begin_start(), later);
            let wake = reaper.wake(after, now);
            &&& wake.session == after
            &&& wake.terminate is None
            &&& wake.reaper.state != ReaperState::Running
        }),
{
    law_run_keeps_well_formed(session.begin_start(), later);
    law_stale_reaper_is_harmless(reaper, run(session.begin_start(), later), now);
}

/// A request that is neither command word changes nothing and is answered
/// with nothing, so that the next command meets the session it would have
/// met without it.
pub proof fn law_unknown_request_is_ignored(
    session: SessionModel,
    request: Seq<u8>,
    now: nat,
    next: Command,
    later: nat,
)
    requires
        request != open_new_connection_token(),
        request != keep_alive_token(),
    ensures
        command_of(request) == Command::Unknown,
        handled(session, command_of(request), now) == session,
        plan_for(session, command_of(request)) == PlanModel::Ignore,
        handled(handled(session, command_of(request), now), next, later) == handled(
            session,
            next,
            later,
        ),
        plan_for(handled(session, command_of(request), now), next) == plan_for(session, next),
{
}

} // verus!
