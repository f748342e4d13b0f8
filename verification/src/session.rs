//! The session: one slot for the supervised process, the time of the last
//! activity, and the transitions that a controller applies to them while it
//! holds the session's lock.
//!
//! Starting a session takes outside work in its middle (the old process is
//! terminated, the new one spawned and its first output line awaited), so the
//! transition comes in two halves. `begin_start` clears the slot and hands
//! out a numbered ticket; `complete_start` takes the ticket's number and the
//! report of the spawn. The lock is free in between. Only the latest ticket
//! is honoured: a start that was overtaken by another finds out when it
//! completes, and its process is never stored.

use crate::clock::{idle_exceeded, Timestamp};
use crate::reaper::{Reaper, ReaperModel, ReaperState};
use vstd::prelude::*;

verus! {

/// The process a session holds, as the contracts see it.
pub struct ProcessModel {
    /// The number of the start attempt that produced the process. It names
    /// the process for as long as the session lives.
    pub id: nat,
    /// The first line the process wrote: the session's URL.
    pub url: Seq<char>,
}

/// A session as the contracts see it.
pub struct SessionModel {
    /// The process held, if a session is active.
    pub process: Option<ProcessModel>,
    /// When the session was last started or kept alive, in nanoseconds.
    pub last_activity: Option<nat>,
    /// How many start attempts have been issued so far. The latest attempt
    /// bears this number.
    pub issued: nat,
    /// Whether the latest attempt still awaits the report of its spawn.
    pub pending: bool,
}

/// What `begin_start` hands to the caller.
pub struct StartTicketModel {
    pub attempt: nat,
    pub terminate: Option<nat>,
}

/// The report of a spawn, as the contracts see it.
pub enum SpawnReportModel {
    SpawnError,
    NoOutput,
    TimedOut,
    FirstLine(Seq<char>),
}

/// A started session, as the contracts see it.
pub struct StartedModel {
    pub url: Seq<char>,
    pub reaper: ReaperModel,
}

/// The answer to a request for a session, as the contracts see it.
pub enum QueryModel {
    Existing(Seq<char>),
    Spawn(StartTicketModel),
}

/// Why a start did not produce a session.
#[derive(Clone, Copy, Debug, PartialEq, Eq, Structural)]
pub enum StartError {
    /// The tool could not be spawned, or its output ended or the wait ran
    /// out before it wrote a line.
    SpawnFailed,
    /// Another start was begun, or the session torn down, while this one was
    /// spawning. Its process was not stored and the caller must terminate it.
    Superseded,
}

impl SessionModel {
    /// The session before its first start.
    pub open spec fn empty() -> SessionModel {
        SessionModel { process: None, last_activity: None, issued: 0, pending: false }
    }

    /// What holds of every session: a held process has a time of last
    /// activity, it stems from the latest start attempt, and that attempt has
    /// been reported.
    pub open spec fn wf(self) -> bool {
        self.process matches Some(p) ==> self.last_activity is Some && p.id == self.issued
            && !self.pending
    }

    pub open spec fn is_active(self) -> bool {
        self.process is Some
    }

    /// Whether the session holds the process of start attempt `generation`.
    pub open spec fn holds(self, generation: nat) -> bool {
        self.process matches Some(p) && p.id == generation
    }

    /// The name of the held process.
    pub open spec fn held_id(self) -> Option<nat> {
        match self.process {
            Some(p) => Some(p.id),
            None => None,
        }
    }

    /// The first half of a start: the slot is cleared whatever it held, and a
    /// new attempt is issued and awaits its report.
    pub open spec fn begin_start(self) -> SessionModel {
        SessionModel { process: None, issued: self.issued + 1, pending: true, ..self }
    }

    /// The ticket of that new attempt: its number, and the process that was
    /// cleared from the slot and has to be terminated.
    pub open spec fn start_ticket(self) -> StartTicketModel {
        StartTicketModel { attempt: self.issued + 1, terminate: self.held_id() }
    }

    /// Whether a report for `attempt` is still awaited.
    pub open spec fn awaits(self, attempt: nat) -> bool {
        self.pending && attempt == self.issued
    }

    /// The second half of a start. A report that is no longer awaited changes
    /// nothing. An awaited one settles the attempt: a first line is stored as
    /// the new process and counts as activity at `now`, anything else leaves
    /// the slot empty.
    pub open spec fn complete_start(self, attempt: nat, report: SpawnReportModel, now: nat)
        -> SessionModel {
        if !self.awaits(attempt) {
            self
        } else {
            match report {
                SpawnReportModel::FirstLine(url) => SessionModel {
                    process: Some(ProcessModel { id: attempt, url }),
                    last_activity: Some(now),
                    pending: false,
                    ..self
                },
                _ => SessionModel { pending: false, ..self },
            }
        }
    }

    /// What the caller of `complete_start` is told.
    pub open spec fn start_outcome(
        self,
        attempt: nat,
        report: SpawnReportModel,
        idle_timeout_secs: nat,
    ) -> Result<StartedModel, StartError> {
        if !self.awaits(attempt) {
            Err(StartError::Superseded)
        } else {
            match report {
                SpawnReportModel::FirstLine(url) => Ok(
                    StartedModel { url, reaper: ReaperModel::launched(attempt, idle_timeout_secs) },
                ),
                _ => Err(StartError::SpawnFailed),
            }
        }
    }

    /// A request for a session: an active session stays as it is, an
    /// inactive one begins a start.
    pub open spec fn query(self) -> SessionModel {
        if self.is_active() {
            self
        } else {
            self.begin_start()
        }
    }

    /// What the caller of `query` is told: the URL of the active session, or
    /// the ticket of the start that was begun.
    pub open spec fn query_answer(self) -> QueryModel {
        match self.process {
            Some(p) => QueryModel::Existing(p.url),
            None => QueryModel::Spawn(self.start_ticket()),
        }
    }

    /// A keepalive at `now`: the time of last activity is `now`, with or
    /// without a process.
    pub open spec fn keep_alive(self, now: nat) -> SessionModel {
        SessionModel { last_activity: Some(now), ..self }
    }

    /// Whether the session holds the process of `generation` and has been
    /// idle for more than `idle_timeout_secs` seconds at `now`.
    pub open spec fn expired(self, generation: nat, idle_timeout_secs: nat, now: nat) -> bool {
        &&& self.holds(generation)
        &&& self.last_activity matches Some(last)
        &&& idle_exceeded(now, last, idle_timeout_secs)
    }

    /// The idle check of the reaper of `generation`: the process is released
    /// if it is that reaper's and has expired.
    pub open spec fn reap(self, generation: nat, idle_timeout_secs: nat, now: nat)
        -> SessionModel {
        if self.expired(generation, idle_timeout_secs, now) {
            SessionModel { process: None, ..self }
        } else {
            self
        }
    }

    /// What the idle check tells the reaper of `generation` to become.
    pub open spec fn reap_verdict(self, generation: nat, idle_timeout_secs: nat, now: nat)
        -> ReaperState {
        if !self.holds(generation) {
            ReaperState::SupersededExit
        } else if self.expired(generation, idle_timeout_secs, now) {
            ReaperState::KilledDueToIdle
        } else {
            ReaperState::Running
        }
    }

    /// The end of the session's life: the slot is cleared, and a start that
    /// is still spawning will find itself superseded.
    pub open spec fn teardown(self) -> SessionModel {
        SessionModel { process: None, pending: false, ..self }
    }
}

/// A process name as the contracts see it.
pub open spec fn id_view(id: Option<u64>) -> Option<nat> {
    match id {
        Some(id) => Some(id as nat),
        None => None,
    }
}

/// A time as the contracts see it.
pub open spec fn time_view(time: Option<Timestamp>) -> Option<nat> {
    match time {
        Some(time) => Some(time@),
        None => None,
    }
}

/// The ticket of a start attempt: what the caller has to do before it can
/// report back.
#[derive(Debug, PartialEq, Eq)]
pub struct StartTicket {
    /// The attempt's number, to be handed to `complete_start`.
    pub attempt: u64,
    /// The process to terminate before the new one is spawned.
    pub terminate: Option<u64>,
}

impl View for StartTicket {
    type V = StartTicketModel;

    open spec fn view(&self) -> StartTicketModel {
        StartTicketModel { attempt: self.attempt as nat, terminate: id_view(self.terminate) }
    }
}

/// How an attempt to spawn the tool and read its first output line ended.
#[derive(Debug, PartialEq, Eq)]
pub enum SpawnReport {
    /// The process could not be spawned.
    SpawnError,
    /// The process was spawned, and its output ended or could not be read
    /// before it held a line.
    NoOutput,
    /// The process was spawned and wrote no line within the wait allowed.
    TimedOut,
    /// The process was spawned and this is the first line it wrote.
    FirstLine(String),
}

impl View for SpawnReport {
    type V = SpawnReportModel;

    open spec fn view(&self) -> SpawnReportModel {
        match self {
            SpawnReport::SpawnError => SpawnReportModel::SpawnError,
            SpawnReport::NoOutput => SpawnReportModel::NoOutput,
            SpawnReport::TimedOut => SpawnReportModel::TimedOut,
            SpawnReport::FirstLine(line) => SpawnReportModel::FirstLine(line@),
        }
    }
}

/// A session that has just been started.
#[derive(Debug)]
pub struct Started {
    /// The session's URL.
    pub url: String,
    /// The idle reaper to launch for the new process. The process is to be
    /// kept under the reaper's generation.
    pub reaper: Reaper,
}

impl View for Started {
    type V = StartedModel;

    open spec fn view(&self) -> StartedModel {
        StartedModel { url: self.url@, reaper: self.reaper@ }
    }
}

/// The answer to a request for a session.
#[derive(Debug, PartialEq, Eq)]
pub enum Query {
    /// A session is active; this is its URL.
    Existing(String),
    /// No session was active and a start has begun; this is its ticket.
    Spawn(StartTicket),
}

impl View for Query {
    type V = QueryModel;

    open spec fn view(&self) -> QueryModel {
        match self {
            Query::Existing(url) => QueryModel::Existing(url@),
            Query::Spawn(ticket) => QueryModel::Spawn(ticket@),
        }
    }
}

/// What a start outcome is as the contracts see it.
pub open spec fn outcome_view(outcome: Result<Started, StartError>) -> Result<
    StartedModel,
    StartError,
> {
    match outcome {
        Ok(started) => Ok(started@),
        Err(e) => Err(e),
    }
}

struct ProcessHandle {
    id: u64,
    url: String,
}

/// The session state. It names its process by the number of the start
/// attempt that produced it; whoever performs the outside work keeps the
/// process itself under that number.
pub struct Session {
    process: Option<ProcessHandle>,
    last_activity: Option<Timestamp>,
    issued: u64,
    pending: bool,
}

impl View for Session {
    type V = SessionModel;

    closed spec fn view(&self) -> SessionModel {
        SessionModel {
            process: match self.process {
                Some(p) => Some(ProcessModel { id: p.id as nat, url: p.url@ }),
                None => None,
            },
            last_activity: time_view(self.last_activity),
            issued: self.issued as nat,
            pending: self.pending,
        }
    }
}

impl Session {
    /// Every session is well formed, at every moment.
    #[verifier::type_invariant]
    pub open spec fn well_formed(self) -> bool {
        self@.wf()
    }

    /// The session before its first start.
    pub fn new() -> (session: Session)
        ensures
            session@ == SessionModel::empty(),
    {
        Session { process: None, last_activity: None, issued: 0, pending: false }
    }

    pub fn is_active(&self) -> (active: bool)
        ensures
            active == self@.is_active(),
    {
        self.process.is_some()
    }

    /// The URL of the active session.
    pub fn url(&self) -> (url: Option<String>)
        ensures
            match url {
                Some(url) => self@.process matches Some(p) && p.url == url@,
                None => self@.process is None,
            },
    {
        match &self.process {
            Some(p) => Some(p.url.clone()),
            None => None,
        }
    }

    /// The name of the held process.
    pub fn process_id(&self) -> (id: Option<u64>)
        ensures
            id_view(id) == self@.held_id(),
    {
        match &self.process {
            Some(p) => Some(p.id),
            None => None,
        }
    }

    pub fn last_activity(&self) -> (time: Option<Timestamp>)
        ensures
            time_view(time) == self@.last_activity,
    {
        self.last_activity
    }

    /// How many start attempts have been issued.
    pub fn attempts_issued(&self) -> (issued: u64)
        ensures
            issued == self@.issued,
    {
        self.issued
    }

    /// Whether the latest start attempt still awaits its report.
    pub fn start_pending(&self) -> (pending: bool)
        ensures
            pending == self@.pending,
    {
        self.pending
    }

    /// The first half of a start. The caller terminates the process named on
    /// the ticket, spawns the tool, and reports through `complete_start`.
    pub fn begin_start(&mut self) -> (ticket: StartTicket)
        requires
            old(self)@.issued < u64::MAX,
        ensures
            final(self)@ == old(self)@.begin_start(),
            ticket@ == old(self)@.start_ticket(),
    {
        let terminate = self.process_id();
        self.process = None;
        self.issued = self.issued + 1;
        self.pending = true;
        StartTicket { attempt: self.issued, terminate }
    }

    /// The second half of a start: the report of the spawn made for
    /// `attempt`, received at `now`. On success the caller keeps the new
    /// process under the reaper's generation and launches the reaper; on
    /// `Superseded` it terminates the process it spawned.
    pub fn complete_start(
        &mut self,
        attempt: u64,
        report: SpawnReport,
        now: Timestamp,
        idle_timeout_secs: u64,
    ) -> (outcome: Result<Started, StartError>)
        ensures
            final(self)@ == old(self)@.complete_start(attempt as nat, report@, now@),
            outcome_view(outcome) == old(self)@.start_outcome(
                attempt as nat,
                report@,
                idle_timeout_secs as nat,
            ),
    {
        proof {
            use_type_invariant(&*self);
        }
        if !self.pending || attempt != self.issued {
            return Err(StartError::Superseded);
        }
        self.pending = false;
        match report {
            SpawnReport::FirstLine(line) => {
                let url = line.clone();
                self.last_activity = Some(now);
                self.process = Some(ProcessHandle { id: attempt, url: line });
                Ok(Started { url, reaper: Reaper::new(attempt, idle_timeout_secs) })
            },
            _ => Err(StartError::SpawnFailed),
        }
    }

    /// A request for a session: the URL of the active one, or else the first
    /// half of a start.
    pub fn query(&mut self) -> (answer: Query)
        requires
            old(self)@.is_active() || old(self)@.issued < u64::MAX,
        ensures
            final(self)@ == old(self)@.query(),
            answer@ == old(self)@.query_answer(),
    {
        match self.url() {
            Some(url) => Query::Existing(url),
            None => Query::Spawn(self.begin_start()),
        }
    }

    /// A keepalive received at `now`.
    pub fn keep_alive(&mut self, now: Timestamp)
        ensures
            final(self)@ == old(self)@.keep_alive(now@),
    {
        proof {
            use_type_invariant(&*self);
        }
        self.last_activity = Some(now);
    }

    /// The idle check of the reaper of `generation`, made at `now`. On
    /// `KilledDueToIdle` the process has been released and the caller
    /// terminates it.
    pub fn reap(&mut self, generation: u64, idle_timeout_secs: u64, now: Timestamp) -> (verdict:
        ReaperState)
        ensures
            final(self)@ == old(self)@.reap(generation as nat, idle_timeout_secs as nat, now@),
            verdict == old(self)@.reap_verdict(
                generation as nat,
                idle_timeout_secs as nat,
                now@,
            ),
    {
        proof {
            use_type_invariant(&*self);
        }
        let watched = match self.process_id() {
            Some(id) => id == generation,
            None => false,
        };
        if !watched {
            return ReaperState::SupersededExit;
        }
        let expired = match self.last_activity {
            Some(last) => now.idle_exceeded(&last, idle_timeout_secs),
            None => false,
        };
        if expired {
            self.process = None;
            ReaperState::KilledDueToIdle
        } else {
            ReaperState::Running
        }
    }

    /// Ends the session's life. Returns the process to terminate.
    pub fn teardown(&mut self) -> (terminate: Option<u64>)
        ensures
            final(self)@ == old(self)@.teardown(),
            id_view(terminate) == old(self)@.held_id(),
    {
        let terminate = self.process_id();
        self.process = None;
        self.pending = false;
        terminate
    }
}

} // verus!
