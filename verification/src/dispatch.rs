//! The dispatcher's decisions: what a request does to the session and what
//! the dispatcher has to do next.
//!
//! A request for a session is served get-or-start: an active session answers
//! with its URL and nothing is spawned; forced renewal is left to the idle
//! reaper.

use crate::clock::Timestamp;
use crate::protocol::{command_of, parse_command, Command, Response, ResponseModel};
use crate::session::{
    outcome_view, QueryModel, Query, Session, SessionModel, StartError, StartTicket,
    StartTicketModel, Started, StartedModel,
};
use vstd::prelude::*;

verus! {

/// What the dispatcher does after a request, as the contracts see it.
pub enum PlanModel {
    Reply(ResponseModel),
    Spawn(StartTicketModel),
    Ignore,
}

/// What the dispatcher does after a request.
#[derive(Debug, PartialEq, Eq)]
pub enum Plan {
    /// Write this response.
    Reply(Response),
    /// Terminate the process named on the ticket, spawn the tool, report
    /// through `complete_start`, and write the response to its outcome.
    Spawn(StartTicket),
    /// Discard the request and write nothing.
    Ignore,
}

impl View for Plan {
    type V = PlanModel;

    open spec fn view(&self) -> PlanModel {
        match self {
            Plan::Reply(response) => PlanModel::Reply(response@),
            Plan::Spawn(ticket) => PlanModel::Spawn(ticket@),
            Plan::Ignore => PlanModel::Ignore,
        }
    }
}

/// The session after `command`, received at `now`.
pub open spec fn handled(session: SessionModel, command: Command, now: nat) -> SessionModel {
    match command {
        Command::OpenNewConnection => session.query(),
        Command::KeepAlive => session.keep_alive(now),
        Command::Unknown => session,
    }
}

/// What the dispatcher does after `command`.
pub open spec fn plan_for(session: SessionModel, command: Command) -> PlanModel {
    match command {
        Command::OpenNewConnection => match session.query_answer() {
            QueryModel::Existing(url) => PlanModel::Reply(ResponseModel::Url(url)),
            QueryModel::Spawn(ticket) => PlanModel::Spawn(ticket),
        },
        Command::KeepAlive => PlanModel::Reply(ResponseModel::Ack),
        Command::Unknown => PlanModel::Ignore,
    }
}

/// Whether the session has a start attempt left to issue for `command`,
/// should it need one.
pub open spec fn can_handle(session: SessionModel, command: Command) -> bool {
    command == Command::OpenNewConnection ==> session.is_active() || session.issued < u64::MAX
}

/// The response to the outcome of a start: the URL, or the error token
/// whatever the reason.
pub open spec fn response_to(outcome: Result<StartedModel, StartError>) -> ResponseModel {
    match outcome {
        Ok(started) => ResponseModel::Url(started.url),
        Err(_) => ResponseModel::Error,
    }
}

/// Applies `command`, received at `now`, to the session.
pub fn handle(session: &mut Session, command: Command, now: Timestamp) -> (plan: Plan)
    requires
        can_handle(old(session)@, command),
    ensures
        final(session)@ == handled(old(session)@, command, now@),
        plan@ == plan_for(old(session)@, command),
{
    match command {
        Command::OpenNewConnection => match session.query() {
            Query::Existing(url) => Plan::Reply(Response::Url(url)),
            Query::Spawn(ticket) => Plan::Spawn(ticket),
        },
        Command::KeepAlive => {
            session.keep_alive(now);
            Plan::Reply(Response::Ack)
        },
        Command::Unknown => Plan::Ignore,
    }
}

/// Classifies `request`, received at `now`, and applies it to the session.
pub fn dispatch(session: &mut Session, request: &[u8], now: Timestamp) -> (plan: Plan)
    requires
        can_handle(old(session)@, command_of(request@)),
    ensures
        final(session)@ == handled(old(session)@, command_of(request@), now@),
        plan@ == plan_for(old(session)@, command_of(request@)),
{
    handle(session, parse_command(request), now)
}

/// The response to write once a start has been completed.
pub fn start_response(outcome: &Result<Started, StartError>) -> (response: Response)
    ensures
        response@ == response_to(outcome_view(*outcome)),
{
    match outcome {
        Ok(started) => Response::Url(started.url.clone()),
        Err(_) => Response::Error,
    }
}

} // verus!
