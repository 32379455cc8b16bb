//! Steady-state client logic: the handler interface and the dispatch
//! decision that routes each inbound event to the right callback. The
//! embedding application owns the socket loop; it reads one event at a
//! time, hands it to [`dispatch_event`], and sends a keepalive whenever
//! the reader reports idle.

use vstd::prelude::*;

use crate::connection::RequestId;
use crate::message::{ClientCommand, ErrorReply, Job, JobAssignment, PoolEvent, PoolReply};

verus! {

/// Objects that can handle messages received from the pool.
pub trait MessageHandler {
    /// An unsolicited job notification arrived.
    fn job_command(&mut self, job: Job);

    /// A reply carried a server-reported error.
    fn error_reply(&mut self, id: RequestId, error: ErrorReply);

    /// A reply to a submit carried a status string.
    fn status_reply(&mut self, id: RequestId, status: String);

    /// A reply carried a job assignment.
    fn job_reply(&mut self, id: RequestId, job: Box<JobAssignment>);
}

/// What the run loop does with one inbound event.
#[derive(Debug)]
pub enum RunAction {
    /// Hand the pushed job to the job-notification callback.
    Notify(Job),
    /// Hand the server's error to the error-reply callback.
    ReportError(RequestId, ErrorReply),
    /// Hand the status string to the status-reply callback.
    ReportStatus(RequestId, String),
    /// Hand the job assignment to the job-reply callback.
    Assign(RequestId, Box<JobAssignment>),
    /// A reply with neither error nor result: noted, no callback.
    Nothing,
}

/// Decide what to do with one inbound event, by its shape: a notification
/// goes to the job callback; a reply with an error to the error callback,
/// whatever its result; a clean reply to the status or assignment
/// callback by its result; an empty reply to no callback at all.
pub fn classify_event(event: PoolEvent<RequestId>) -> (r: RunAction)
    ensures
        match event {
            PoolEvent::ClientCommand(ClientCommand::Job(j)) => r matches RunAction::Notify(j2)
                && j2@ == j@,
            PoolEvent::PoolReply { id, error, result } => match error {
                Some(e) => r matches RunAction::ReportError(i2, e2) && i2 == id && e2@ == e@,
                None => match result {
                    Some(PoolReply::Status { status }) => r matches RunAction::ReportStatus(
                        i2,
                        s2,
                    ) && i2 == id && s2@ == status@,
                    Some(PoolReply::Job(a)) => r matches RunAction::Assign(i2, a2) && i2 == id
                        && a2@ == a@,
                    None => r is Nothing,
                },
            },
        },
{
    match event {
        PoolEvent::ClientCommand(ClientCommand::Job(j)) => RunAction::Notify(j),
        PoolEvent::PoolReply { id, error: Some(e), result: _ } => RunAction::ReportError(id, e),
        PoolEvent::PoolReply { id, error: None, result: Some(PoolReply::Status { status }) } => {
            RunAction::ReportStatus(id, status)
        },
        PoolEvent::PoolReply { id, error: None, result: Some(PoolReply::Job(a)) } => {
            RunAction::Assign(id, a)
        },
        PoolEvent::PoolReply { id: _, error: None, result: None } => RunAction::Nothing,
    }
}

/// Route one inbound event to the matching handler callback; an empty
/// reply reaches no callback.
pub fn dispatch_event<H: MessageHandler>(handler: &mut H, event: PoolEvent<RequestId>) {
    match classify_event(event) {
        RunAction::Notify(j) => handler.job_command(j),
        RunAction::ReportError(id, e) => handler.error_reply(id, e),
        RunAction::ReportStatus(id, s) => handler.status_reply(id, s),
        RunAction::Assign(id, a) => handler.job_reply(id, a),
        RunAction::Nothing => (),
    }
}

} // verus!
