//! Session layer of a pool client: request-identifier allocation, line
//! framing for outbound commands, the reader's three-way event
//! classification, and the login handshake decisions.

use vstd::prelude::*;

use crate::json::{parse_json, parsed_json, render_json, json_text, JsonValue};
use crate::message::{
    encode_request, event_matches_json, message_json_ok, opt_str_view, request_json_matches,
    ClientCommand, ErrorReply, Job, JsonMessage, PoolCommand, PoolEvent, PoolReply, PoolRequest,
    Share, WorkerId,
};

verus! {

/// Identifier for matching our requests with server replies: a 32-bit
/// counter value.
#[derive(Debug, Copy, Clone, Eq, PartialEq, Structural)]
pub struct RequestId(pub u32);

/// The identifier handed out by the k-th allocation of a fresh writer:
/// the counter starts at 1 and wraps from the maximum 32-bit value back
/// to 0.
pub open spec fn request_id_at(k: nat) -> u32 {
    ((1 + k) % 0x1_0000_0000) as u32
}

/// Within one non-wrapped span of the counter no identifier repeats: two
/// allocations fewer than 2^32 apart always hand out different values.
pub proof fn lemma_request_id_no_repeat(k1: nat, k2: nat)
    requires
        k1 < k2,
        k2 - k1 < 0x1_0000_0000,
    ensures
        request_id_at(k1) != request_id_at(k2),
{
    let m = 0x1_0000_0000int;
    let a = 1 + k1 as int;
    let b = 1 + k2 as int;
    vstd::arithmetic::div_mod::lemma_fundamental_div_mod(a, m);
    vstd::arithmetic::div_mod::lemma_fundamental_div_mod(b, m);
    if a % m == b % m {
        let qa = a / m;
        let qb = b / m;
        assert(b - a == (qb - qa) * m) by (nonlinear_arith)
            requires
                a == m * qa + a % m,
                b == m * qb + b % m,
                a % m == b % m,
        ;
        assert((qb - qa) * m >= m || (qb - qa) * m <= 0) by (nonlinear_arith)
            requires
                m > 0,
        ;
    }
}

/// What went wrong: the session-level failure kinds.
#[derive(Debug)]
pub enum Error_ {
    /// Transport failure, with the transport's own description.
    IoError(String),
    /// Malformed JSON or a malformed custom encoding in a message.
    MessageError,
    /// Clean peer close, detected as an empty read.
    Disconnected,
    /// The idle timeout elapsed before the login reply arrived.
    LoginTimedOut,
    /// An inbound shape during login other than the handled cases.
    LoginUnexpectedReply,
    /// The server reported a failure of its own.
    ErrorReply(ErrorReply),
}

/// A terminal session error.
#[derive(Debug)]
pub struct Error(pub Error_);

impl Error {
    /// The clean-close error.
    pub fn disconnected() -> (r: Self)
        ensures
            r.0 is Disconnected,
    {
        Error(Error_::Disconnected)
    }

    /// The login-timeout error.
    pub fn login_timed_out() -> (r: Self)
        ensures
            r.0 is LoginTimedOut,
    {
        Error(Error_::LoginTimedOut)
    }

    /// The unexpected-reply error.
    pub fn login_unexpected_reply() -> (r: Self)
        ensures
            r.0 is LoginUnexpectedReply,
    {
        Error(Error_::LoginUnexpectedReply)
    }
}

impl From<ErrorReply> for Error {
    fn from(error: ErrorReply) -> (r: Self) {
        Error(Error_::ErrorReply(error))
    }
}

impl vstd::std_specs::convert::FromSpecImpl<ErrorReply> for Error {
    open spec fn obeys_from_spec() -> bool {
        true
    }

    open spec fn from_spec(error: ErrorReply) -> Self {
        Error(Error_::ErrorReply(error))
    }
}

/// Result of a client operation.
pub type PoolResult<T> = Result<T, Error>;

/// Write-end state of a connection to a pool: the request-identifier
/// counter, plus a ghost count of the allocations made so far.
pub struct ClientWriter {
    next_id: RequestId,
    count: Ghost<nat>,
}

impl ClientWriter {
    /// How many identifiers this writer has handed out.
    pub closed spec fn count(&self) -> nat {
        self.count@
    }

    /// The counter always holds the identifier the next allocation hands
    /// out.
    pub closed spec fn wf(&self) -> bool {
        self.next_id.0 == request_id_at(self.count@)
    }

    /// A fresh writer: allocation starts at identifier 1.
    pub fn new() -> (r: Self)
        ensures
            r.wf(),
            r.count() == 0,
    {
        ClientWriter { next_id: RequestId(1), count: Ghost(0) }
    }

    /// Hand out the next request identifier: strictly sequential from 1,
    /// wrapping from the maximum 32-bit value back to 0.
    pub fn alloc_id(&mut self) -> (r: RequestId)
        requires
            old(self).wf(),
        ensures
            final(self).wf(),
            final(self).count() == old(self).count() + 1,
            r.0 == request_id_at(old(self).count()),
    {
        let id = self.next_id.0;
        let next: u32 = if id == 0xffff_ffff {
            0
        } else {
            id + 1
        };
        proof {
            let m = 0x1_0000_0000int;
            let a = 1 + self.count@ as int;
            vstd::arithmetic::div_mod::lemma_mod_bound(a, m);
            vstd::arithmetic::div_mod::lemma_add_mod_noop(a, 1, m);
            vstd::arithmetic::div_mod::lemma_small_mod(1nat, m as nat);
            if a % m == m - 1 {
                vstd::arithmetic::div_mod::lemma_mod_self_0(m);
                assert((a + 1) % m == 0);
            } else {
                vstd::arithmetic::div_mod::lemma_small_mod((a % m + 1) as nat, m as nat);
            }
        }
        self.next_id = RequestId(next);
        proof {
            self.count@ = self.count@ + 1;
        }
        RequestId(id)
    }

    /// Frame one command as the JSON line to send: allocates the next
    /// request identifier and renders the tagged request. The line is the
    /// text of a JSON tree in exactly the request's shape, and holds no
    /// newline, so one call is one wire message.
    pub fn send(&mut self, command: PoolCommand) -> (r: (RequestId, String))
        requires
            old(self).wf(),
        ensures
            final(self).wf(),
            final(self).count() == old(self).count() + 1,
            r.0.0 == request_id_at(old(self).count()),
            exists|v: JsonValue|
                request_json_matches(r.0.0, command@, v) && r.1@ == json_text(v),
            forall|i: int| 0 <= i < r.1@.len() ==> r.1@[i] != '\n',
    {
        let id = self.alloc_id();
        let request = PoolRequest { id, command };
        let tree = encode_request(&request);
        let line = render_json(&tree);
        (id, line)
    }
}

/// Write-end state of a logged-in connection: the identifier counter
/// bound to the session's worker token.
pub struct PoolClientWriter {
    writer: ClientWriter,
    worker_id: WorkerId,
}

impl PoolClientWriter {
    /// The worker token the session is bound to.
    pub closed spec fn worker(&self) -> Seq<char> {
        self.worker_id@
    }

    /// How many identifiers this writer has handed out.
    pub closed spec fn count(&self) -> nat {
        self.writer.count()
    }

    /// The counter always holds the identifier the next allocation hands
    /// out.
    pub closed spec fn wf(&self) -> bool {
        self.writer.wf()
    }

    /// Bind a writer to the worker token the server assigned at login.
    pub fn new(writer: ClientWriter, worker_id: WorkerId) -> (r: Self)
        requires
            writer.wf(),
        ensures
            r.wf(),
            r.count() == writer.count(),
            r.worker() == worker_id@,
    {
        PoolClientWriter { writer, worker_id }
    }

    /// Frame a keepalive message carrying the session's worker token.
    pub fn keepalive(&mut self) -> (r: (RequestId, String))
        requires
            old(self).wf(),
        ensures
            final(self).wf(),
            final(self).count() == old(self).count() + 1,
            final(self).worker() == old(self).worker(),
            r.0.0 == request_id_at(old(self).count()),
            exists|v: JsonValue|
                request_json_matches(
                    r.0.0,
                    crate::message::PoolCommandView::KeepAlived(old(self).worker()),
                    v,
                ) && r.1@ == json_text(v),
    {
        let command = PoolCommand::KeepAlived { id: self.worker_id.clone() };
        let r = self.writer.send(command);
        r
    }

    /// Frame a share submission for one job: the share carries the
    /// session's worker token, the job's token and algo (the empty string
    /// when the job has none), and the supplied nonce and result.
    pub fn submit(&mut self, job: &Job, nonce: u32, result: &[u8; 32]) -> (r: (RequestId, String))
        requires
            old(self).wf(),
        ensures
            final(self).wf(),
            final(self).count() == old(self).count() + 1,
            final(self).worker() == old(self).worker(),
            r.0.0 == request_id_at(old(self).count()),
            exists|v: JsonValue|
                request_json_matches(
                    r.0.0,
                    crate::message::PoolCommandView::Submit(crate::message::ShareView {
                        worker_id: old(self).worker(),
                        job_id: job@.job_id,
                        nonce,
                        result: result@,
                        algo: match job@.algo {
                            Some(a) => a,
                            None => Seq::empty(),
                        },
                    }),
                    v,
                ) && r.1@ == json_text(v),
    {
        let algo: String = match job.algo() {
            Some(a) => a.to_owned(),
            None => String::new(),
        };
        let share = Share {
            worker_id: self.worker_id.clone(),
            job_id: job.id(),
            nonce,
            result: *result,
            algo,
        };
        let command = PoolCommand::Submit(share);
        let r = self.writer.send(command);
        r
    }
}

/// What one attempt to read a line from the transport came to. The
/// embedding application maps its transport's read result onto this and
/// hands it in.
pub enum ReadOutcome {
    /// A line was read (without its terminator). An empty line stands
    /// for an empty read: the peer closed the connection.
    Line(String),
    /// The read timed out or would block: the socket was idle.
    TimedOut,
    /// Any other transport failure, with its description.
    Failed(String),
}

/// Classify one read outcome: an idle timeout is "no event", never an
/// error, and exactly one "no event" comes from each timed-out read; an
/// empty read is always the disconnected error, never "no event"; a line
/// is decoded, and a line that does not decode is a terminal message
/// error.
pub fn read_event(outcome: ReadOutcome) -> (r: PoolResult<Option<PoolEvent<RequestId>>>)
    ensures
        match outcome {
            ReadOutcome::TimedOut => r matches Ok(e) && e is None,
            ReadOutcome::Failed(m) => r matches Err(e) && (e.0 matches Error_::IoError(d) && d@
                == m@),
            ReadOutcome::Line(s) => if s@.len() == 0 {
                r matches Err(e) && e.0 is Disconnected
            } else {
                match parsed_json(s@) {
                    None => r matches Err(e) && e.0 is MessageError,
                    Some(v) => if message_json_ok(v) {
                        r matches Ok(oe) && (oe matches Some(ev) && event_matches_json(ev@, v))
                    } else {
                        r matches Err(e) && e.0 is MessageError
                    },
                }
            },
        },
{
    match outcome {
        ReadOutcome::TimedOut => Ok(None),
        ReadOutcome::Failed(m) => Err(Error(Error_::IoError(m))),
        ReadOutcome::Line(s) => {
            if s.as_str().is_empty() {
                return Err(Error::disconnected());
            }
            let tree = match parse_json(s.as_str()) {
                Some(t) => t,
                None => {
                    return Err(Error(Error_::MessageError));
                },
            };
            let msg: JsonMessage<PoolEvent<RequestId>> = match crate::message::decode_message(
                &tree,
            ) {
                Some(m) => m,
                None => {
                    return Err(Error(Error_::MessageError));
                },
            };
            Ok(Some(msg.body))
        },
    }
}

/// What the login loop does with one read result.
#[derive(Debug)]
pub enum LoginStep {
    /// The login reply arrived: the session's worker token, the first
    /// job, and the optional status message.
    Success { worker_id: WorkerId, job: Job, status: Option<String> },
    /// The handshake failed with a terminal error.
    Failed(Error),
    /// A job notification arrived before the login reply: it is ignored
    /// and the loop keeps waiting.
    Ignored,
}

/// Decide one step of the login handshake from one read result: "no
/// event" (the idle timeout) fails the login with the timeout error; a
/// reply with an error fails it with the server's error; a reply carrying
/// a job assignment succeeds; a job notification before the reply is
/// ignored and the handshake goes on; every other shape fails with the
/// unexpected-reply error.
pub fn login_step(event: Option<PoolEvent<RequestId>>) -> (r: LoginStep)
    ensures
        match event {
            None => r matches LoginStep::Failed(e) && e.0 is LoginTimedOut,
            Some(ev) => match ev {
                PoolEvent::ClientCommand(_) => r is Ignored,
                PoolEvent::PoolReply { id, error, result } => match error {
                    Some(er) => r matches LoginStep::Failed(f) && (f.0 matches Error_::ErrorReply(
                        e2,
                    ) && e2@ == er@),
                    None => match result {
                        Some(PoolReply::Job(a)) => r matches LoginStep::Success {
                            worker_id,
                            job,
                            status,
                        } && worker_id@ == a@.worker_id && job@ == a@.job && opt_str_view(status)
                            == a@.status,
                        _ => r matches LoginStep::Failed(f) && f.0 is LoginUnexpectedReply,
                    },
                },
            },
        },
{
    match event {
        None => LoginStep::Failed(Error::login_timed_out()),
        Some(PoolEvent::ClientCommand(ClientCommand::Job(_))) => LoginStep::Ignored,
        Some(PoolEvent::PoolReply { id: _, error: Some(e), result: _ }) => LoginStep::Failed(
            Error(Error_::ErrorReply(e)),
        ),
        Some(PoolEvent::PoolReply { id: _, error: None, result: Some(PoolReply::Job(a)) }) => {
            let worker_id = a.worker_id();
            let status = match a.status() {
                Some(s) => Some(s.to_owned()),
                None => None,
            };
            let job = a.into_job();
            LoginStep::Success { worker_id, job, status }
        },
        Some(PoolEvent::PoolReply { id: _, error: None, result: _ }) => LoginStep::Failed(
            Error::login_unexpected_reply(),
        ),
    }
}

} // verus!
