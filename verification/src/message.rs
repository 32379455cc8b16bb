//! The wire data model of the pool protocol: message shapes for both
//! directions, the opaque bounded tokens, and the decoding of inbound
//! messages from plain JSON value trees.

use vstd::prelude::*;

use crate::connection::RequestId;
use crate::hexbytes::{bytes_of_hex, hex_to_varbyte, target_of_hex};
use crate::json::{obj_get, lookup, JsonValue};
use vstd::utf8::encode_utf8;
use vstd::std_specs::cmp::PartialEqSpec;
use vstd::string::StringSliceAdditionalSpecFns;

verus! {

/// Maximum byte length of the opaque server-issued tokens.
pub open spec fn token_capacity() -> nat {
    64
}

/// `WorkerId` can be any JSON string of up to 64 bytes. It is opaque to
/// the worker and echoed back on outbound commands.
#[derive(Debug)]
pub struct WorkerId {
    s: String,
}

impl View for WorkerId {
    type V = Seq<char>;

    closed spec fn view(&self) -> Seq<char> {
        self.s@
    }
}

impl Clone for WorkerId {
    fn clone(&self) -> (r: Self)
        ensures
            r@ == self@,
    {
        WorkerId { s: self.s.clone() }
    }
}

impl WorkerId {
    /// Build a token from a string of at most 64 bytes; longer input is
    /// rejected.
    pub fn try_new(s: &str) -> (r: Option<WorkerId>)
        ensures
            match r {
                Some(w) => w@ == s@ && encode_utf8(s@).len() <= token_capacity(),
                None => encode_utf8(s@).len() > token_capacity(),
            },
    {
        if s.as_bytes().len() <= 64 {
            Some(WorkerId { s: s.to_owned() })
        } else {
            None
        }
    }

    /// The token's characters.
    pub fn as_str(&self) -> (r: &str)
        ensures
            r@ == self@,
    {
        self.s.as_str()
    }
}

/// Server-defined job identifier: any JSON string of up to 64 bytes,
/// opaque to the worker. Two jobs are the same job exactly when their
/// identifiers are equal.
#[derive(Debug)]
pub struct JobId {
    s: String,
}

impl View for JobId {
    type V = Seq<char>;

    closed spec fn view(&self) -> Seq<char> {
        self.s@
    }
}

impl Clone for JobId {
    fn clone(&self) -> (r: Self)
        ensures
            r@ == self@,
    {
        JobId { s: self.s.clone() }
    }
}

impl PartialEq for JobId {
    fn eq(&self, other: &JobId) -> (r: bool) {
        self.s == other.s
    }
}

impl vstd::std_specs::cmp::PartialEqSpecImpl for JobId {
    open spec fn obeys_eq_spec() -> bool {
        true
    }

    open spec fn eq_spec(&self, other: &JobId) -> bool {
        self@ == other@
    }
}

impl JobId {
    /// Build a token from a string of at most 64 bytes; longer input is
    /// rejected.
    pub fn try_new(s: &str) -> (r: Option<JobId>)
        ensures
            match r {
                Some(j) => j@ == s@ && encode_utf8(s@).len() <= token_capacity(),
                None => encode_utf8(s@).len() > token_capacity(),
            },
    {
        if s.as_bytes().len() <= 64 {
            Some(JobId { s: s.to_owned() })
        } else {
            None
        }
    }

    /// The token's characters.
    pub fn as_str(&self) -> (r: &str)
        ensures
            r@ == self@,
    {
        self.s.as_str()
    }
}

/// Mathematical content of a [`Job`].
pub struct JobView {
    pub blob: Seq<u8>,
    pub job_id: Seq<char>,
    pub target: u64,
    pub algo: Option<Seq<char>>,
    pub variant: u32,
}

/// The characters of an optional string.
pub open spec fn opt_str_view(o: Option<String>) -> Option<Seq<char>> {
    match o {
        Some(s) => Some(s@),
        None => None,
    }
}

/// Description of what hash to try to find: an opaque payload, the job
/// token, the expanded 64-bit goal value, and two compatibility fields.
/// Immutable once constructed.
#[derive(Debug)]
pub struct Job {
    blob: Vec<u8>,
    job_id: JobId,
    target: u64,
    algo: Option<String>,
    variant: u32,
}

impl View for Job {
    type V = JobView;

    closed spec fn view(&self) -> JobView {
        JobView {
            blob: self.blob@,
            job_id: self.job_id@,
            target: self.target,
            algo: opt_str_view(self.algo),
            variant: self.variant,
        }
    }
}

impl Clone for Job {
    fn clone(&self) -> (r: Self)
        ensures
            r@ == self@,
    {
        let algo = match &self.algo {
            Some(a) => Some(a.clone()),
            None => None,
        };
        Job {
            blob: self.blob.clone(),
            job_id: self.job_id.clone(),
            target: self.target,
            algo,
            variant: self.variant,
        }
    }
}

impl PartialEq for Job {
    fn eq(&self, other: &Job) -> (r: bool) {
        self.job_id.eq(&other.job_id)
    }
}

impl vstd::std_specs::cmp::PartialEqSpecImpl for Job {
    open spec fn obeys_eq_spec() -> bool {
        true
    }

    open spec fn eq_spec(&self, other: &Job) -> bool {
        self@.job_id == other@.job_id
    }
}

impl Job {
    /// Assemble a job from its parts.
    pub fn new(blob: Vec<u8>, job_id: JobId, target: u64, algo: Option<String>, variant: u32) -> (r:
        Job)
        ensures
            r@ == (JobView {
                blob: blob@,
                job_id: job_id@,
                target,
                algo: opt_str_view(algo),
                variant,
            }),
    {
        Job { blob, job_id, target, algo, variant }
    }

    /// Borrow the payload.
    pub fn blob(&self) -> (r: &[u8])
        ensures
            r@ == self@.blob,
    {
        self.blob.as_slice()
    }

    /// The job token.
    pub fn id(&self) -> (r: JobId)
        ensures
            r@ == self@.job_id,
    {
        self.job_id.clone()
    }

    /// The goal hash, always fully expanded to 64 bits.
    pub fn target(&self) -> (r: u64)
        ensures
            r == self@.target,
    {
        self.target
    }

    /// Algo-switching extension for some upstreams.
    pub fn algo(&self) -> (r: Option<&str>)
        ensures
            match r {
                Some(a) => self@.algo == Some(a@),
                None => self@.algo is None,
            },
    {
        match &self.algo {
            Some(a) => Some(a.as_str()),
            None => None,
        }
    }

    /// Compatibility field sent by some proxies.
    pub fn variant(&self) -> (r: u32)
        ensures
            r == self@.variant,
    {
        self.variant
    }
}

/// Two jobs are equal exactly when their job tokens are equal, whatever
/// their payloads, targets or algo fields hold.
pub proof fn lemma_job_equality(a: Job, b: Job)
    ensures
        a.eq_spec(&b) <==> a@.job_id == b@.job_id,
{
}

/// Mathematical content of an [`ErrorReply`].
pub struct ErrorReplyView {
    pub code: i64,
    pub message: Seq<char>,
}

/// A server-reported failure: a numeric code and a message. Also usable as
/// a generic error value.
#[derive(Debug)]
pub struct ErrorReply {
    code: i64,
    message: String,
}

impl View for ErrorReply {
    type V = ErrorReplyView;

    closed spec fn view(&self) -> ErrorReplyView {
        ErrorReplyView { code: self.code, message: self.message@ }
    }
}

impl ErrorReply {
    /// Assemble an error reply.
    pub fn new(code: i64, message: String) -> (r: ErrorReply)
        ensures
            r@ == (ErrorReplyView { code, message: message@ }),
    {
        ErrorReply { code, message }
    }

    /// The server's numeric code.
    pub fn code(&self) -> (r: i64)
        ensures
            r == self@.code,
    {
        self.code
    }

    /// The server's message.
    pub fn description(&self) -> (r: &str)
        ensures
            r@ == self@.message,
    {
        self.message.as_str()
    }
}

/// Mathematical content of a [`JobAssignment`].
pub struct JobAssignmentView {
    pub worker_id: Seq<char>,
    pub job: JobView,
    pub status: Option<Seq<char>>,
    pub extensions: Seq<Seq<char>>,
}

/// Initial job assignment: the server's reply to login, carrying the
/// session's worker token and the first job.
#[derive(Debug)]
pub struct JobAssignment {
    worker_id: WorkerId,
    job: Job,
    status: Option<String>,
    extensions: Vec<String>,
}

impl View for JobAssignment {
    type V = JobAssignmentView;

    closed spec fn view(&self) -> JobAssignmentView {
        JobAssignmentView {
            worker_id: self.worker_id@,
            job: self.job@,
            status: opt_str_view(self.status),
            extensions: self.extensions.deep_view(),
        }
    }
}

impl JobAssignment {
    /// Assemble an assignment from its parts.
    pub fn new(worker_id: WorkerId, job: Job, status: Option<String>, extensions: Vec<String>) -> (r:
        JobAssignment)
        ensures
            r@ == (JobAssignmentView {
                worker_id: worker_id@,
                job: job@,
                status: opt_str_view(status),
                extensions: extensions.deep_view(),
            }),
    {
        JobAssignment { worker_id, job, status, extensions }
    }

    /// Server-defined token identifying our connection.
    pub fn worker_id(&self) -> (r: WorkerId)
        ensures
            r@ == self@.worker_id,
    {
        self.worker_id.clone()
    }

    /// Return the new job itself.
    pub fn into_job(self) -> (r: Job)
        ensures
            r@ == self@.job,
    {
        self.job
    }

    /// Optional message, usually something friendly like "OK".
    pub fn status(&self) -> (r: Option<&str>)
        ensures
            match r {
                Some(s) => self@.status == Some(s@),
                None => self@.status is None,
            },
    {
        match &self.status {
            Some(s) => Some(s.as_str()),
            None => None,
        }
    }

    /// Protocol extensions supported by the server.
    pub fn extensions(&self) -> (r: &Vec<String>)
        ensures
            r.deep_view() == self@.extensions,
    {
        &self.extensions
    }
}

/// Command pushed by the server without a request: a new job notification.
#[derive(Debug)]
pub enum ClientCommand {
    Job(Job),
}

/// Reply carried in the `result` field of a pool reply: a job assignment
/// (login and job requests) or a bare status string (submit).
#[derive(Debug)]
pub enum PoolReply {
    Job(Box<JobAssignment>),
    Status { status: String },
}

/// Mathematical content of a [`PoolReply`].
pub enum PoolReplyView {
    Job(JobAssignmentView),
    Status(Seq<char>),
}

impl View for PoolReply {
    type V = PoolReplyView;

    open spec fn view(&self) -> PoolReplyView {
        match self {
            PoolReply::Job(a) => PoolReplyView::Job(a@),
            PoolReply::Status { status } => PoolReplyView::Status(status@),
        }
    }
}

/// Message received from the pool: either an unsolicited command or a
/// reply to one of our requests, tagged with the request identifier it
/// answers.
#[derive(Debug)]
pub enum PoolEvent<ReqId> {
    ClientCommand(ClientCommand),
    PoolReply { id: ReqId, error: Option<ErrorReply>, result: Option<PoolReply> },
}

/// Mathematical content of a [`PoolEvent`] over 32-bit request
/// identifiers.
pub enum PoolEventView {
    Notify(JobView),
    Reply { id: u32, error: Option<ErrorReplyView>, result: Option<PoolReplyView> },
}

/// An envelope around every inbound message: the optional `jsonrpc` and
/// top-level `status` markers, then the message body itself.
#[derive(Debug)]
pub struct JsonMessage<T> {
    pub jsonrpc: Option<String>,
    pub status: Option<String>,
    pub body: T,
}

impl View for PoolEvent<RequestId> {
    type V = PoolEventView;

    open spec fn view(&self) -> PoolEventView {
        match self {
            PoolEvent::ClientCommand(ClientCommand::Job(j)) => PoolEventView::Notify(j@),
            PoolEvent::PoolReply { id, error, result } => PoolEventView::Reply {
                id: id.0,
                error: match error {
                    Some(e) => Some(e@),
                    None => None,
                },
                result: match result {
                    Some(r) => Some(r@),
                    None => None,
                },
            },
        }
    }
}

/// The characters of a string value; the empty sequence for any other
/// value.
pub open spec fn str_content(v: JsonValue) -> Seq<char> {
    match v {
        JsonValue::Str(s) => s@,
        _ => Seq::empty(),
    }
}

/// A required string field: its characters, or `None` when the field is
/// missing or not a string.
pub open spec fn spec_str_field(fs: Seq<(String, JsonValue)>, key: Seq<char>) -> Option<Seq<char>> {
    match obj_get(fs, key) {
        Some(JsonValue::Str(s)) => Some(s@),
        _ => None,
    }
}

/// An optional string field: `Some(None)` when missing or null,
/// `Some(Some(..))` for a string, `None` for any other value.
pub open spec fn spec_opt_str_field(fs: Seq<(String, JsonValue)>, key: Seq<char>) -> Option<
    Option<Seq<char>>,
> {
    match obj_get(fs, key) {
        None => Some(None),
        Some(JsonValue::Null) => Some(None),
        Some(JsonValue::Str(s)) => Some(Some(s@)),
        _ => None,
    }
}

/// A required token field: a string of at most 64 bytes.
pub open spec fn spec_token_field(fs: Seq<(String, JsonValue)>, key: Seq<char>) -> Option<
    Seq<char>,
> {
    match obj_get(fs, key) {
        Some(JsonValue::Str(s)) => if encode_utf8(s@).len() <= token_capacity() {
            Some(s@)
        } else {
            None
        },
        _ => None,
    }
}

/// The compatibility `variant` field: 0 when missing, otherwise a number
/// that fits 32 bits.
pub open spec fn spec_variant_field(fs: Seq<(String, JsonValue)>) -> Option<u32> {
    match obj_get(fs, "variant"@) {
        None => Some(0u32),
        Some(JsonValue::UInt(u)) => if u <= u32::MAX {
            Some(u as u32)
        } else {
            None
        },
        _ => None,
    }
}

/// A signed 64-bit error code field.
pub open spec fn spec_code_field(fs: Seq<(String, JsonValue)>) -> Option<i64> {
    match obj_get(fs, "code"@) {
        Some(JsonValue::UInt(u)) => if u <= i64::MAX {
            Some(u as i64)
        } else {
            None
        },
        Some(JsonValue::Int(i)) => Some(i),
        _ => None,
    }
}

/// The reply identifier field: a number that fits 32 bits.
pub open spec fn spec_id_field(fs: Seq<(String, JsonValue)>) -> Option<u32> {
    match obj_get(fs, "id"@) {
        Some(JsonValue::UInt(u)) => if u <= u32::MAX {
            Some(u as u32)
        } else {
            None
        },
        _ => None,
    }
}

/// The `extensions` field: the empty sequence when missing, otherwise an
/// array of strings.
pub open spec fn spec_extensions_field(fs: Seq<(String, JsonValue)>) -> Option<Seq<Seq<char>>> {
    match obj_get(fs, "extensions"@) {
        None => Some(Seq::empty()),
        Some(JsonValue::Arr(items)) => if forall|i: int|
            0 <= i < items@.len() ==> items@[i] is Str {
            Some(items@.map_values(|x: JsonValue| str_content(x)))
        } else {
            None
        },
        _ => None,
    }
}

/// The value tree is a well-formed job object.
pub open spec fn job_json_ok(v: JsonValue) -> bool {
    match v {
        JsonValue::Obj(fields) => {
            let fs = fields@;
            &&& spec_str_field(fs, "blob"@) matches Some(h) && bytes_of_hex(h) is Some
            &&& spec_token_field(fs, "job_id"@) is Some
            &&& spec_str_field(fs, "target"@) matches Some(t) && target_of_hex(t) is Some
            &&& spec_opt_str_field(fs, "algo"@) is Some
            &&& spec_variant_field(fs) is Some
        },
        _ => false,
    }
}

/// The job decodes from the value tree: each field of the job is the
/// decoded content of the corresponding JSON field.
pub open spec fn job_matches_json(j: JobView, v: JsonValue) -> bool {
    match v {
        JsonValue::Obj(fields) => {
            let fs = fields@;
            &&& spec_str_field(fs, "blob"@) matches Some(h) && bytes_of_hex(h) == Some(j.blob)
            &&& spec_token_field(fs, "job_id"@) == Some(j.job_id)
            &&& spec_str_field(fs, "target"@) matches Some(t) && target_of_hex(t) == Some(j.target)
            &&& spec_opt_str_field(fs, "algo"@) == Some(j.algo)
            &&& spec_variant_field(fs) == Some(j.variant)
        },
        _ => false,
    }
}

/// The value tree is a well-formed error reply object.
pub open spec fn error_json_ok(v: JsonValue) -> bool {
    match v {
        JsonValue::Obj(fields) => {
            let fs = fields@;
            &&& spec_code_field(fs) is Some
            &&& spec_str_field(fs, "message"@) is Some
        },
        _ => false,
    }
}

/// The error reply decodes from the value tree.
pub open spec fn error_matches_json(e: ErrorReplyView, v: JsonValue) -> bool {
    match v {
        JsonValue::Obj(fields) => {
            let fs = fields@;
            &&& spec_code_field(fs) == Some(e.code)
            &&& spec_str_field(fs, "message"@) == Some(e.message)
        },
        _ => false,
    }
}

/// The value tree is a well-formed job assignment object.
pub open spec fn assignment_json_ok(v: JsonValue) -> bool {
    match v {
        JsonValue::Obj(fields) => {
            let fs = fields@;
            &&& spec_token_field(fs, "id"@) is Some
            &&& obj_get(fs, "job"@) matches Some(jv) && job_json_ok(jv)
            &&& spec_opt_str_field(fs, "status"@) is Some
            &&& spec_extensions_field(fs) is Some
        },
        _ => false,
    }
}

/// The job assignment decodes from the value tree.
pub open spec fn assignment_matches_json(a: JobAssignmentView, v: JsonValue) -> bool {
    match v {
        JsonValue::Obj(fields) => {
            let fs = fields@;
            &&& spec_token_field(fs, "id"@) == Some(a.worker_id)
            &&& obj_get(fs, "job"@) matches Some(jv) && job_matches_json(a.job, jv)
            &&& spec_opt_str_field(fs, "status"@) == Some(a.status)
            &&& spec_extensions_field(fs) == Some(a.extensions)
        },
        _ => false,
    }
}

/// The value tree is a well-formed reply result: a job assignment when a
/// `job` field is present, otherwise a bare status object.
pub open spec fn reply_json_ok(v: JsonValue) -> bool {
    match v {
        JsonValue::Obj(fields) => {
            let fs = fields@;
            if obj_get(fs, "job"@) is Some {
                assignment_json_ok(v)
            } else {
                spec_str_field(fs, "status"@) is Some
            }
        },
        _ => false,
    }
}

/// The reply result decodes from the value tree.
pub open spec fn reply_matches_json(r: PoolReplyView, v: JsonValue) -> bool {
    match v {
        JsonValue::Obj(fields) => {
            let fs = fields@;
            if obj_get(fs, "job"@) is Some {
                r matches PoolReplyView::Job(a) && assignment_matches_json(a, v)
            } else {
                r matches PoolReplyView::Status(s) && spec_str_field(fs, "status"@) == Some(s)
            }
        },
        _ => false,
    }
}

/// The `error` field of a reply is well formed: missing, null, or an
/// error reply object.
pub open spec fn error_field_ok(fs: Seq<(String, JsonValue)>) -> bool {
    match obj_get(fs, "error"@) {
        None => true,
        Some(JsonValue::Null) => true,
        Some(o) => error_json_ok(o),
    }
}

/// The decoded optional error matches the `error` field.
pub open spec fn error_field_matches(fs: Seq<(String, JsonValue)>, e: Option<ErrorReplyView>) -> bool {
    match obj_get(fs, "error"@) {
        None => e is None,
        Some(JsonValue::Null) => e is None,
        Some(o) => e matches Some(ev) && error_matches_json(ev, o),
    }
}

/// The `result` field of a reply is well formed: missing, null, or a
/// reply result.
pub open spec fn result_field_ok(fs: Seq<(String, JsonValue)>) -> bool {
    match obj_get(fs, "result"@) {
        None => true,
        Some(JsonValue::Null) => true,
        Some(rv) => reply_json_ok(rv),
    }
}

/// The decoded optional result matches the `result` field.
pub open spec fn result_field_matches(fs: Seq<(String, JsonValue)>, r: Option<PoolReplyView>) -> bool {
    match obj_get(fs, "result"@) {
        None => r is None,
        Some(JsonValue::Null) => r is None,
        Some(rv) => r matches Some(pv) && reply_matches_json(pv, rv),
    }
}

/// The value tree is a well-formed inbound event: a job notification when
/// a `method` field is present, otherwise a reply tagged with a request
/// identifier.
pub open spec fn event_json_ok(v: JsonValue) -> bool {
    match v {
        JsonValue::Obj(fields) => {
            let fs = fields@;
            if obj_get(fs, "method"@) is Some {
                &&& spec_str_field(fs, "method"@) == Some("job"@)
                &&& obj_get(fs, "params"@) matches Some(p) && job_json_ok(p)
            } else {
                &&& spec_id_field(fs) is Some
                &&& error_field_ok(fs)
                &&& result_field_ok(fs)
            }
        },
        _ => false,
    }
}

/// The inbound event decodes from the value tree.
pub open spec fn event_matches_json(e: PoolEventView, v: JsonValue) -> bool {
    match v {
        JsonValue::Obj(fields) => {
            let fs = fields@;
            if obj_get(fs, "method"@) is Some {
                e matches PoolEventView::Notify(j) && (obj_get(fs, "params"@) matches Some(p)
                    && job_matches_json(j, p))
            } else {
                e matches PoolEventView::Reply { id, error, result } && {
                    &&& spec_id_field(fs) == Some(id)
                    &&& error_field_matches(fs, error)
                    &&& result_field_matches(fs, result)
                }
            }
        },
        _ => false,
    }
}

/// The value tree is a well-formed inbound message: the envelope markers
/// are absent, null or strings, and the body is a well-formed event.
pub open spec fn message_json_ok(v: JsonValue) -> bool {
    match v {
        JsonValue::Obj(fields) => {
            let fs = fields@;
            &&& spec_opt_str_field(fs, "jsonrpc"@) is Some
            &&& spec_opt_str_field(fs, "status"@) is Some
            &&& event_json_ok(v)
        },
        _ => false,
    }
}

/// The decoded envelope and event match the value tree.
pub open spec fn message_matches_json(
    jsonrpc: Option<Seq<char>>,
    status: Option<Seq<char>>,
    body: PoolEventView,
    v: JsonValue,
) -> bool {
    match v {
        JsonValue::Obj(fields) => {
            let fs = fields@;
            &&& spec_opt_str_field(fs, "jsonrpc"@) == Some(jsonrpc)
            &&& spec_opt_str_field(fs, "status"@) == Some(status)
            &&& event_matches_json(body, v)
        },
        _ => false,
    }
}

/// Mathematical content of a [`Share`].
pub struct ShareView {
    pub worker_id: Seq<char>,
    pub job_id: Seq<char>,
    pub nonce: u32,
    pub result: Seq<u8>,
    pub algo: Seq<char>,
}

/// Outbound proof submission: a candidate solution for one job.
#[derive(Debug)]
pub struct Share {
    pub worker_id: WorkerId,
    pub job_id: JobId,
    pub nonce: u32,
    pub result: [u8; 32],
    pub algo: String,
}

impl View for Share {
    type V = ShareView;

    open spec fn view(&self) -> ShareView {
        ShareView {
            worker_id: self.worker_id@,
            job_id: self.job_id@,
            nonce: self.nonce,
            result: self.result@,
            algo: self.algo@,
        }
    }
}

/// Mathematical content of a [`Credentials`].
pub struct CredentialsView {
    pub login: Seq<char>,
    pub pass: Seq<char>,
    pub agent: Seq<char>,
    pub algo: Seq<Seq<char>>,
}

/// Outbound login payload.
#[derive(Debug)]
pub struct Credentials {
    pub login: String,
    pub pass: String,
    pub agent: String,
    pub algo: Vec<String>,
}

impl View for Credentials {
    type V = CredentialsView;

    open spec fn view(&self) -> CredentialsView {
        CredentialsView {
            login: self.login@,
            pass: self.pass@,
            agent: self.agent@,
            algo: self.algo.deep_view(),
        }
    }
}

/// Mathematical content of a [`PoolCommand`].
pub enum PoolCommandView {
    Submit(ShareView),
    Login(CredentialsView),
    KeepAlived(Seq<char>),
}

/// Outbound command, tagged by its method name on the wire.
#[derive(Debug)]
pub enum PoolCommand {
    Submit(Share),
    Login(Credentials),
    KeepAlived { id: WorkerId },
}

impl View for PoolCommand {
    type V = PoolCommandView;

    open spec fn view(&self) -> PoolCommandView {
        match self {
            PoolCommand::Submit(s) => PoolCommandView::Submit(s@),
            PoolCommand::Login(c) => PoolCommandView::Login(c@),
            PoolCommand::KeepAlived { id } => PoolCommandView::KeepAlived(id@),
        }
    }
}

/// Message sent from client to pool: a command under a request
/// identifier.
#[derive(Debug)]
pub struct PoolRequest<ReqId> {
    pub id: ReqId,
    pub command: PoolCommand,
}

/// The method name a command carries on the wire.
pub open spec fn command_method(c: PoolCommandView) -> Seq<char> {
    match c {
        PoolCommandView::Submit(_) => "submit"@,
        PoolCommandView::Login(_) => "login"@,
        PoolCommandView::KeepAlived(_) => "keepalived"@,
    }
}

/// The JSON params of a share: worker token, job token, the fixed-width
/// little-endian nonce hex, the 64-character result hex, and the algo
/// name.
pub open spec fn share_params_match(s: ShareView, v: JsonValue) -> bool {
    match v {
        JsonValue::Obj(fields) => {
            let fs = fields@;
            &&& fs.len() == 5
            &&& fs[0].0@ == "id"@ && (fs[0].1 matches JsonValue::Str(w) && w@ == s.worker_id)
            &&& fs[1].0@ == "job_id"@ && (fs[1].1 matches JsonValue::Str(j) && j@ == s.job_id)
            &&& fs[2].0@ == "nonce"@ && (fs[2].1 matches JsonValue::Str(n) && n@
                == crate::hexbytes::hex_of_bytes(crate::hexbytes::le4_bytes(s.nonce)))
            &&& fs[3].0@ == "result"@ && (fs[3].1 matches JsonValue::Str(h) && h@
                == crate::hexbytes::hex_of_bytes(s.result))
            &&& fs[4].0@ == "algo"@ && (fs[4].1 matches JsonValue::Str(a) && a@ == s.algo)
        },
        _ => false,
    }
}

/// The JSON params of a login: the three credential strings and the list
/// of supported algorithm names.
pub open spec fn login_params_match(c: CredentialsView, v: JsonValue) -> bool {
    match v {
        JsonValue::Obj(fields) => {
            let fs = fields@;
            &&& fs.len() == 4
            &&& fs[0].0@ == "login"@ && (fs[0].1 matches JsonValue::Str(l) && l@ == c.login)
            &&& fs[1].0@ == "pass"@ && (fs[1].1 matches JsonValue::Str(p) && p@ == c.pass)
            &&& fs[2].0@ == "agent"@ && (fs[2].1 matches JsonValue::Str(a) && a@ == c.agent)
            &&& fs[3].0@ == "algo"@ && (fs[3].1 matches JsonValue::Arr(items) && {
                &&& items@.len() == c.algo.len()
                &&& forall|i: int| 0 <= i < items@.len() ==> items@[i] is Str
                &&& items@.map_values(|x: JsonValue| str_content(x)) == c.algo
            })
        },
        _ => false,
    }
}

/// The JSON params of a keepalive: the worker token alone.
pub open spec fn keepalived_params_match(worker: Seq<char>, v: JsonValue) -> bool {
    match v {
        JsonValue::Obj(fields) => {
            let fs = fields@;
            &&& fs.len() == 1
            &&& fs[0].0@ == "id"@ && (fs[0].1 matches JsonValue::Str(w) && w@ == worker)
        },
        _ => false,
    }
}

/// The JSON params of a command.
pub open spec fn command_params_match(c: PoolCommandView, v: JsonValue) -> bool {
    match c {
        PoolCommandView::Submit(s) => share_params_match(s, v),
        PoolCommandView::Login(cr) => login_params_match(cr, v),
        PoolCommandView::KeepAlived(w) => keepalived_params_match(w, v),
    }
}

/// The JSON shape of a whole outbound request: the request identifier,
/// the method name, and the command's params.
pub open spec fn request_json_matches(id: u32, c: PoolCommandView, v: JsonValue) -> bool {
    match v {
        JsonValue::Obj(fields) => {
            let fs = fields@;
            &&& fs.len() == 3
            &&& fs[0].0@ == "id"@ && fs[0].1 == JsonValue::UInt(id as u64)
            &&& fs[1].0@ == "method"@ && (fs[1].1 matches JsonValue::Str(m) && m@
                == command_method(c))
            &&& fs[2].0@ == "params"@ && command_params_match(c, fs[2].1)
        },
        _ => false,
    }
}

/// Build the JSON params of a command.
#[verifier::loop_isolation(false)]
pub fn encode_command_params(c: &PoolCommand) -> (r: (&'static str, JsonValue))
    ensures
        r.0@ == command_method(c@),
        command_params_match(c@, r.1),
{
    match c {
        PoolCommand::Submit(s) => {
            let mut fs: Vec<(String, JsonValue)> = Vec::new();
            fs.push((String::from_str("id"), JsonValue::Str(s.worker_id.as_str().to_owned())));
            fs.push((String::from_str("job_id"), JsonValue::Str(s.job_id.as_str().to_owned())));
            fs.push((String::from_str("nonce"), JsonValue::Str(crate::hexbytes::u32_to_hex_padded(
                s.nonce,
            ))));
            fs.push((String::from_str("result"), JsonValue::Str(crate::hexbytes::byte32_to_hex(
                &s.result,
            ))));
            fs.push((String::from_str("algo"), JsonValue::Str(s.algo.clone())));
            ("submit", JsonValue::Obj(fs))
        },
        PoolCommand::Login(cr) => {
            let mut items: Vec<JsonValue> = Vec::new();
            let n = cr.algo.len();
            let mut i: usize = 0;
            while i < n
                invariant
                    i <= n,
                    items@.len() == i,
                    forall|j: int| 0 <= j < i ==> items@[j] is Str,
                    forall|j: int| 0 <= j < i ==> str_content(items@[j]) == cr.algo@[j]@,
                decreases n - i,
            {
                items.push(JsonValue::Str(cr.algo[i].clone()));
                i += 1;
            }
            proof {
                assert(items@.map_values(|x: JsonValue| str_content(x)) =~= cr.algo.deep_view());
            }
            let mut fs: Vec<(String, JsonValue)> = Vec::new();
            fs.push((String::from_str("login"), JsonValue::Str(cr.login.clone())));
            fs.push((String::from_str("pass"), JsonValue::Str(cr.pass.clone())));
            fs.push((String::from_str("agent"), JsonValue::Str(cr.agent.clone())));
            fs.push((String::from_str("algo"), JsonValue::Arr(items)));
            ("login", JsonValue::Obj(fs))
        },
        PoolCommand::KeepAlived { id } => {
            let mut fs: Vec<(String, JsonValue)> = Vec::new();
            fs.push((String::from_str("id"), JsonValue::Str(id.as_str().to_owned())));
            ("keepalived", JsonValue::Obj(fs))
        },
    }
}

/// Build the whole outbound request as a JSON value tree.
pub fn encode_request(req: &PoolRequest<RequestId>) -> (r: JsonValue)
    ensures
        request_json_matches(req.id.0, req.command@, r),
{
    let (method, params) = encode_command_params(&req.command);
    let mut fs: Vec<(String, JsonValue)> = Vec::new();
    fs.push((String::from_str("id"), JsonValue::UInt(req.id.0 as u64)));
    fs.push((String::from_str("method"), JsonValue::Str(method.to_owned())));
    fs.push((String::from_str("params"), params));
    JsonValue::Obj(fs)
}

/// Decode a job object from a plain JSON value tree.
pub fn decode_job(v: &JsonValue) -> (r: Option<Job>)
    ensures
        match r {
            Some(j) => job_json_ok(*v) && job_matches_json(j@, *v),
            None => !job_json_ok(*v),
        },
{
    let fields = match v {
        JsonValue::Obj(fields) => fields,
        _ => {
            return None;
        },
    };
    let blob = match lookup(fields, "blob") {
        Some(JsonValue::Str(s)) => match hex_to_varbyte(s.as_str()) {
            Some(b) => b,
            None => {
                return None;
            },
        },
        _ => {
            return None;
        },
    };
    let job_id = match lookup(fields, "job_id") {
        Some(JsonValue::Str(s)) => match JobId::try_new(s.as_str()) {
            Some(t) => t,
            None => {
                return None;
            },
        },
        _ => {
            return None;
        },
    };
    let target = match lookup(fields, "target") {
        Some(JsonValue::Str(s)) => match crate::hexbytes::deserialize_target(s.as_str()) {
            Some(t) => t,
            None => {
                return None;
            },
        },
        _ => {
            return None;
        },
    };
    let algo = match lookup(fields, "algo") {
        None => None,
        Some(JsonValue::Null) => None,
        Some(JsonValue::Str(s)) => Some(s.clone()),
        _ => {
            return None;
        },
    };
    let variant: u32 = match lookup(fields, "variant") {
        None => 0,
        Some(JsonValue::UInt(u)) => {
            if *u <= 0xffff_ffff {
                *u as u32
            } else {
                return None;
            }
        },
        _ => {
            return None;
        },
    };
    Some(Job { blob, job_id, target, algo, variant })
}

/// Decode an error reply object from a plain JSON value tree.
pub fn decode_error(v: &JsonValue) -> (r: Option<ErrorReply>)
    ensures
        match r {
            Some(e) => error_json_ok(*v) && error_matches_json(e@, *v),
            None => !error_json_ok(*v),
        },
{
    let fields = match v {
        JsonValue::Obj(fields) => fields,
        _ => {
            return None;
        },
    };
    let code: i64 = match lookup(fields, "code") {
        Some(JsonValue::UInt(u)) => {
            if *u <= 0x7fff_ffff_ffff_ffff {
                *u as i64
            } else {
                return None;
            }
        },
        Some(JsonValue::Int(i)) => *i,
        _ => {
            return None;
        },
    };
    let message = match lookup(fields, "message") {
        Some(JsonValue::Str(s)) => s.clone(),
        _ => {
            return None;
        },
    };
    Some(ErrorReply { code, message })
}

/// Decode a job assignment object from a plain JSON value tree.
#[verifier::loop_isolation(false)]
pub fn decode_assignment(v: &JsonValue) -> (r: Option<JobAssignment>)
    ensures
        match r {
            Some(a) => assignment_json_ok(*v) && assignment_matches_json(a@, *v),
            None => !assignment_json_ok(*v),
        },
{
    let fields = match v {
        JsonValue::Obj(fields) => fields,
        _ => {
            return None;
        },
    };
    let worker_id = match lookup(fields, "id") {
        Some(JsonValue::Str(s)) => match WorkerId::try_new(s.as_str()) {
            Some(w) => w,
            None => {
                return None;
            },
        },
        _ => {
            return None;
        },
    };
    let job = match lookup(fields, "job") {
        Some(jv) => match decode_job(jv) {
            Some(j) => j,
            None => {
                return None;
            },
        },
        None => {
            return None;
        },
    };
    let status = match lookup(fields, "status") {
        None => None,
        Some(JsonValue::Null) => None,
        Some(JsonValue::Str(s)) => Some(s.clone()),
        _ => {
            return None;
        },
    };
    let extensions: Vec<String> = match lookup(fields, "extensions") {
        None => {
            let e: Vec<String> = Vec::new();
            proof {
                assert(e.deep_view() =~= Seq::<Seq<char>>::empty());
            }
            e
        },
        Some(JsonValue::Arr(items)) => {
            let mut out: Vec<String> = Vec::new();
            let n = items.len();
            let mut i: usize = 0;
            while i < n
                invariant
                    i <= n,
                    n == items@.len(),
                    out@.len() == i,
                    forall|j: int| 0 <= j < i ==> items@[j] is Str,
                    forall|j: int| 0 <= j < i ==> out@[j]@ == str_content(items@[j]),
                decreases n - i,
            {
                match &items[i] {
                    JsonValue::Str(s) => {
                        out.push(s.clone());
                    },
                    _ => {
                        return None;
                    },
                }
                i += 1;
            }
            proof {
                assert(out.deep_view() =~= items@.map_values(|x: JsonValue| str_content(x)));
            }
            out
        },
        _ => {
            return None;
        },
    };
    Some(JobAssignment { worker_id, job, status, extensions })
}

/// Decode a reply result from a plain JSON value tree: a job assignment
/// when a `job` field is present, otherwise a bare status object.
pub fn decode_reply(v: &JsonValue) -> (r: Option<PoolReply>)
    ensures
        match r {
            Some(p) => reply_json_ok(*v) && reply_matches_json(p@, *v),
            None => !reply_json_ok(*v),
        },
{
    let fields = match v {
        JsonValue::Obj(fields) => fields,
        _ => {
            return None;
        },
    };
    match lookup(fields, "job") {
        Some(_) => match decode_assignment(v) {
            Some(a) => Some(PoolReply::Job(Box::new(a))),
            None => None,
        },
        None => match lookup(fields, "status") {
            Some(JsonValue::Str(s)) => Some(PoolReply::Status { status: s.clone() }),
            _ => None,
        },
    }
}

/// Decode an inbound event from a plain JSON value tree, choosing the
/// variant by the fields that are present: a `method` field makes it a
/// job notification, otherwise an `id` field makes it a reply.
pub fn decode_event(v: &JsonValue) -> (r: Option<PoolEvent<RequestId>>)
    ensures
        match r {
            Some(e) => event_json_ok(*v) && event_matches_json(e@, *v),
            None => !event_json_ok(*v),
        },
{
    let fields = match v {
        JsonValue::Obj(fields) => fields,
        _ => {
            return None;
        },
    };
    match lookup(fields, "method") {
        Some(m) => {
            let is_job = match m {
                JsonValue::Str(s) => crate::json::str_eq(s.as_str(), "job"),
                _ => false,
            };
            if !is_job {
                return None;
            }
            match lookup(fields, "params") {
                Some(p) => match decode_job(p) {
                    Some(j) => Some(PoolEvent::ClientCommand(ClientCommand::Job(j))),
                    None => None,
                },
                None => None,
            }
        },
        None => {
            let id = match lookup(fields, "id") {
                Some(JsonValue::UInt(u)) => {
                    if *u <= 0xffff_ffff {
                        RequestId(*u as u32)
                    } else {
                        return None;
                    }
                },
                _ => {
                    return None;
                },
            };
            let error = match lookup(fields, "error") {
                None => None,
                Some(JsonValue::Null) => None,
                Some(o) => match decode_error(o) {
                    Some(e) => Some(e),
                    None => {
                        return None;
                    },
                },
            };
            let result = match lookup(fields, "result") {
                None => None,
                Some(JsonValue::Null) => None,
                Some(rv) => match decode_reply(rv) {
                    Some(p) => Some(p),
                    None => {
                        return None;
                    },
                },
            };
            Some(PoolEvent::PoolReply { id, error, result })
        },
    }
}

/// Decode a whole inbound message: the envelope markers and the event
/// body, from one plain JSON value tree.
pub fn decode_message(v: &JsonValue) -> (r: Option<JsonMessage<PoolEvent<RequestId>>>)
    ensures
        match r {
            Some(m) => message_json_ok(*v) && message_matches_json(
                opt_str_view(m.jsonrpc),
                opt_str_view(m.status),
                m.body@,
                *v,
            ),
            None => !message_json_ok(*v),
        },
{
    let fields = match v {
        JsonValue::Obj(fields) => fields,
        _ => {
            return None;
        },
    };
    let jsonrpc = match lookup(fields, "jsonrpc") {
        None => None,
        Some(JsonValue::Null) => None,
        Some(JsonValue::Str(s)) => Some(s.clone()),
        _ => {
            return None;
        },
    };
    let status = match lookup(fields, "status") {
        None => None,
        Some(JsonValue::Null) => None,
        Some(JsonValue::Str(s)) => Some(s.clone()),
        _ => {
            return None;
        },
    };
    let body = match decode_event(v) {
        Some(e) => e,
        None => {
            return None;
        },
    };
    Some(JsonMessage { jsonrpc, status, body })
}

} // verus!
