use pool_client::client::{classify_event, dispatch_event, MessageHandler, RunAction};
use pool_client::connection::{read_event, ReadOutcome, RequestId};
use pool_client::message::{ErrorReply, Job, JobAssignment, PoolEvent};

fn event_from(line: &str) -> PoolEvent<RequestId> {
    read_event(ReadOutcome::Line(line.to_string())).unwrap().unwrap()
}

#[test]
fn classification_follows_the_event_shape() {
    let notify = event_from(
        "{\"jsonrpc\":\"2.0\",\"method\":\"job\",\"params\":{\"blob\":\"ab\",\"job_id\":\"7\",\"target\":\"b7d10000\"}}",
    );
    match classify_event(notify) {
        RunAction::Notify(job) => assert_eq!(job.id().as_str(), "7"),
        _ => panic!("a notification must reach the job callback"),
    }

    let err = event_from("{\"id\":3,\"error\":{\"code\":7,\"message\":\"m\"},\"result\":{\"status\":\"OK\"}}");
    match classify_event(err) {
        RunAction::ReportError(id, e) => {
            assert_eq!(id, RequestId(3));
            assert_eq!(e.code(), 7);
            assert_eq!(e.description(), "m");
        },
        _ => panic!("an error reply must reach the error callback, whatever its result"),
    }

    let status = event_from("{\"id\":4,\"error\":null,\"result\":{\"status\":\"OK\"}}");
    match classify_event(status) {
        RunAction::ReportStatus(id, s) => {
            assert_eq!(id, RequestId(4));
            assert_eq!(s, "OK");
        },
        _ => panic!("a status reply must reach the status callback"),
    }

    let assign = event_from(
        "{\"id\":5,\"error\":null,\"result\":{\"id\":\"w\",\"job\":{\"blob\":\"ab\",\"job_id\":\"8\",\"target\":\"b7d10000\"}}}",
    );
    match classify_event(assign) {
        RunAction::Assign(id, a) => {
            assert_eq!(id, RequestId(5));
            assert_eq!(a.worker_id().as_str(), "w");
        },
        _ => panic!("a job assignment must reach the job-reply callback"),
    }

    let empty = event_from("{\"id\":6,\"error\":null,\"result\":null}");
    assert!(matches!(classify_event(empty), RunAction::Nothing));
}

struct Recorder {
    calls: Vec<String>,
}

impl MessageHandler for Recorder {
    fn job_command(&mut self, job: Job) {
        self.calls.push(format!("job:{}", job.id().as_str()));
    }

    fn error_reply(&mut self, id: RequestId, error: ErrorReply) {
        self.calls.push(format!("err:{}:{}", id.0, error.code()));
    }

    fn status_reply(&mut self, id: RequestId, status: String) {
        self.calls.push(format!("status:{}:{}", id.0, status));
    }

    fn job_reply(&mut self, id: RequestId, job: Box<JobAssignment>) {
        self.calls.push(format!("assign:{}:{}", id.0, job.worker_id().as_str()));
    }
}

#[test]
fn dispatch_reaches_the_matching_callback() {
    let mut h = Recorder { calls: Vec::new() };
    dispatch_event(
        &mut h,
        event_from(
            "{\"jsonrpc\":\"2.0\",\"method\":\"job\",\"params\":{\"blob\":\"ab\",\"job_id\":\"9\",\"target\":\"b7d10000\"}}",
        ),
    );
    dispatch_event(&mut h, event_from("{\"id\":1,\"error\":{\"code\":-1,\"message\":\"m\"},\"result\":null}"));
    dispatch_event(&mut h, event_from("{\"id\":2,\"error\":null,\"result\":{\"status\":\"OK\"}}"));
    dispatch_event(&mut h, event_from("{\"id\":6,\"error\":null,\"result\":null}"));
    assert_eq!(h.calls, vec![
        "job:9".to_string(),
        "err:1:-1".to_string(),
        "status:2:OK".to_string(),
    ]);
}

#[test]
fn extensions_and_variant_fields_decode() {
    let assign = event_from(
        "{\"id\":1,\"error\":null,\"result\":{\"id\":\"w\",\"job\":{\"blob\":\"ab\",\"job_id\":\"j\",\"target\":\"b7d10000\",\"algo\":\"cn/2\",\"variant\":1},\"status\":\"OK\",\"extensions\":[\"keepalive\",\"nicehash\"]}}",
    );
    match classify_event(assign) {
        RunAction::Assign(_, a) => {
            assert_eq!(a.extensions().clone(), vec!["keepalive".to_string(), "nicehash".to_string()]);
            assert_eq!(a.status(), Some("OK"));
            let job = a.into_job();
            assert_eq!(job.algo(), Some("cn/2"));
            assert_eq!(job.variant(), 1);
        },
        _ => panic!("expected a job assignment"),
    }
}
