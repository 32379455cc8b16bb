use pool_client::connection::{
    login_step, read_event, ClientWriter, Error_, LoginStep, PoolClientWriter, ReadOutcome,
    RequestId,
};
use pool_client::message::{
    ClientCommand, Credentials, Job, JobId, PoolCommand, PoolEvent, PoolReply, WorkerId,
};

static EXAMPLE_LOGINREPLY_STR: &'static str = "{\"id\":0,\"jsonrpc\":\"2.0\",\"result\":{\"id\":\"0\",\"job\":{\"blob\":\"0606de93b8d0055f149bdc720d9b8928e51399dbc2f85b069aa10142fff7b8814a296424f365900000000019be9ee931ce265444a4d5b599d1e463f1f7fbada6517218fe65aea3a73390a406\",\"job_id\":\"12022\",\"target\":\"b7d10000\"},\"status\":\"OK\"},\"error\":null}";

static EXAMPLE_JOBCOMMAND_STR: &'static str = "{\"jsonrpc\":\"2.0\",\"method\":\"job\",\"params\":{\"blob\":\"06068795b8d0055b9272a308e09675e9c4c1510e84921e1ff0bfa13fc375eb8eec2207408205c000000000da5d4af05371b7bda75eef0d73cbbead3773006bd9117b1ca7dbcc9dacc1284d0d\",\"job_id\":\"12023\",\"target\":\"b7d10000\"}}";

#[test]
fn deserialize_login_reply() {
    let ev = read_event(ReadOutcome::Line(EXAMPLE_LOGINREPLY_STR.to_string()))
        .unwrap()
        .unwrap();
    match ev {
        PoolEvent::PoolReply { id, error, result } => {
            assert_eq!(id, RequestId(0));
            assert!(error.is_none());
            let assignment = match result.unwrap() {
                PoolReply::Job(a) => a,
                PoolReply::Status { .. } => panic!("expected a job assignment"),
            };
            assert_eq!(assignment.worker_id().as_str(), "0");
            assert_eq!(assignment.status(), Some("OK"));
            let job = assignment.into_job();
            assert_eq!(job.id().as_str(), "12022");
            // compact 4-byte target, expanded into both halves
            assert_eq!(job.target(), 0x0000d1b70000d1b7);
            assert_eq!(job.blob().len(), 76);
            assert_eq!(job.algo(), None);
        },
        PoolEvent::ClientCommand(_) => panic!("expected a reply"),
    }
}

#[test]
fn deserialize_job_command() {
    let ev = read_event(ReadOutcome::Line(EXAMPLE_JOBCOMMAND_STR.to_string()))
        .unwrap()
        .unwrap();
    match ev {
        PoolEvent::ClientCommand(ClientCommand::Job(job)) => {
            assert_eq!(job.id().as_str(), "12023");
            assert_eq!(job.target(), 0x0000d1b70000d1b7);
        },
        PoolEvent::PoolReply { .. } => panic!("expected a notification"),
    }
}

#[test]
fn idle_timeout_is_no_event_and_close_is_disconnected() {
    // an idle timeout is "no event", never an error
    let idle = read_event(ReadOutcome::TimedOut);
    assert!(matches!(idle, Ok(None)));
    // an empty read (peer close) is always the disconnected error
    let closed = read_event(ReadOutcome::Line(String::new()));
    match closed {
        Err(e) => assert!(matches!(e.0, Error_::Disconnected)),
        Ok(_) => panic!("peer close must be an error"),
    }
    let failed = read_event(ReadOutcome::Failed("connection reset".to_string()));
    match failed {
        Err(e) => match e.0 {
            Error_::IoError(m) => assert_eq!(m, "connection reset"),
            _ => panic!("expected the transport error"),
        },
        Ok(_) => panic!("a transport failure must be an error"),
    }
    let garbage = read_event(ReadOutcome::Line("{not json".to_string()));
    match garbage {
        Err(e) => assert!(matches!(e.0, Error_::MessageError)),
        Ok(_) => panic!("a malformed line must be an error"),
    }
}

#[test]
fn malformed_encodings_are_decode_errors() {
    // odd-length blob hex
    let bad_blob = "{\"jsonrpc\":\"2.0\",\"method\":\"job\",\"params\":{\"blob\":\"abc\",\"job_id\":\"1\",\"target\":\"b7d10000\"}}";
    let r = read_event(ReadOutcome::Line(bad_blob.to_string()));
    match r {
        Err(e) => assert!(matches!(e.0, Error_::MessageError)),
        Ok(_) => panic!("odd-length blob hex must fail decoding"),
    }
    // non-hex target
    let bad_target = "{\"jsonrpc\":\"2.0\",\"method\":\"job\",\"params\":{\"blob\":\"ab\",\"job_id\":\"1\",\"target\":\"zzzz\"}}";
    let r = read_event(ReadOutcome::Line(bad_target.to_string()));
    match r {
        Err(e) => assert!(matches!(e.0, Error_::MessageError)),
        Ok(_) => panic!("non-hex target must fail decoding"),
    }
    // a job token over 64 bytes
    let long = "x".repeat(65);
    let bad_token = format!(
        "{{\"jsonrpc\":\"2.0\",\"method\":\"job\",\"params\":{{\"blob\":\"ab\",\"job_id\":\"{}\",\"target\":\"b7d10000\"}}}}",
        long
    );
    let r = read_event(ReadOutcome::Line(bad_token));
    match r {
        Err(e) => assert!(matches!(e.0, Error_::MessageError)),
        Ok(_) => panic!("an oversized token must fail decoding"),
    }
}

#[test]
fn request_ids_are_sequential_from_one() {
    let mut w = ClientWriter::new();
    let cred = Credentials {
        login: "user".to_string(),
        pass: "x".to_string(),
        agent: "agent/1".to_string(),
        algo: vec!["cn/1".to_string()],
    };
    let (id1, _) = w.send(PoolCommand::Login(cred));
    let (id2, _) = w.send(PoolCommand::KeepAlived { id: WorkerId::try_new("w").unwrap() });
    let (id3, _) = w.send(PoolCommand::KeepAlived { id: WorkerId::try_new("w").unwrap() });
    assert_eq!(id1, RequestId(1));
    assert_eq!(id2, RequestId(2));
    assert_eq!(id3, RequestId(3));
}

#[test]
fn framed_lines_have_the_wire_shape() {
    let mut w = PoolClientWriter::new(ClientWriter::new(), WorkerId::try_new("w1").unwrap());
    let (id, line) = w.keepalive();
    assert_eq!(id, RequestId(1));
    assert_eq!(line, "{\"id\":1,\"method\":\"keepalived\",\"params\":{\"id\":\"w1\"}}");

    let job = Job::new(
        vec![6, 6],
        JobId::try_new("j1").unwrap(),
        1,
        Some("cn/1".to_string()),
        0,
    );
    let (id, line) = w.submit(&job, 0x12345678, &[0u8; 32]);
    assert_eq!(id, RequestId(2));
    assert_eq!(
        line,
        "{\"id\":2,\"method\":\"submit\",\"params\":{\"algo\":\"cn/1\",\"id\":\"w1\",\"job_id\":\"j1\",\"nonce\":\"78563412\",\"result\":\"0000000000000000000000000000000000000000000000000000000000000000\"}}"
    );

    let mut w2 = ClientWriter::new();
    let cred = Credentials {
        login: "user".to_string(),
        pass: "x".to_string(),
        agent: "agent/1".to_string(),
        algo: vec!["cn/1".to_string()],
    };
    let (_, line) = w2.send(PoolCommand::Login(cred));
    assert_eq!(
        line,
        "{\"id\":1,\"method\":\"login\",\"params\":{\"agent\":\"agent/1\",\"algo\":[\"cn/1\"],\"login\":\"user\",\"pass\":\"x\"}}"
    );
}

#[test]
fn jobs_compare_by_job_id_alone() {
    let a = Job::new(vec![1, 2], JobId::try_new("same").unwrap(), 10, None, 0);
    let b = Job::new(
        vec![9, 9, 9],
        JobId::try_new("same").unwrap(),
        999,
        Some("cn/2".to_string()),
        1,
    );
    let c = Job::new(vec![1, 2], JobId::try_new("other").unwrap(), 10, None, 0);
    assert!(a == b);
    assert!(!(a == c));
}

#[test]
fn tokens_are_bounded_at_64_bytes() {
    assert!(WorkerId::try_new(&"x".repeat(64)).is_some());
    assert!(WorkerId::try_new(&"x".repeat(65)).is_none());
    assert!(JobId::try_new("").is_some());
    assert!(JobId::try_new(&"y".repeat(65)).is_none());
}

fn run_handshake(outcomes: Vec<ReadOutcome>) -> LoginStep {
    // the loop the embedding application runs around the verified steps
    for outcome in outcomes {
        let event = match read_event(outcome) {
            Ok(e) => e,
            Err(e) => return LoginStep::Failed(e),
        };
        match login_step(event) {
            LoginStep::Ignored => continue,
            step => return step,
        }
    }
    panic!("handshake ran out of input");
}

#[test]
fn login_succeeds_after_ignoring_an_early_job_notification() {
    let step = run_handshake(vec![
        ReadOutcome::Line(EXAMPLE_JOBCOMMAND_STR.to_string()),
        ReadOutcome::Line(EXAMPLE_LOGINREPLY_STR.to_string()),
    ]);
    match step {
        LoginStep::Success { worker_id, job, status } => {
            assert_eq!(worker_id.as_str(), "0");
            assert_eq!(job.id().as_str(), "12022");
            assert_eq!(status, Some("OK".to_string()));
        },
        _ => panic!("the handshake must succeed once the login reply arrives"),
    }
}

#[test]
fn login_times_out_on_idle() {
    let step = run_handshake(vec![ReadOutcome::TimedOut]);
    match step {
        LoginStep::Failed(e) => assert!(matches!(e.0, Error_::LoginTimedOut)),
        _ => panic!("an idle handshake must fail with the timeout error"),
    }
}

#[test]
fn login_fails_on_server_error() {
    let line = "{\"id\":1,\"jsonrpc\":\"2.0\",\"error\":{\"code\":-1,\"message\":\"Invalid payment address\"},\"result\":null}";
    let step = run_handshake(vec![ReadOutcome::Line(line.to_string())]);
    match step {
        LoginStep::Failed(e) => match e.0 {
            Error_::ErrorReply(er) => {
                assert_eq!(er.code(), -1);
                assert_eq!(er.description(), "Invalid payment address");
            },
            _ => panic!("expected the server error"),
        },
        _ => panic!("a login-time error reply must fail the handshake"),
    }
}

#[test]
fn login_fails_on_unexpected_reply() {
    let line = "{\"id\":1,\"jsonrpc\":\"2.0\",\"error\":null,\"result\":{\"status\":\"OK\"}}";
    let step = run_handshake(vec![ReadOutcome::Line(line.to_string())]);
    match step {
        LoginStep::Failed(e) => assert!(matches!(e.0, Error_::LoginUnexpectedReply)),
        _ => panic!("a status reply during login must fail the handshake"),
    }
}
