use vtok_agent::config::Enclave;
use vtok_agent::enclave::P11neEnclave;
use vtok_agent::error::Error;
use vtok_agent::ne::EnclaveRunInfo;
use vtok_agent::retry::{Resume, RetryRpc, Verdict, BACKOFF_BASE_MS, MAX_BACKOFF_ATTEMPT};
use vtok_agent::rpc::{Exchange, RetriedCall, RpcCall};
use vtok_agent::schema::{ApiRequest, RpcResult};

type Call = RetriedCall<String, String>;
type Answer = RpcResult<String, String>;

struct Trace {
    result: Answer,
    attempts: usize,
    sleeps: Vec<u64>,
}

fn enclave_with(attempts: Option<usize>) -> P11neEnclave {
    let config = Enclave {
        cpu_count: 2,
        memory_mib: 256,
        image_path: None,
        p11kit_port: None,
        rpc_port: None,
        boot_timeout_ms: None,
        attestation_retry_count: attempts,
    };
    let info = EnclaveRunInfo { enclave_cid: 16, process_id: 4321 };
    let stage = match P11neEnclave::new(config).launched(Ok(info)) {
        Ok(stage) => stage,
        Err(error) => panic!("{:?}", error),
    };
    let stage = match stage.written(Ok(())) {
        Ok(stage) => stage,
        Err(error) => panic!("{:?}", error),
    };
    match stage.restarted(Ok(Some(0))) {
        Ok(enclave) => enclave,
        Err(error) => panic!("{:?}", error),
    }
}

fn retry_of(attempts: usize) -> RetryRpc {
    let op: Call = enclave_with(Some(attempts)).retry_rpc(ApiRequest::DescribeDevice);
    op.retry
}

fn rejected(n: usize) -> Answer {
    Ok(Err(format!("rejected {}", n)))
}

fn accepted(n: usize) -> Answer {
    Ok(Ok(format!("accepted {}", n)))
}

fn failed(n: usize) -> Answer {
    Err(Error::RpcTransportError(format!("failed {}", n)))
}

/// Makes the call as a caller would: `answers[k - 1]` is what attempt `k`
/// comes to, and the sleep after attempt `interrupted_after` is cut short.
fn drive(mut retry: RetryRpc, answers: Vec<Answer>, interrupted_after: Option<usize>) -> Trace {
    let mut attempts = 0;
    let mut sleeps = Vec::new();
    let mut answers = answers.into_iter();
    loop {
        let answer = match answers.next() {
            Some(answer) => answer,
            None => panic!("attempt {} was not expected", attempts + 1),
        };
        attempts += 1;
        assert_eq!(retry.attempt(), attempts);
        assert!(retry.takes(&answer));
        match retry.on_response(answer) {
            Verdict::Return(result) => return Trace { result, attempts, sleeps },
            Verdict::Backoff(backoff) => {
                assert_eq!(backoff.attempt(), attempts);
                sleeps.push(backoff.millis());
                match backoff.wake(interrupted_after == Some(attempts)) {
                    Resume::Return(result) => return Trace { result, attempts, sleeps },
                    Resume::Retry(next) => retry = next,
                }
            },
        }
    }
}

#[test]
fn backoff_constants() {
    assert_eq!(BACKOFF_BASE_MS, 100);
    assert_eq!(MAX_BACKOFF_ATTEMPT, 58);
}

#[test]
fn add_token_succeeds_on_third_attempt_after_two_backoffs() {
    let enclave = enclave_with(None);
    let op: Call = enclave.add_token(String::from("token"));
    assert_eq!(
        op.call,
        RpcCall {
            cid: 16,
            port: 10000,
            request: ApiRequest::AddToken { token: String::from("token") },
        }
    );
    let trace = drive(op.retry, vec![rejected(1), rejected(2), accepted(3)], None);
    assert_eq!(trace.result, accepted(3));
    assert_eq!(trace.attempts, 3);
    assert_eq!(trace.sleeps, vec![100, 200]);
    assert_eq!(trace.sleeps.iter().sum::<u64>(), 300);
}

#[test]
fn remove_token_returns_single_rejection() {
    let enclave = enclave_with(None);
    let call: RpcCall<String, String> =
        enclave.remove_token(String::from("label"), String::from("1234"));
    assert_eq!(
        call,
        RpcCall {
            cid: 16,
            port: 10000,
            request: ApiRequest::RemoveToken {
                label: String::from("label"),
                pin: String::from("1234"),
            },
        }
    );
    let exchange: Exchange<String, String> = Exchange::Received(Err(String::from("no such token")));
    assert_eq!(exchange.into_result(), Ok(Err(String::from("no such token"))));
}

#[test]
fn transport_failure_on_first_attempt_is_returned_at_once() {
    let trace = drive(retry_of(5), vec![failed(1)], None);
    assert_eq!(trace.result, failed(1));
    assert_eq!(trace.attempts, 1);
    assert!(trace.sleeps.is_empty());
}

#[test]
fn connect_failure_is_never_retried() {
    let answer: Answer = Err(Error::RpcConnectError(String::from("refused")));
    let trace = drive(retry_of(5), vec![rejected(1), answer.clone()], None);
    assert_eq!(trace.result, answer);
    assert_eq!(trace.attempts, 2);
    assert_eq!(trace.sleeps, vec![100]);
}

#[test]
fn exhaustion_returns_the_last_rejection() {
    let answers = vec![rejected(1), rejected(2), rejected(3), rejected(4), rejected(5)];
    let trace = drive(retry_of(5), answers, None);
    assert_eq!(trace.result, rejected(5));
    assert_eq!(trace.attempts, 5);
    assert_eq!(trace.sleeps, vec![100, 200, 400, 800]);
}

#[test]
fn attempts_never_exceed_the_count() {
    for count in 1..=12usize {
        let answers: Vec<Answer> = (1..=count).map(rejected).collect();
        let trace = drive(retry_of(count), answers, None);
        assert_eq!(trace.attempts, count);
        assert_eq!(trace.result, rejected(count));
        assert_eq!(trace.sleeps.len(), count - 1);
        for (index, millis) in trace.sleeps.iter().enumerate() {
            assert_eq!(*millis, 100u64 << index);
        }
    }
}

#[test]
fn single_attempt_never_sleeps() {
    let trace = drive(retry_of(1), vec![rejected(1)], None);
    assert_eq!(trace.result, rejected(1));
    assert_eq!(trace.attempts, 1);
    assert!(trace.sleeps.is_empty());
}

#[test]
fn success_stops_further_attempts() {
    for k in 1..=5usize {
        let mut answers: Vec<Answer> = (1..k).map(rejected).collect();
        answers.push(accepted(k));
        let trace = drive(retry_of(5), answers, None);
        assert_eq!(trace.result, accepted(k));
        assert_eq!(trace.attempts, k);
        assert_eq!(trace.sleeps.len(), k - 1);
    }
}

#[test]
fn success_ends_a_call_that_is_granted_many_attempts() {
    let trace = drive(retry_of(1000), vec![rejected(1), rejected(2), accepted(3)], None);
    assert_eq!(trace.result, accepted(3));
    assert_eq!(trace.attempts, 3);
    assert_eq!(trace.sleeps, vec![100, 200]);
}

#[test]
fn interrupt_ends_a_call_that_is_granted_many_attempts() {
    let trace = drive(retry_of(usize::MAX), vec![rejected(1), rejected(2), rejected(3)], Some(3));
    assert_eq!(trace.result, rejected(3));
    assert_eq!(trace.attempts, 3);
    assert_eq!(trace.sleeps, vec![100, 200, 400]);
}

#[test]
fn channel_failure_on_a_later_attempt_ends_the_call() {
    for k in 1..=6usize {
        let mut answers: Vec<Answer> = (1..k).map(rejected).collect();
        answers.push(failed(k));
        let trace = drive(retry_of(60), answers, None);
        assert_eq!(trace.result, failed(k));
        assert_eq!(trace.attempts, k);
        assert_eq!(trace.sleeps.len(), k - 1);
        for (index, millis) in trace.sleeps.iter().enumerate() {
            assert_eq!(*millis, 100u64 << index);
        }
    }
}

#[test]
fn interrupted_backoff_returns_the_rejection_in_hand() {
    let trace = drive(retry_of(5), vec![rejected(1), rejected(2)], Some(2));
    assert_eq!(trace.result, rejected(2));
    assert_eq!(trace.attempts, 2);
    assert_eq!(trace.sleeps, vec![100, 200]);
}

#[test]
fn interrupted_first_backoff_returns_first_rejection() {
    let trace = drive(retry_of(5), vec![rejected(1)], Some(1));
    assert_eq!(trace.result, rejected(1));
    assert_eq!(trace.attempts, 1);
    assert_eq!(trace.sleeps, vec![100]);
}

#[test]
fn on_response_passes_answers_through() {
    let retry = retry_of(3);
    match retry.on_response(accepted(1)) {
        Verdict::Return(result) => assert_eq!(result, accepted(1)),
        Verdict::Backoff(_) => panic!("an accepted request was retried"),
    }
    match retry.on_response(failed(1)) {
        Verdict::Return(result) => assert_eq!(result, failed(1)),
        Verdict::Backoff(_) => panic!("a failed channel was retried"),
    }
    match retry.on_response(rejected(1)) {
        Verdict::Return(_) => panic!("a first rejection was final"),
        Verdict::Backoff(backoff) => {
            assert_eq!(backoff.millis(), 100);
            assert_eq!(backoff.attempt(), 1);
            assert_eq!(backoff.rejected(), "rejected 1");
        },
    }
}

#[test]
fn wake_says_what_follows() {
    let backoff = match retry_of(3).on_response(rejected(1)) {
        Verdict::Backoff(backoff) => backoff,
        Verdict::Return(_) => panic!("a first rejection was final"),
    };
    match backoff.wake::<String>(false) {
        Resume::Retry(next) => {
            assert_eq!(next.attempt(), 2);
            assert_eq!(next.max_attempts(), 3);
        },
        Resume::Return(_) => panic!("a full sleep ended the call"),
    }
    let backoff = match retry_of(3).on_response(rejected(1)) {
        Verdict::Backoff(backoff) => backoff,
        Verdict::Return(_) => panic!("a first rejection was final"),
    };
    match backoff.wake::<String>(true) {
        Resume::Return(result) => assert_eq!(result, rejected(1)),
        Resume::Retry(_) => panic!("an interrupted sleep went on"),
    }
}

#[test]
fn longest_backoff_is_counted_exactly() {
    let count = MAX_BACKOFF_ATTEMPT + 1;
    let answers: Vec<Answer> = (1..=count).map(rejected).collect();
    let trace = drive(retry_of(count), answers, None);
    assert_eq!(trace.attempts, 59);
    assert_eq!(trace.result, rejected(59));
    assert_eq!(trace.sleeps.len(), 58);
    assert_eq!(trace.sleeps[57], 14_411_518_807_585_587_200);
    assert_eq!(trace.sleeps[57], 100 * (1u64 << 57));
    assert!(trace.sleeps[57].checked_mul(2).is_none());
}

#[test]
fn takes_refuses_a_backoff_too_long_to_count() {
    let mut retry = retry_of(100);
    for attempt in 1..=MAX_BACKOFF_ATTEMPT {
        assert!(retry.takes(&rejected(attempt)));
        let backoff = match retry.on_response(rejected(attempt)) {
            Verdict::Backoff(backoff) => backoff,
            Verdict::Return(_) => panic!("rejection {} was final", attempt),
        };
        retry = match backoff.wake::<String>(false) {
            Resume::Retry(next) => next,
            Resume::Return(_) => panic!("a full sleep ended the call"),
        };
    }
    assert_eq!(retry.attempt(), 59);
    assert!(!retry.takes(&rejected(59)));
    assert!(retry.takes(&accepted(59)));
    assert!(retry.takes(&failed(59)));
    match retry.on_response(accepted(59)) {
        Verdict::Return(result) => assert_eq!(result, accepted(59)),
        Verdict::Backoff(_) => panic!("an accepted request was retried"),
    }
}

#[test]
fn zero_count_never_makes_a_rejection_final() {
    let retry = retry_of(0);
    assert_eq!(retry.max_attempts(), 0);
    let answers = vec![rejected(1), rejected(2), rejected(3), accepted(4)];
    let trace = drive(retry, answers, None);
    assert_eq!(trace.result, accepted(4));
    assert_eq!(trace.sleeps, vec![100, 200, 400]);
}

#[test]
fn retried_operations_carry_their_request() {
    let enclave = enclave_with(Some(7));
    let op: Call = enclave.refresh_token(
        String::from("label"),
        String::from("1234"),
        String::from("key"),
    );
    assert_eq!(
        op.call.request,
        ApiRequest::RefreshToken {
            label: String::from("label"),
            pin: String::from("1234"),
            envelope_key: String::from("key"),
        }
    );
    assert_eq!(op.retry.attempt(), 1);
    assert_eq!(op.retry.max_attempts(), 7);
    let op: Call = enclave.update_token(
        String::from("label"),
        String::from("1234"),
        String::from("token"),
    );
    assert_eq!(
        op.call.request,
        ApiRequest::UpdateToken {
            label: String::from("label"),
            pin: String::from("1234"),
            token: String::from("token"),
        }
    );
    assert_eq!(op.retry.attempt(), 1);
    assert_eq!(op.retry.max_attempts(), 7);
    assert_eq!((op.call.cid, op.call.port), (16, 10000));
}

#[test]
fn single_shot_operations_carry_their_request() {
    let enclave = enclave_with(None);
    let call: RpcCall<String, String> =
        enclave.describe_token(String::from("label"), String::from("1234"));
    assert_eq!(
        call.request,
        ApiRequest::DescribeToken { label: String::from("label"), pin: String::from("1234") }
    );
    assert_eq!((call.cid, call.port), (16, 10000));
}

#[test]
fn exchange_says_which_phase_failed() {
    let exchange: Exchange<String, String> = Exchange::ConnectFailed(String::from("refused"));
    assert_eq!(exchange.into_result(), Err(Error::RpcConnectError(String::from("refused"))));
    let exchange: Exchange<String, String> = Exchange::SendFailed(String::from("broken pipe"));
    assert_eq!(exchange.into_result(), Err(Error::RpcTransportError(String::from("broken pipe"))));
    let exchange: Exchange<String, String> = Exchange::ReceiveFailed(String::from("bad frame"));
    assert_eq!(exchange.into_result(), Err(Error::RpcTransportError(String::from("bad frame"))));
    let exchange: Exchange<String, String> = Exchange::Received(Ok(String::from("done")));
    assert_eq!(exchange.into_result(), Ok(Ok(String::from("done"))));
}
