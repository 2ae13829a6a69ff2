use cash_tracker::resilience::http::{
    backoff_delay, should_retry_error, should_retry_status, RetryError, RetryEvent, RetryStep,
    RetryableClient, TransportFault, BASE_DELAY_MILLIS, DEFAULT_MAX_RETRIES, DEFAULT_TIMEOUT_SECS,
};

struct Played {
    copies: u32,
    sends: u32,
    waits: Vec<u64>,
    end: RetryStep,
}

fn responded(status: u16, status_text: &str) -> RetryEvent {
    RetryEvent::Responded { status, status_text: status_text.to_string() }
}

fn fault(timeout: bool, connect: bool, request: bool, description: &str) -> TransportFault {
    TransportFault { timeout, connect, request, description: description.to_string() }
}

/// Plays a call as a host would: `replies` answers each attempt by its index.
fn play(client: &RetryableClient, replayable: bool, replies: &dyn Fn(u32) -> RetryEvent) -> Played {
    let mut played = Played { copies: 0, sends: 0, waits: Vec::new(), end: RetryStep::Done };
    let mut step = client.start();
    for _ in 0..10_000 {
        let event = match &step {
            RetryStep::Copy { .. } => {
                played.copies += 1;
                if replayable {
                    RetryEvent::Copied
                } else {
                    RetryEvent::NotReplayable
                }
            }
            RetryStep::Send { attempt } => {
                played.sends += 1;
                replies(*attempt)
            }
            RetryStep::Wait { millis, .. } => {
                played.waits.push(*millis);
                RetryEvent::Waited
            }
            RetryStep::Done | RetryStep::Fail(_) => {
                played.end = step;
                return played;
            }
        };
        step = client.execute_with_retry(step, event);
    }
    panic!("the call did not end");
}

#[test]
fn defaults() {
    assert_eq!(DEFAULT_MAX_RETRIES, 3);
    assert_eq!(DEFAULT_TIMEOUT_SECS, 45);
    assert_eq!(BASE_DELAY_MILLIS, 1000);
    assert_eq!(RetryableClient::new().max_retries(), 3);
    assert_eq!(RetryableClient::default().max_retries(), 3);
    assert_eq!(RetryableClient::with_retries(7).max_retries(), 7);
    assert_eq!(RetryableClient::new(), RetryableClient::default());
}

#[test]
fn always_500_with_three_retries() {
    let client = RetryableClient::with_retries(3);
    let played = play(&client, true, &|_| responded(500, "500 Internal Server Error"));
    assert_eq!(played.sends, 3);
    assert_eq!(played.copies, 3);
    assert_eq!(played.waits, vec![2000, 4000]);
    assert_eq!(
        played.end,
        RetryStep::Fail(RetryError::AllRetriesFailed("HTTP 500 Internal Server Error".to_string()))
    );
}

#[test]
fn always_500_step_by_step() {
    let client = RetryableClient::with_retries(3);
    let mut step = client.start();
    assert_eq!(step, RetryStep::Copy { attempt: 0 });
    step = client.execute_with_retry(step, RetryEvent::Copied);
    assert_eq!(step, RetryStep::Send { attempt: 0 });
    step = client.execute_with_retry(step, responded(500, "500 Internal Server Error"));
    assert_eq!(step, RetryStep::Wait { next_attempt: 1, millis: 2000 });
    step = client.execute_with_retry(step, RetryEvent::Waited);
    assert_eq!(step, RetryStep::Copy { attempt: 1 });
    step = client.execute_with_retry(step, RetryEvent::Copied);
    step = client.execute_with_retry(step, responded(500, "500 Internal Server Error"));
    assert_eq!(step, RetryStep::Wait { next_attempt: 2, millis: 4000 });
    step = client.execute_with_retry(step, RetryEvent::Waited);
    step = client.execute_with_retry(step, RetryEvent::Copied);
    assert_eq!(step, RetryStep::Send { attempt: 2 });
    step = client.execute_with_retry(step, responded(500, "500 Internal Server Error"));
    assert_eq!(
        step,
        RetryStep::Fail(RetryError::AllRetriesFailed("HTTP 500 Internal Server Error".to_string()))
    );
}

#[test]
fn a_400_is_attempted_once() {
    let client = RetryableClient::with_retries(3);
    let played = play(&client, true, &|_| responded(400, "400 Bad Request"));
    assert_eq!(played.sends, 1);
    assert!(played.waits.is_empty());
    assert_eq!(
        played.end,
        RetryStep::Fail(RetryError::NonRetryable("HTTP 400 Bad Request".to_string()))
    );
}

#[test]
fn a_call_that_cannot_be_copied_is_never_sent() {
    let client = RetryableClient::with_retries(3);
    let played = play(&client, false, &|_| responded(200, "200 OK"));
    assert_eq!(played.sends, 0);
    assert_eq!(played.copies, 1);
    assert!(played.waits.is_empty());
    assert_eq!(
        played.end,
        RetryStep::Fail(RetryError::NonRetryable("Request body not cloneable".to_string()))
    );
}

#[test]
fn success_returns_at_once() {
    let client = RetryableClient::new();
    for status in [200u16, 201, 204, 299] {
        let played = play(&client, true, &|_| responded(status, "fine"));
        assert_eq!(played.sends, 1);
        assert!(played.waits.is_empty());
        assert_eq!(played.end, RetryStep::Done);
    }
}

#[test]
fn success_after_failures() {
    let client = RetryableClient::new();
    let played = play(&client, true, &|attempt| {
        if attempt < 2 {
            responded(503, "503 Service Unavailable")
        } else {
            responded(200, "200 OK")
        }
    });
    assert_eq!(played.sends, 3);
    assert_eq!(played.waits, vec![2000, 4000]);
    assert_eq!(played.end, RetryStep::Done);
}

#[test]
fn too_many_requests_is_tried_again() {
    let client = RetryableClient::with_retries(2);
    let played = play(&client, true, &|_| responded(429, "429 Too Many Requests"));
    assert_eq!(played.sends, 2);
    assert_eq!(played.waits, vec![2000]);
    assert_eq!(
        played.end,
        RetryStep::Fail(RetryError::AllRetriesFailed("HTTP 429 Too Many Requests".to_string()))
    );
}

#[test]
fn the_last_failure_is_the_one_described() {
    let client = RetryableClient::with_retries(3);
    let played = play(&client, true, &|attempt| match attempt {
        0 => responded(500, "500 Internal Server Error"),
        1 => RetryEvent::Faulted(fault(true, false, false, "operation timed out")),
        _ => responded(502, "502 Bad Gateway"),
    });
    assert_eq!(played.sends, 3);
    assert_eq!(
        played.end,
        RetryStep::Fail(RetryError::AllRetriesFailed("HTTP 502 Bad Gateway".to_string()))
    );
}

#[test]
fn faults_that_may_pass_are_tried_again() {
    let client = RetryableClient::with_retries(2);
    for (timeout, connect, request) in
        [(true, false, false), (false, true, false), (false, false, true), (true, true, true)]
    {
        let played = play(&client, true, &|_| {
            RetryEvent::Faulted(fault(timeout, connect, request, "no luck"))
        });
        assert_eq!(played.sends, 2);
        assert_eq!(played.waits, vec![2000]);
        assert_eq!(
            played.end,
            RetryStep::Fail(RetryError::AllRetriesFailed("no luck".to_string()))
        );
    }
}

#[test]
fn other_faults_end_the_call() {
    let client = RetryableClient::with_retries(3);
    let played = play(&client, true, &|_| {
        RetryEvent::Faulted(fault(false, false, false, "error decoding response body"))
    });
    assert_eq!(played.sends, 1);
    assert!(played.waits.is_empty());
    assert_eq!(
        played.end,
        RetryStep::Fail(RetryError::NonRetryable("error decoding response body".to_string()))
    );
}

#[test]
fn other_statuses_end_the_call() {
    let client = RetryableClient::with_retries(3);
    for status in [100u16, 199, 300, 301, 404, 428, 430, 499, 600, 999] {
        let played = play(&client, true, &|_| responded(status, "status"));
        assert_eq!(played.sends, 1, "status {}", status);
        assert_eq!(
            played.end,
            RetryStep::Fail(RetryError::NonRetryable("HTTP status".to_string()))
        );
    }
}

#[test]
fn a_client_of_no_attempts_gives_up_at_once() {
    let client = RetryableClient::with_retries(0);
    assert_eq!(
        client.start(),
        RetryStep::Fail(RetryError::AllRetriesFailed("Unknown error".to_string()))
    );
    let played = play(&client, true, &|_| responded(200, "200 OK"));
    assert_eq!(played.sends, 0);
    assert_eq!(played.copies, 0);
}

#[test]
fn a_client_of_one_attempt_never_waits() {
    let client = RetryableClient::with_retries(1);
    let played = play(&client, true, &|_| responded(500, "500 Internal Server Error"));
    assert_eq!(played.sends, 1);
    assert!(played.waits.is_empty());
    assert_eq!(
        played.end,
        RetryStep::Fail(RetryError::AllRetriesFailed("HTTP 500 Internal Server Error".to_string()))
    );
}

#[test]
fn every_attempt_is_used() {
    for attempts in 1u32..=12 {
        let client = RetryableClient::with_retries(attempts);
        let played = play(&client, true, &|_| responded(500, "500"));
        assert_eq!(played.sends, attempts);
        assert_eq!(played.waits.len() as u32, attempts - 1);
        for (i, wait) in played.waits.iter().enumerate() {
            assert_eq!(*wait, 1000 * 2u64.pow(i as u32 + 1));
        }
    }
}

#[test]
fn events_that_do_not_answer_the_step_change_nothing() {
    let client = RetryableClient::new();
    let copy = RetryStep::Copy { attempt: 1 };
    assert_eq!(client.execute_with_retry(copy.clone(), RetryEvent::Waited), copy);
    assert_eq!(client.execute_with_retry(copy.clone(), responded(200, "200 OK")), copy);
    let send = RetryStep::Send { attempt: 1 };
    assert_eq!(client.execute_with_retry(send.clone(), RetryEvent::Copied), send);
    assert_eq!(client.execute_with_retry(send.clone(), RetryEvent::NotReplayable), send);
    let wait = RetryStep::Wait { next_attempt: 2, millis: 4000 };
    assert_eq!(client.execute_with_retry(wait.clone(), RetryEvent::Copied), wait);
    assert_eq!(client.execute_with_retry(RetryStep::Done, RetryEvent::Waited), RetryStep::Done);
    let failed = RetryStep::Fail(RetryError::NonRetryable("no".to_string()));
    assert_eq!(client.execute_with_retry(failed.clone(), RetryEvent::Copied), failed);
}

#[test]
fn which_statuses_are_tried_again() {
    for status in 0u16..=1000 {
        let expected = (500..600).contains(&status) || status == 429;
        assert_eq!(should_retry_status(status), expected, "status {}", status);
    }
    assert!(!should_retry_status(u16::MAX));
}

#[test]
fn which_faults_are_tried_again() {
    for bits in 0u8..8 {
        let (timeout, connect, request) = (bits & 1 != 0, bits & 2 != 0, bits & 4 != 0);
        assert_eq!(
            should_retry_error(&fault(timeout, connect, request, "x")),
            timeout || connect || request
        );
    }
}

#[test]
fn delays_double() {
    assert_eq!(backoff_delay(0), 2000);
    assert_eq!(backoff_delay(1), 4000);
    assert_eq!(backoff_delay(2), 8000);
    assert_eq!(backoff_delay(9), 1_024_000);
    assert_eq!(backoff_delay(53), 1000 * (1u64 << 54));
}

#[test]
fn delays_stop_at_the_largest_number() {
    assert_eq!(backoff_delay(54), u64::MAX);
    assert_eq!(backoff_delay(55), u64::MAX);
    assert_eq!(backoff_delay(1_000), u64::MAX);
}

#[test]
fn retry_errors_in_words() {
    assert_eq!(
        RetryError::AllRetriesFailed("HTTP 500".to_string()).message(),
        "Request failed after all retries: HTTP 500"
    );
    assert_eq!(
        RetryError::NonRetryable("Request body not cloneable".to_string()).message(),
        "Non-retryable error: Request body not cloneable"
    );
}
