use fletcher::fetch::{judge, settle, step, Attempt, Judgement, Response, RetryBudget, Step, MAX_ATTEMPTS};
use fletcher::decode::DecodeFailure;
use fletcher::FletcherError;
use std::io::Write;

fn plain(status: u16, body: &str) -> Attempt {
    Attempt::Received(Response { status, content_encoding: None, body: body.as_bytes().to_vec() })
}

fn encoded(status: u16, coding: &str, body: Vec<u8>) -> Attempt {
    Attempt::Received(Response { status, content_encoding: Some(coding.as_bytes().to_vec()), body })
}

fn gzip(data: &[u8]) -> Vec<u8> {
    let mut encoder = libflate::gzip::Encoder::new(Vec::new()).unwrap();
    encoder.write_all(data).unwrap();
    encoder.finish().into_result().unwrap()
}

/// Runs a fetch against recorded attempts; gives the result and the number
/// of attempts that were looked at.
fn replay(attempts: Vec<Attempt>) -> (Option<Result<String, FletcherError>>, usize) {
    let mut budget = RetryBudget::new();
    let mut made = 0;
    for attempt in attempts {
        made += 1;
        match step(budget, attempt) {
            Step::Retry(rest) => budget = rest,
            Step::Page(text) => return (Some(Ok(text)), made),
            Step::Failed(e) => return (Some(Err(e)), made),
        }
    }
    (None, made)
}

#[test]
fn the_budget_is_ten_attempts() {
    assert_eq!(MAX_ATTEMPTS, 10);
    let budget = RetryBudget::new();
    assert_eq!(budget.attempts_left(), 10);
    assert_eq!(budget.attempts_made(), 0);
}

#[test]
fn only_transient_failures_take_exactly_ten_attempts() {
    let attempts: Vec<Attempt> = (0..25).map(|_| Attempt::TransportFailed).collect();
    assert_eq!(replay(attempts), (Some(Err(FletcherError::FailedTooOften)), 10));
}

#[test]
fn nine_transient_failures_leave_the_fetch_open() {
    for n in 0..10 {
        let attempts: Vec<Attempt> = (0..n).map(|_| plain(500, "oops")).collect();
        assert_eq!(replay(attempts), (None, n));
    }
}

#[test]
fn a_success_after_transient_failures_ends_the_fetch() {
    let attempts = vec![
        Attempt::TransportFailed,
        Attempt::BodyUnreadable,
        plain(500, "a"),
        plain(503, "b"),
        plain(301, "c"),
        plain(100, "d"),
        encoded(200, "gzip", b"damaged".to_vec()),
        plain(200, "\u{0}"),
        Attempt::Received(Response { status: 200, content_encoding: None, body: vec![0xff] }),
        plain(418, "e"),
        plain(502, "f"),
        plain(200, "too late"),
    ];
    let (outcome, made) = replay(attempts);
    // the eighth attempt is a success with a one-character page
    assert_eq!(outcome, Some(Ok("\u{0}".to_string())));
    assert_eq!(made, 8);
}

#[test]
fn ten_mixed_transient_failures_fail_too_often() {
    let attempts = vec![
        Attempt::TransportFailed,
        Attempt::BodyUnreadable,
        plain(500, "a"),
        plain(503, "b"),
        plain(301, "c"),
        plain(100, "d"),
        encoded(200, "gzip", b"damaged".to_vec()),
        Attempt::Received(Response { status: 200, content_encoding: None, body: vec![0xff] }),
        plain(418, "e"),
        plain(502, "f"),
        plain(200, "too late"),
    ];
    assert_eq!(replay(attempts), (Some(Err(FletcherError::FailedTooOften)), 10));
}

#[test]
fn the_budget_counts_down_by_one() {
    let mut budget = RetryBudget::new();
    for made in 1..10u8 {
        match step(budget, Attempt::TransportFailed) {
            Step::Retry(rest) => {
                assert_eq!(rest.attempts_left(), 10 - made);
                assert_eq!(rest.attempts_made(), made);
                budget = rest;
            }
            other => panic!("over after {} attempts: {:?}", made, other),
        }
    }
    assert_eq!(step(budget, Attempt::TransportFailed), Step::Failed(FletcherError::FailedTooOften));
}

#[test]
fn success_on_the_first_attempt() {
    assert_eq!(replay(vec![plain(200, "<html></html>"), plain(404, "")]), (Some(Ok("<html></html>".to_string())), 1));
}

#[test]
fn success_on_the_last_attempt() {
    let mut attempts: Vec<Attempt> = (0..9).map(|_| Attempt::TransportFailed).collect();
    attempts.push(plain(200, "at last"));
    assert_eq!(replay(attempts), (Some(Ok("at last".to_string())), 10));
}

#[test]
fn fatal_on_the_last_attempt() {
    let mut attempts: Vec<Attempt> = (0..9).map(|_| Attempt::TransportFailed).collect();
    attempts.push(plain(404, "gone"));
    assert_eq!(replay(attempts), (Some(Err(FletcherError::NotFound)), 10));
}

#[test]
fn rate_limit_ends_the_fetch_at_once() {
    let attempts = vec![Attempt::TransportFailed, plain(500, ""), plain(429, "slow down"), plain(200, "page")];
    assert_eq!(replay(attempts), (Some(Err(FletcherError::RateLimitReached)), 3));
}

#[test]
fn forbidden_ends_the_fetch_at_once() {
    assert_eq!(replay(vec![plain(403, "no"), plain(200, "page")]), (Some(Err(FletcherError::Forbidden)), 1));
}

#[test]
fn not_found_ends_the_fetch_at_once() {
    let attempts = vec![Attempt::BodyUnreadable, plain(404, ""), plain(200, "page")];
    assert_eq!(replay(attempts), (Some(Err(FletcherError::NotFound)), 2));
}

#[test]
fn unsupported_encoding_ends_the_fetch_at_once() {
    for status in [200u16, 404, 429, 500] {
        let attempts = vec![Attempt::TransportFailed, encoded(status, "zstd", b"body".to_vec()), plain(200, "page")];
        assert_eq!(replay(attempts), (Some(Err(FletcherError::InvalidResponse)), 2));
    }
}

#[test]
fn a_corrupt_body_is_transient_whatever_the_status() {
    for status in [200u16, 403, 404, 429, 500] {
        assert_eq!(judge(encoded(status, "gzip", b"damaged".to_vec())), Judgement::Transient);
        assert_eq!(judge(Attempt::Received(Response { status, content_encoding: None, body: vec![0xc0] })), Judgement::Transient);
    }
}

#[test]
fn a_compressed_page_is_returned_decoded() {
    let page = "<html><body><h1>Example Domain</h1></body></html>";
    assert_eq!(judge(encoded(200, "gzip", gzip(page.as_bytes()))), Judgement::Page(page.to_string()));
    assert_eq!(judge(encoded(404, "gzip", gzip(page.as_bytes()))), Judgement::Fatal(FletcherError::NotFound));
}

#[test]
fn an_empty_page_is_a_success() {
    assert_eq!(replay(vec![plain(200, "")]), (Some(Ok(String::new())), 1));
    assert_eq!(replay(vec![plain(204, "")]), (Some(Ok(String::new())), 1));
}

#[test]
fn a_page_that_is_not_empty_is_returned_whole() {
    let (outcome, _) = replay(vec![plain(200, "x")]);
    assert_eq!(outcome, Some(Ok("x".to_string())));
}

#[test]
fn success_is_the_range_from_200_to_299() {
    assert_eq!(settle(199, Ok("p".to_string())), Judgement::Transient);
    assert_eq!(settle(200, Ok("p".to_string())), Judgement::Page("p".to_string()));
    assert_eq!(settle(299, Ok("p".to_string())), Judgement::Page("p".to_string()));
    assert_eq!(settle(300, Ok("p".to_string())), Judgement::Transient);
}

#[test]
fn settle_by_status() {
    assert_eq!(settle(429, Ok(String::new())), Judgement::Fatal(FletcherError::RateLimitReached));
    assert_eq!(settle(403, Ok(String::new())), Judgement::Fatal(FletcherError::Forbidden));
    assert_eq!(settle(404, Ok(String::new())), Judgement::Fatal(FletcherError::NotFound));
    assert_eq!(settle(400, Ok(String::new())), Judgement::Transient);
    assert_eq!(settle(500, Ok(String::new())), Judgement::Transient);
    assert_eq!(settle(0, Ok(String::new())), Judgement::Transient);
    assert_eq!(settle(65535, Ok(String::new())), Judgement::Transient);
}

#[test]
fn settle_by_body() {
    assert_eq!(settle(200, Err(DecodeFailure::Corrupt)), Judgement::Transient);
    assert_eq!(settle(404, Err(DecodeFailure::Corrupt)), Judgement::Transient);
    assert_eq!(settle(200, Err(DecodeFailure::UnsupportedEncoding)), Judgement::Fatal(FletcherError::InvalidResponse));
    assert_eq!(settle(500, Err(DecodeFailure::UnsupportedEncoding)), Judgement::Fatal(FletcherError::InvalidResponse));
}

#[test]
fn spend_ends_on_the_last_unit() {
    let mut budget = RetryBudget::new();
    for _ in 0..9 {
        budget = match budget.spend(Judgement::Transient) {
            Step::Retry(rest) => rest,
            other => panic!("over too early: {:?}", other),
        };
    }
    assert_eq!(budget.attempts_left(), 1);
    assert_eq!(budget.spend(Judgement::Transient), Step::Failed(FletcherError::FailedTooOften));
    assert_eq!(RetryBudget::new().spend(Judgement::Page("p".to_string())), Step::Page("p".to_string()));
    assert_eq!(RetryBudget::new().spend(Judgement::Fatal(FletcherError::Forbidden)), Step::Failed(FletcherError::Forbidden));
}

#[test]
fn status_errors() {
    assert_eq!(FletcherError::from_status(429), Some(FletcherError::RateLimitReached));
    assert_eq!(FletcherError::from_status(403), Some(FletcherError::Forbidden));
    assert_eq!(FletcherError::from_status(404), Some(FletcherError::NotFound));
    assert_eq!(FletcherError::from_status(200), None);
    assert_eq!(FletcherError::from_status(500), None);
    assert_eq!(FletcherError::from_status(428), None);
    assert_eq!(FletcherError::from_status(430), None);
}
