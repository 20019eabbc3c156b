//! Loading a page with a bounded number of attempts.
//!
//! The request itself is the caller's: it comes as a function from the URL
//! to what one attempt brought back. Everything else (how often it is
//! called, and what the answers amount to) is decided here.

use crate::decode::{text_view, DecodeFailure};
use crate::error::FletcherError;
use crate::fetch::{
    is_success, lemma_budget_is_spent_exactly, lemma_page_is_decoded_body,
    lemma_settling_verdict_ends_fetch, lemma_transient_goes_on, response_text, run, step,
    transient_until, verdict_of, verdicts_of, Attempt, Response, RetryBudget, Run, Step,
    MAX_ATTEMPTS,
};
use vstd::prelude::*;

verus! {

/// Whether each of the attempts is one that `send` may return for the URL.
pub open spec fn sent_by<F: Fn(&str) -> Attempt>(send: F, url: &str, attempts: Seq<Attempt>) -> bool {
    forall|i: int| 0 <= i < attempts.len() ==> call_ensures(send, (url,), #[trigger] attempts[i])
}

/// Whether a fetch that meets exactly these attempts, one after the other,
/// ends with the last of them, and with the given result.
pub open spec fn ends_with(attempts: Seq<Attempt>, result: Result<Seq<char>, FletcherError>) -> bool {
    &&& 1 <= attempts.len() <= MAX_ATTEMPTS
    &&& run(MAX_ATTEMPTS as nat, verdicts_of(attempts)) == (Run {
        outcome: Some(result),
        attempts: attempts.len(),
    })
}

/// Whether `result` is what a fetch of the URL comes to for some sequence
/// of answers of `send`.
pub open spec fn loaded<F: Fn(&str) -> Attempt>(
    send: F,
    url: &str,
    result: Result<Seq<char>, FletcherError>,
) -> bool {
    exists|attempts: Seq<Attempt>| sent_by(send, url, attempts) && #[trigger] ends_with(attempts, result)
}

/// Tries to download a single URL up to 10 times and returns the body.
///
/// `send` makes one attempt. It is called until an attempt settles the
/// fetch: a success returns the decoded body, a fatal failure its error,
/// and the tenth transient failure `FailedTooOften`. No call is made after
/// that, and there is no pause between calls.
pub fn load_page<F: Fn(&str) -> Attempt>(url: &str, send: F) -> (result: Result<String, FletcherError>)
    requires
        call_requires(send, (url,)),
    ensures
        loaded(send, url, text_view(result)),
{
    let mut budget = RetryBudget::new();
    let ghost mut trace: Seq<Attempt> = Seq::empty();
    loop
        invariant
            call_requires(send, (url,)),
            sent_by(send, url, trace),
            trace.len() + budget.remaining() == MAX_ATTEMPTS,
            budget.remaining() >= 1,
            transient_until(verdicts_of(trace), trace.len()),
        decreases budget.remaining(),
    {
        let attempt = send(url);
        let ghost left = budget.remaining();
        let ghost made = trace.len();
        let ghost before = trace;
        proof {
            trace = before.push(attempt);
            assert(transient_until(verdicts_of(trace), made)) by {
                assert forall|i: int| 0 <= i < made implies verdicts_of(trace)[i] is Transient by {
                    assert(trace[i] == before[i]);
                    assert(verdicts_of(before)[i] is Transient);
                }
            }
            assert(verdicts_of(trace)[made as int] == verdict_of(attempt));
        }
        match step(budget, attempt) {
            Step::Retry(rest) => {
                budget = rest;
            },
            Step::Page(text) => {
                proof {
                    lemma_settling_verdict_ends_fetch(verdicts_of(trace), made);
                    assert(ends_with(trace, Ok(text@)));
                }
                return Ok(text);
            },
            Step::Failed(e) => {
                proof {
                    if verdict_of(attempt) is Transient {
                        lemma_budget_is_spent_exactly(verdicts_of(trace));
                    } else {
                        lemma_settling_verdict_ends_fetch(verdicts_of(trace), made);
                    }
                    assert(ends_with(trace, Err(e)));
                }
                return Err(e);
            },
        }
    }
}

/// The retry budget: where every answer that `send` can give is a transient
/// failure, the fetch makes exactly [`MAX_ATTEMPTS`] attempts and comes to
/// `FailedTooOften`.
pub proof fn lemma_only_transient_answers<F: Fn(&str) -> Attempt>(
    send: F,
    url: &str,
    attempts: Seq<Attempt>,
    result: Result<Seq<char>, FletcherError>,
)
    requires
        forall|a: Attempt| call_ensures(send, (url,), a) ==> verdict_of(a) is Transient,
        sent_by(send, url, attempts),
        ends_with(attempts, result),
    ensures
        attempts.len() == MAX_ATTEMPTS,
        result == Err::<Seq<char>, FletcherError>(FletcherError::FailedTooOften),
{
    let verdicts = verdicts_of(attempts);
    assert forall|i: int| 0 <= i < verdicts.len() implies verdicts[i] is Transient by {
        assert(call_ensures(send, (url,), attempts[i]));
    }
    if attempts.len() < MAX_ATTEMPTS {
        lemma_transient_goes_on(MAX_ATTEMPTS as nat, verdicts);
    } else {
        lemma_budget_is_spent_exactly(verdicts);
    }
}

/// A page that a fetch returns is the decoded body of an answer of `send`
/// with a success status: it is empty only where that body is.
pub proof fn lemma_loaded_page_is_decoded_body<F: Fn(&str) -> Attempt>(
    send: F,
    url: &str,
    page: Seq<char>,
)
    requires
        loaded(send, url, Ok(page)),
    ensures
        exists|response: Response| #[trigger]
            call_ensures(send, (url,), Attempt::Received(response)) && is_success(response.status)
                && response_text(response) == Ok::<Seq<char>, DecodeFailure>(page),
{
    let attempts = choose|attempts: Seq<Attempt>|
        sent_by(send, url, attempts) && #[trigger] ends_with(attempts, Ok(page));
    lemma_page_is_decoded_body(MAX_ATTEMPTS as nat, attempts, page);
    let last = attempts[attempts.len() - 1];
    match last {
        Attempt::Received(response) => {
            assert(call_ensures(send, (url,), Attempt::Received(response)));
        },
        _ => {},
    }
}

} // verus!
