//! The decisions of a page fetch with a bounded number of attempts.
//!
//! The caller sends the request and reports what came back as an
//! [`Attempt`]; [`step`] says whether the fetch is over and how. A fetch
//! begins with [`RetryBudget::new`] and makes at most [`MAX_ATTEMPTS`]
//! attempts, with no pause between them.

use crate::decode::{decode_body, decoded, text_view, DecodeFailure};
use crate::encoding::{
    brotli_tag, codec_of, deflate_tag, gzip_tag, header_view, ContentEncoding,
};
use crate::error::{fatal_status, FletcherError};
use vstd::prelude::*;

verus! {

/// The number of attempts that one fetch may make.
pub const MAX_ATTEMPTS: u8 = 10;

/// The value of the `Accept-Encoding` request header.
pub const ACCEPT_ENCODING: &'static str = "gzip, deflate, br";

/// The value of the `Accept-Language` request header.
pub const ACCEPT_LANGUAGE: &'static str = "de,en-US;q=0.7,en;q=0.3";

/// The value of the `Accept` request header.
pub const ACCEPT: &'static str =
    "text/html,application/xhtml+xml,application/xml;q=0.9,image/avif,image/webp,*/*;q=0.8";

/// The value of the `User-Agent` request header: that of a mainstream
/// browser.
pub const USER_AGENT: &'static str =
    "Mozilla/5.0 (Windows NT 10.0; Win64; x64) AppleWebKit/537.36 (KHTML, like Gecko) Chrome/100.0.4896.127 Safari/537.36";

/// What is read of a response that arrived whole.
#[derive(Debug, Clone, PartialEq, Eq)]
pub struct Response {
    /// The status code.
    pub status: u16,
    /// The value of the `Content-Encoding` header, if there is one.
    pub content_encoding: Option<Vec<u8>>,
    /// The body as it was sent.
    pub body: Vec<u8>,
}

/// What one attempt brought back.
#[derive(Debug, Clone, PartialEq, Eq)]
pub enum Attempt {
    /// No response: the connection failed, timed out, or TLS failed.
    TransportFailed,
    /// A response began, but its body could not be read to the end.
    BodyUnreadable,
    /// A response with its whole body.
    Received(Response),
}

/// What one attempt settles, as a mathematical value.
pub enum Verdict {
    /// The page, decoded.
    Page(Seq<char>),
    /// A failure that no further attempt can mend.
    Fatal(FletcherError),
    /// A failure that another attempt may mend.
    Transient,
}

/// What one attempt settles.
#[derive(Debug, Clone, PartialEq, Eq)]
pub enum Judgement {
    /// The page, decoded.
    Page(String),
    /// A failure that no further attempt can mend.
    Fatal(FletcherError),
    /// A failure that another attempt may mend.
    Transient,
}

impl View for Judgement {
    type V = Verdict;

    open spec fn view(&self) -> Verdict {
        match self {
            Judgement::Page(text) => Verdict::Page(text@),
            Judgement::Fatal(e) => Verdict::Fatal(*e),
            Judgement::Transient => Verdict::Transient,
        }
    }
}

/// Whether a status code reports success.
pub open spec fn is_success(status: u16) -> bool {
    200 <= status < 300
}

/// What a response settles, given its status and what its body decoded to.
/// The body is looked at first: an unsupported coding is fatal and a
/// corrupt body transient whatever the status says.
pub open spec fn settled(status: u16, body: Result<Seq<char>, DecodeFailure>) -> Verdict {
    match body {
        Err(DecodeFailure::UnsupportedEncoding) => Verdict::Fatal(FletcherError::InvalidResponse),
        Err(DecodeFailure::Corrupt) => Verdict::Transient,
        Ok(text) => if is_success(status) {
            Verdict::Page(text)
        } else {
            match fatal_status(status) {
                Some(e) => Verdict::Fatal(e),
                None => Verdict::Transient,
            }
        },
    }
}

/// The text of a response's body.
pub open spec fn response_text(response: Response) -> Result<Seq<char>, DecodeFailure> {
    decoded(codec_of(header_view(response.content_encoding)), response.body@)
}

/// What an attempt settles.
pub open spec fn verdict_of(attempt: Attempt) -> Verdict {
    match attempt {
        Attempt::TransportFailed => Verdict::Transient,
        Attempt::BodyUnreadable => Verdict::Transient,
        Attempt::Received(response) => settled(response.status, response_text(response)),
    }
}

/// Classifies a response from its status and its decoded body.
pub fn settle(status: u16, body: Result<String, DecodeFailure>) -> (judgement: Judgement)
    ensures
        judgement@ == settled(status, text_view(body)),
{
    match body {
        Err(DecodeFailure::UnsupportedEncoding) => Judgement::Fatal(FletcherError::InvalidResponse),
        Err(DecodeFailure::Corrupt) => Judgement::Transient,
        Ok(text) => {
            if 200 <= status && status < 300 {
                Judgement::Page(text)
            } else {
                match FletcherError::from_status(status) {
                    Some(e) => Judgement::Fatal(e),
                    None => Judgement::Transient,
                }
            }
        },
    }
}

/// Classifies one attempt: decodes the body of a response by its declared
/// coding, then looks at the status.
pub fn judge(attempt: Attempt) -> (judgement: Judgement)
    ensures
        judgement@ == verdict_of(attempt),
{
    match attempt {
        Attempt::TransportFailed => Judgement::Transient,
        Attempt::BodyUnreadable => Judgement::Transient,
        Attempt::Received(response) => {
            let Response { status, content_encoding, body } = response;
            let encoding = ContentEncoding::from_header(content_encoding);
            settle(status, decode_body(&encoding, body))
        },
    }
}

/// The attempts that a fetch may still make: at least one, at most
/// [`MAX_ATTEMPTS`]. A fetch that has none left is over, so no such budget
/// exists.
#[derive(Debug, PartialEq, Eq)]
pub struct RetryBudget {
    left: u8,
}

/// Where a fetch stands after an attempt, as a mathematical value.
pub enum StepModel {
    /// Not settled: send the request again, with this many attempts left.
    Retry(nat),
    /// Over, with the page.
    Page(Seq<char>),
    /// Over, without the page.
    Failed(FletcherError),
}

/// Where a fetch stands after an attempt.
#[derive(Debug, PartialEq, Eq)]
pub enum Step {
    /// Not settled: send the request again, with the budget that is left.
    Retry(RetryBudget),
    /// Over, with the page.
    Page(String),
    /// Over, without the page.
    Failed(FletcherError),
}

impl View for Step {
    type V = StepModel;

    open spec fn view(&self) -> StepModel {
        match self {
            Step::Retry(budget) => StepModel::Retry(budget.remaining()),
            Step::Page(text) => StepModel::Page(text@),
            Step::Failed(e) => StepModel::Failed(*e),
        }
    }
}

/// Where a fetch with `left` attempts stands after one more attempt with
/// the given verdict. The attempt is spent whatever it brought; a transient
/// failure on the last one ends the fetch.
pub open spec fn next_step(left: nat, verdict: Verdict) -> StepModel {
    match verdict {
        Verdict::Page(text) => StepModel::Page(text),
        Verdict::Fatal(e) => StepModel::Failed(e),
        Verdict::Transient => if left <= 1 {
            StepModel::Failed(FletcherError::FailedTooOften)
        } else {
            StepModel::Retry((left - 1) as nat)
        },
    }
}

impl RetryBudget {
    #[verifier::type_invariant]
    spec fn in_range(self) -> bool {
        1 <= self.left <= MAX_ATTEMPTS
    }

    /// The number of attempts left.
    pub closed spec fn remaining(self) -> nat {
        self.left as nat
    }

    /// The budget of a fetch that has not begun.
    pub fn new() -> (budget: RetryBudget)
        ensures
            budget.remaining() == MAX_ATTEMPTS,
    {
        RetryBudget { left: MAX_ATTEMPTS }
    }

    /// The number of attempts left.
    pub fn attempts_left(&self) -> (n: u8)
        ensures
            n == self.remaining(),
            1 <= n <= MAX_ATTEMPTS,
    {
        proof {
            use_type_invariant(self);
        }
        self.left
    }

    /// The number of attempts made so far.
    pub fn attempts_made(&self) -> (n: u8)
        ensures
            n == MAX_ATTEMPTS - self.remaining(),
    {
        proof {
            use_type_invariant(self);
        }
        MAX_ATTEMPTS - self.left
    }

    /// Spends one attempt on a judgement.
    pub fn spend(self, judgement: Judgement) -> (step: Step)
        ensures
            step@ == next_step(self.remaining(), judgement@),
    {
        proof {
            use_type_invariant(&self);
        }
        match judgement {
            Judgement::Page(text) => Step::Page(text),
            Judgement::Fatal(e) => Step::Failed(e),
            Judgement::Transient => {
                if self.left <= 1 {
                    Step::Failed(FletcherError::FailedTooOften)
                } else {
                    Step::Retry(RetryBudget { left: self.left - 1 })
                }
            },
        }
    }
}

/// Takes a fetch one attempt further: classifies what the attempt brought
/// and spends one unit of the budget on it.
pub fn step(budget: RetryBudget, attempt: Attempt) -> (next: Step)
    ensures
        next@ == next_step(budget.remaining(), verdict_of(attempt)),
{
    budget.spend(judge(attempt))
}

/// How a fetch ended and how many attempts it made.
pub struct Run {
    /// The page or the error, `None` while the fetch is not over.
    pub outcome: Option<Result<Seq<char>, FletcherError>>,
    /// The number of attempts made.
    pub attempts: nat,
}

/// A fetch that has `left` attempts and meets the given verdicts in turn:
/// [`next_step`] applied until it settles or the verdicts run out. Verdicts
/// after the one that settles the fetch are never looked at.
pub open spec fn run(left: nat, verdicts: Seq<Verdict>) -> Run
    decreases verdicts.len(),
{
    if verdicts.len() == 0 {
        Run { outcome: None, attempts: 0 }
    } else {
        match next_step(left, verdicts[0]) {
            StepModel::Page(text) => Run { outcome: Some(Ok(text)), attempts: 1 },
            StepModel::Failed(e) => Run { outcome: Some(Err(e)), attempts: 1 },
            StepModel::Retry(rest) => {
                let later = run(rest, verdicts.drop_first());
                Run { outcome: later.outcome, attempts: later.attempts + 1 }
            },
        }
    }
}

/// The verdicts of a sequence of attempts.
pub open spec fn verdicts_of(attempts: Seq<Attempt>) -> Seq<Verdict> {
    Seq::new(attempts.len(), |i: int| verdict_of(attempts[i]))
}

/// Whether the first `k` verdicts are all transient.
pub open spec fn transient_until(verdicts: Seq<Verdict>, k: nat) -> bool {
    forall|i: int| 0 <= i < k ==> verdicts[i] is Transient
}

/// A fetch that meets `k` transient failures, with more than `k` attempts
/// in its budget, goes on after them as a fetch with `k` attempts less.
pub proof fn lemma_transient_prefix(left: nat, verdicts: Seq<Verdict>, k: nat)
    requires
        k <= verdicts.len(),
        k < left,
        transient_until(verdicts, k),
    ensures
        run(left, verdicts).outcome == run((left - k) as nat, verdicts.skip(k as int)).outcome,
        run(left, verdicts).attempts == k + run(
            (left - k) as nat,
            verdicts.skip(k as int),
        ).attempts,
    decreases k,
{
    if k == 0 {
        assert(verdicts.skip(0) =~= verdicts);
    } else {
        let rest = verdicts.drop_first();
        assert(verdicts[0] is Transient);
        assert forall|i: int| 0 <= i < k - 1 implies rest[i] is Transient by {
            assert(rest[i] == verdicts[i + 1]);
        }
        lemma_transient_prefix((left - 1) as nat, rest, (k - 1) as nat);
        assert(rest.skip(k - 1) =~= verdicts.skip(k as int));
    }
}

/// A fetch is never over while it has met fewer transient failures than
/// its budget holds.
pub proof fn lemma_transient_goes_on(left: nat, verdicts: Seq<Verdict>)
    requires
        verdicts.len() < left,
        transient_until(verdicts, verdicts.len()),
    ensures
        run(left, verdicts).outcome is None,
        run(left, verdicts).attempts == verdicts.len(),
{
    lemma_transient_prefix(left, verdicts, verdicts.len());
    assert(verdicts.skip(verdicts.len() as int).len() == 0);
}

/// The retry budget: a fetch that meets only transient failures makes
/// exactly [`MAX_ATTEMPTS`] attempts and then fails with `FailedTooOften`;
/// after any smaller number of attempts it is not over.
pub proof fn lemma_budget_is_spent_exactly(verdicts: Seq<Verdict>)
    requires
        verdicts.len() >= MAX_ATTEMPTS,
        transient_until(verdicts, MAX_ATTEMPTS as nat),
    ensures
        run(MAX_ATTEMPTS as nat, verdicts).outcome == Some(
            Err::<Seq<char>, FletcherError>(FletcherError::FailedTooOften),
        ),
        run(MAX_ATTEMPTS as nat, verdicts).attempts == MAX_ATTEMPTS,
        forall|n: int|
            0 <= n < MAX_ATTEMPTS ==> (#[trigger] run(
                MAX_ATTEMPTS as nat,
                verdicts.take(n),
            )).outcome is None,
{
    let last: nat = (MAX_ATTEMPTS - 1) as nat;
    lemma_transient_prefix(MAX_ATTEMPTS as nat, verdicts, last);
    let rest = verdicts.skip(last as int);
    assert(rest[0] == verdicts[last as int]);
    assert(rest[0] is Transient);
    assert forall|n: int| 0 <= n < MAX_ATTEMPTS implies (#[trigger] run(
        MAX_ATTEMPTS as nat,
        verdicts.take(n),
    )).outcome is None by {
        let seen = verdicts.take(n);
        assert forall|i: int| 0 <= i < seen.len() implies seen[i] is Transient by {
            assert(seen[i] == verdicts[i]);
        }
        lemma_transient_goes_on(MAX_ATTEMPTS as nat, seen);
    }
}

/// A verdict that is not transient ends the fetch at once: after `k`
/// transient failures, with the budget not yet spent, the fetch is over
/// with attempt `k + 1` and returns what that attempt settled.
pub proof fn lemma_settling_verdict_ends_fetch(verdicts: Seq<Verdict>, k: nat)
    requires
        k < verdicts.len(),
        k < MAX_ATTEMPTS,
        transient_until(verdicts, k),
        !(verdicts[k as int] is Transient),
    ensures
        run(MAX_ATTEMPTS as nat, verdicts).attempts == k + 1,
        run(MAX_ATTEMPTS as nat, verdicts).outcome == match verdicts[k as int] {
            Verdict::Page(text) => Some(Ok::<Seq<char>, FletcherError>(text)),
            Verdict::Fatal(e) => Some(Err::<Seq<char>, FletcherError>(e)),
            Verdict::Transient => None,
        },
{
    lemma_transient_prefix(MAX_ATTEMPTS as nat, verdicts, k);
    let rest = verdicts.skip(k as int);
    assert(rest[0] == verdicts[k as int]);
}

/// A response with status 429, 403 or 404 whose body decodes ends the
/// fetch at once, at whatever attempt it comes: the fetch fails with the
/// error of that status and makes no further attempt.
pub proof fn lemma_fatal_status_ends_fetch(attempts: Seq<Attempt>, k: nat, response: Response)
    requires
        k < attempts.len(),
        k < MAX_ATTEMPTS,
        transient_until(verdicts_of(attempts), k),
        attempts[k as int] == Attempt::Received(response),
        response.status == 429 || response.status == 403 || response.status == 404,
        response_text(response) is Ok,
    ensures
        run(MAX_ATTEMPTS as nat, verdicts_of(attempts)).attempts == k + 1,
        run(MAX_ATTEMPTS as nat, verdicts_of(attempts)).outcome == Some(
            Err::<Seq<char>, FletcherError>(fatal_status(response.status).unwrap()),
        ),
        response.status == 429 ==> fatal_status(response.status) == Some(
            FletcherError::RateLimitReached,
        ),
        response.status == 403 ==> fatal_status(response.status) == Some(FletcherError::Forbidden),
        response.status == 404 ==> fatal_status(response.status) == Some(FletcherError::NotFound),
{
    lemma_settling_verdict_ends_fetch(verdicts_of(attempts), k);
}

/// A response that declares a coding other than gzip, deflate and br ends
/// the fetch at once with `InvalidResponse`, whatever its status and body:
/// no further attempt is made.
pub proof fn lemma_unsupported_encoding_ends_fetch(
    attempts: Seq<Attempt>,
    k: nat,
    response: Response,
)
    requires
        k < attempts.len(),
        k < MAX_ATTEMPTS,
        transient_until(verdicts_of(attempts), k),
        attempts[k as int] == Attempt::Received(response),
        response.content_encoding matches Some(raw) && raw@ != gzip_tag() && raw@ != deflate_tag()
            && raw@ != brotli_tag(),
    ensures
        run(MAX_ATTEMPTS as nat, verdicts_of(attempts)).attempts == k + 1,
        run(MAX_ATTEMPTS as nat, verdicts_of(attempts)).outcome == Some(
            Err::<Seq<char>, FletcherError>(FletcherError::InvalidResponse),
        ),
{
    lemma_settling_verdict_ends_fetch(verdicts_of(attempts), k);
}

/// A fetch that succeeds returns the decoded body of the response that it
/// ended on, a response with a success status: the page is empty only
/// where that body is.
pub proof fn lemma_page_is_decoded_body(left: nat, attempts: Seq<Attempt>, page: Seq<char>)
    requires
        run(left, verdicts_of(attempts)).outcome == Some(Ok::<Seq<char>, FletcherError>(page)),
    ensures
        1 <= run(left, verdicts_of(attempts)).attempts <= attempts.len(),
        attempts[run(left, verdicts_of(attempts)).attempts - 1] matches Attempt::Received(response)
            && is_success(response.status) && response_text(response) == Ok::<
            Seq<char>,
            DecodeFailure,
        >(page),
    decreases attempts.len(),
{
    let verdicts = verdicts_of(attempts);
    if verdicts.len() > 0 {
        match next_step(left, verdicts[0]) {
            StepModel::Retry(rest) => {
                let later = attempts.drop_first();
                assert(verdicts_of(later) =~= verdicts.drop_first());
                lemma_page_is_decoded_body(rest, later, page);
                let n = run(rest, verdicts_of(later)).attempts;
                assert(later[n - 1] == attempts[n as int]);
            },
            _ => {},
        }
    }
}

} // verus!
