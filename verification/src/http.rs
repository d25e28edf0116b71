//! The decisions of the HTTP layer: which failures are retried, how long to
//! wait before a retry, how a request URL is formed and how a response
//! envelope is read.
//!
//! Task-creation endpoints are billed per submission, so a request that the
//! server may already have processed is never replayed unless its method is
//! idempotent; such a failure is reported as *indeterminate*. The sending,
//! sleeping and body reading happen in the caller, which hands each outcome
//! to [`decide_attempt`] and does what it answers.

use rand::Rng;
use vstd::prelude::*;
use vstd::string::*;

use crate::error::Error;
use crate::models::Envelope;
use crate::text::{
    chars_of, decimal, decimal_string, starts_with, str_starts_with, string_from_chars, trim_end,
    trim_end_chars, trim_start, trim_start_chars,
};
use vstd::utf8::{decode_utf8, valid_utf8};

verus! {

/// Appended to the message of every indeterminate failure.
pub const INDETERMINATE_HINT: &'static str = "the server may already have accepted this request, so it was not retried automatically; check your task list before resubmitting to avoid being billed twice";

/// Connection settings of the HTTP layer, with every default resolved.
#[derive(Debug, Clone)]
pub struct HttpConfig {
    pub base_url: String,
    pub api_key: String,
    /// Per-request timeout, in milliseconds.
    pub timeout_ms: u64,
    /// Extra attempts after the first one, for failures that may be retried.
    pub retries: u32,
    pub user_agent: String,
}

/// The request methods of HTTP.
#[derive(Debug, Clone, Copy, PartialEq, Eq, Structural)]
pub enum HttpMethod {
    Get,
    Head,
    Options,
    Post,
    Put,
    Patch,
    Delete,
    Connect,
    Trace,
    /// An extension method.
    Other,
}

/// Only `GET`, `HEAD` and `OPTIONS` are treated as safe to replay.
pub open spec fn idempotent(method: HttpMethod) -> bool {
    method is Get || method is Head || method is Options
}

pub fn is_idempotent_method(method: &HttpMethod) -> (b: bool)
    ensures
        b == idempotent(*method),
{
    match method {
        HttpMethod::Get | HttpMethod::Head | HttpMethod::Options => true,
        _ => false,
    }
}

/// What a failure tells about whether the server acted on the request.
#[derive(Debug, Clone, Copy, PartialEq, Eq, Structural)]
pub enum RetrySafety {
    /// Non-transient failure: never retry.
    Fatal,
    /// The request may or may not have been processed. Only idempotent
    /// methods may be retried.
    Unknown,
    /// The server provably never acted on the request, so a retry is safe
    /// regardless of method.
    Clean,
}

/// Whether a failure of the given safety may be retried.
pub open spec fn retry_allowed(safety: RetrySafety, idempotent: bool) -> bool {
    match safety {
        RetrySafety::Clean => true,
        RetrySafety::Unknown => idempotent,
        RetrySafety::Fatal => false,
    }
}

pub fn can_retry(safety: RetrySafety, idempotent: bool) -> (b: bool)
    ensures
        b == retry_allowed(safety, idempotent),
{
    match safety {
        RetrySafety::Clean => true,
        RetrySafety::Unknown => idempotent,
        RetrySafety::Fatal => false,
    }
}

/// Statuses where the server answered and said it declined to do the work.
pub open spec fn is_clean_retry_status(code: u16) -> bool {
    code == 429 || code == 503
}

/// Statuses where the server answered but whether it processed the request
/// is unknowable; a 504 in particular is often emitted by a proxy after the
/// origin already accepted the work.
pub open spec fn is_unknown_retry_status(code: u16) -> bool {
    code == 408 || code == 425 || code == 500 || code == 502 || code == 504
}

pub open spec fn status_safety(code: u16) -> RetrySafety {
    if is_clean_retry_status(code) {
        RetrySafety::Clean
    } else if is_unknown_retry_status(code) {
        RetrySafety::Unknown
    } else {
        RetrySafety::Fatal
    }
}

/// The safety of a non-success HTTP status.
pub fn classify_status(code: u16) -> (s: RetrySafety)
    ensures
        s == status_safety(code),
{
    if code == 429 || code == 503 {
        RetrySafety::Clean
    } else if code == 408 || code == 425 || code == 500 || code == 502 || code == 504 {
        RetrySafety::Unknown
    } else {
        RetrySafety::Fatal
    }
}

/// What the transport layer reports of a request that got no response.
#[derive(Debug, Clone, Copy, PartialEq, Eq, Structural)]
pub struct TransportFailure {
    /// Connecting failed: DNS failure, or a refused or unreachable peer.
    pub is_connect: bool,
    /// The request timed out.
    pub is_timeout: bool,
    /// Sending the request failed, e.g. the connection was reset mid-flight.
    pub is_request: bool,
    /// Sending or receiving a body failed.
    pub is_body: bool,
}

pub open spec fn transport_safety(f: TransportFailure) -> RetrySafety {
    if f.is_connect {
        RetrySafety::Clean
    } else if f.is_timeout || f.is_request || f.is_body {
        RetrySafety::Unknown
    } else {
        RetrySafety::Fatal
    }
}

/// How much a transport error tells about whether the request reached the
/// server's handler: a failed connection never delivered it; timeouts and
/// resets can land after the server has already read and acted on it.
pub fn classify_transport_err(e: &TransportFailure) -> (s: RetrySafety)
    ensures
        s == transport_safety(*e),
{
    if e.is_connect {
        return RetrySafety::Clean;
    }
    if e.is_timeout || e.is_request || e.is_body {
        return RetrySafety::Unknown;
    }
    RetrySafety::Fatal
}

/// The outcome of one attempt at sending a request.
#[derive(Debug, Clone, Copy, PartialEq, Eq, Structural)]
pub enum AttemptOutcome {
    /// A response arrived with this HTTP status.
    Status(u16),
    /// No response arrived.
    Transport(TransportFailure),
}

/// What to do after an attempt.
#[derive(Debug, Clone, Copy, PartialEq, Eq, Structural)]
pub enum AttemptDecision {
    /// Hand the response to the envelope parser, which tells an
    /// [`Error::Api`] from an [`Error::Request`] by the body's shape.
    Deliver,
    /// Wait for [`backoff`] of this attempt, then send again.
    Retry,
    /// Stop with an indeterminate [`Error::Request`] for this HTTP status
    /// (see [`indeterminate_status_error`]).
    FailIndeterminate,
    /// Stop with a network [`Error::Request`] (see [`transport_error`]).
    FailTransport { indeterminate: bool },
}

pub open spec fn is_success_status(code: u16) -> bool {
    200 <= code <= 299
}

/// Whether an HTTP status is a success (2xx).
pub fn is_success_code(code: u16) -> (b: bool)
    ensures
        b == is_success_status(code),
{
    200 <= code && code <= 299
}

pub open spec fn outcome_safety(outcome: AttemptOutcome) -> RetrySafety {
    match outcome {
        AttemptOutcome::Status(code) => status_safety(code),
        AttemptOutcome::Transport(f) => transport_safety(f),
    }
}

/// The decision after attempt number `attempt` (counting from 1) out of
/// `total` allowed attempts ended with `outcome`.
pub open spec fn attempt_decision(attempt: int, total: int, idempotent: bool, outcome: AttemptOutcome) -> AttemptDecision {
    let retry = retry_allowed(outcome_safety(outcome), idempotent) && attempt < total;
    let unknown_write = outcome_safety(outcome) == RetrySafety::Unknown && !idempotent;
    match outcome {
        AttemptOutcome::Status(code) => {
            if is_success_status(code) {
                AttemptDecision::Deliver
            } else if retry {
                AttemptDecision::Retry
            } else if unknown_write {
                AttemptDecision::FailIndeterminate
            } else {
                AttemptDecision::Deliver
            }
        },
        AttemptOutcome::Transport(_) => {
            if retry {
                AttemptDecision::Retry
            } else {
                AttemptDecision::FailTransport { indeterminate: unknown_write }
            }
        },
    }
}

/// The number of attempts a request gets: the per-request retry count, else
/// the configured one, plus the first attempt.
pub fn total_attempts(request_retries: Option<u32>, configured_retries: u32) -> (t: u64)
    ensures
        t == match request_retries {
            Some(r) => r as int,
            None => configured_retries as int,
        } + 1,
{
    match request_retries {
        Some(r) => r as u64 + 1,
        None => configured_retries as u64 + 1,
    }
}

/// Decides what follows attempt number `attempt` (counting from 1) out of
/// `total_attempts`, for a request whose method is `idempotent` or not.
pub fn decide_attempt(attempt: u32, total_attempts: u64, idempotent: bool, outcome: &AttemptOutcome) -> (d: AttemptDecision)
    ensures
        d == attempt_decision(attempt as int, total_attempts as int, idempotent, *outcome),
{
    match outcome {
        AttemptOutcome::Status(code) => {
            if is_success_code(*code) {
                return AttemptDecision::Deliver;
            }
            let safety = classify_status(*code);
            if can_retry(safety, idempotent) && (attempt as u64) < total_attempts {
                return AttemptDecision::Retry;
            }
            if safety == RetrySafety::Unknown && !idempotent {
                return AttemptDecision::FailIndeterminate;
            }
            AttemptDecision::Deliver
        },
        AttemptOutcome::Transport(f) => {
            let safety = classify_transport_err(f);
            if can_retry(safety, idempotent) && (attempt as u64) < total_attempts {
                return AttemptDecision::Retry;
            }
            AttemptDecision::FailTransport {
                indeterminate: safety == RetrySafety::Unknown && !idempotent,
            }
        },
    }
}


/// The number of times a request is sent when attempt number `k` (from 1)
/// ends with `outcomes[k - 1]` and every decision follows
/// [`attempt_decision`], once `attempt` sends have been made. Sending stops
/// at a decision other than [`AttemptDecision::Retry`], or when `outcomes`
/// runs out.
pub open spec fn sends_made(total: int, idempotent: bool, outcomes: Seq<AttemptOutcome>, attempt: int) -> int
    decreases outcomes.len() - attempt,
{
    if 1 <= attempt < outcomes.len()
        && attempt_decision(attempt, total, idempotent, outcomes[attempt - 1]) is Retry {
        sends_made(total, idempotent, outcomes, attempt + 1)
    } else {
        attempt
    }
}

/// An outcome that is a failure the client may retry for this method.
pub open spec fn retryable_failure(outcome: AttemptOutcome, idempotent: bool) -> bool {
    &&& !(outcome matches AttemptOutcome::Status(code) && is_success_status(code))
    &&& retry_allowed(outcome_safety(outcome), idempotent)
}

proof fn sends_made_bounded(total: int, idempotent: bool, outcomes: Seq<AttemptOutcome>, attempt: int)
    requires
        1 <= attempt <= total,
    ensures
        attempt <= sends_made(total, idempotent, outcomes, attempt) <= total,
    decreases outcomes.len() - attempt,
{
    if 1 <= attempt < outcomes.len()
        && attempt_decision(attempt, total, idempotent, outcomes[attempt - 1]) is Retry {
        sends_made_bounded(total, idempotent, outcomes, attempt + 1);
    }
}

proof fn sends_made_exhausts(total: int, idempotent: bool, outcomes: Seq<AttemptOutcome>, attempt: int)
    requires
        1 <= attempt <= total,
        total <= outcomes.len(),
        forall|k: int| attempt - 1 <= k < total - 1 ==> retryable_failure(#[trigger] outcomes[k], idempotent),
    ensures
        sends_made(total, idempotent, outcomes, attempt) == total,
    decreases total - attempt,
{
    if attempt < total {
        assert(retryable_failure(outcomes[attempt - 1], idempotent));
        sends_made_exhausts(total, idempotent, outcomes, attempt + 1);
    }
}

/// A request is sent at most as many times as it has attempts: whatever the
/// server answers, retries never exceed the budget.
pub proof fn retries_stay_within_budget(total: int, idempotent: bool, outcomes: Seq<AttemptOutcome>)
    requires
        1 <= total,
    ensures
        1 <= sends_made(total, idempotent, outcomes, 1) <= total,
{
    sends_made_bounded(total, idempotent, outcomes, 1);
}

/// A request that is not idempotent is never replayed once the server may
/// have processed it: after an attempt whose failure leaves that open, the
/// client stops and reports the failure as indeterminate.
pub proof fn uncertain_writes_are_never_replayed(attempt: int, total: int, outcome: AttemptOutcome)
    requires
        outcome_safety(outcome) == RetrySafety::Unknown,
    ensures
        outcome is Status ==> attempt_decision(attempt, total, false, outcome) == AttemptDecision::FailIndeterminate,
        outcome is Transport ==> attempt_decision(attempt, total, false, outcome) == (AttemptDecision::FailTransport { indeterminate: true }),
{
}

/// In particular, a billable request whose first attempt may have landed is
/// sent exactly once.
pub proof fn uncertain_first_write_is_sent_once(total: int, outcomes: Seq<AttemptOutcome>)
    requires
        outcomes.len() >= 1,
        outcome_safety(outcomes[0]) == RetrySafety::Unknown,
    ensures
        sends_made(total, false, outcomes, 1) == 1,
{
}

/// While the server keeps failing in a way that may be retried for the
/// request's method (it declined the work outright, or the request is
/// idempotent and its fate is unknown), the client uses every attempt.
pub proof fn retryable_failures_use_every_attempt(total: int, idempotent: bool, outcomes: Seq<AttemptOutcome>)
    requires
        1 <= total <= outcomes.len(),
        forall|k: int| 0 <= k < total - 1 ==> retryable_failure(#[trigger] outcomes[k], idempotent),
    ensures
        sends_made(total, idempotent, outcomes, 1) == total,
{
    sends_made_exhausts(total, idempotent, outcomes, 1);
}

/// An idempotent request is never reported as indeterminate.
pub proof fn reads_are_never_indeterminate(attempt: int, total: int, outcome: AttemptOutcome)
    ensures
        attempt_decision(attempt, total, true, outcome) != AttemptDecision::FailIndeterminate,
        attempt_decision(attempt, total, true, outcome) != (AttemptDecision::FailTransport { indeterminate: true }),
{
}

/// A successful response is always handed on, never retried.
pub proof fn success_is_delivered(attempt: int, total: int, idempotent: bool, code: u16)
    requires
        is_success_status(code),
    ensures
        attempt_decision(attempt, total, idempotent, AttemptOutcome::Status(code)) == AttemptDecision::Deliver,
{
}


/// A transport failure classifies by what it says of delivery: a failed
/// connection never reached the server and may be retried for any method; a
/// timeout, a failed send or a failed body transfer that got past connecting
/// may have landed, so a request that is not idempotent is then sent no more
/// and fails as indeterminate, at any attempt; any other failure is never
/// retried.
pub proof fn transport_failures_by_delivery(f: TransportFailure, attempt: int, total: int, idempotent: bool)
    ensures
        f.is_connect ==> transport_safety(f) == RetrySafety::Clean,
        f.is_connect && attempt < total ==> attempt_decision(
            attempt,
            total,
            idempotent,
            AttemptOutcome::Transport(f),
        ) == AttemptDecision::Retry,
        !f.is_connect && (f.is_timeout || f.is_request || f.is_body) ==> transport_safety(f)
            == RetrySafety::Unknown,
        !f.is_connect && (f.is_timeout || f.is_request || f.is_body) ==> attempt_decision(
            attempt,
            total,
            false,
            AttemptOutcome::Transport(f),
        ) == (AttemptDecision::FailTransport { indeterminate: true }),
        !f.is_connect && !f.is_timeout && !f.is_request && !f.is_body ==> transport_safety(f)
            == RetrySafety::Fatal,
        !f.is_connect && !f.is_timeout && !f.is_request && !f.is_body ==> attempt_decision(
            attempt,
            total,
            idempotent,
            AttemptOutcome::Transport(f),
        ) == (AttemptDecision::FailTransport { indeterminate: false }),
{
}

/// The success statuses are the 2xx range. Only 429 and 503 say the server declined the work, and only 408, 425, 500,
/// 502 and 504 leave open whether it did it; every other failing status is
/// final, and its response is handed on to the envelope parser at once,
/// whatever the method and however many attempts remain.
pub proof fn only_listed_statuses_are_retried(code: u16, attempt: int, total: int, idempotent: bool)
    ensures
        is_success_status(code) <==> 200 <= code < 300,
        status_safety(code) == RetrySafety::Clean <==> (code == 429 || code == 503),
        status_safety(code) == RetrySafety::Unknown <==> (code == 408 || code == 425 || code == 500
            || code == 502 || code == 504),
        !(code == 429 || code == 503 || code == 408 || code == 425 || code == 500 || code == 502
            || code == 504) ==> status_safety(code) == RetrySafety::Fatal && attempt_decision(
            attempt,
            total,
            idempotent,
            AttemptOutcome::Status(code),
        ) == AttemptDecision::Deliver,
{
}

/// `2` to the power `e`.
pub open spec fn doubling(e: nat) -> nat
    decreases e,
{
    if e == 0 { 1 } else { 2 * doubling((e - 1) as nat) }
}

proof fn doubling_at_least_eight(e: nat)
    requires
        e >= 3,
    ensures
        doubling(e) >= 8,
    decreases e,
{
    if e > 3 {
        doubling_at_least_eight((e - 1) as nat);
    } else {
        assert(doubling(3) == 8) by {
            assert(doubling(0) == 1);
            assert(doubling(1) == 2);
            assert(doubling(2) == 4);
        }
    }
}

/// The exponential part of the delay before retrying after attempt number
/// `attempt`: one second, doubled for each earlier retry, capped at eight.
pub open spec fn base_delay_ms(attempt: u32) -> int {
    let e: nat = if attempt == 0 { 0 } else { (attempt - 1) as nat };
    if 1000 * doubling(e) < 8000 { (1000 * doubling(e)) as int } else { 8000 }
}

/// The delay, in milliseconds, before retrying after attempt number
/// `attempt`: the server's `Retry-After` (in milliseconds) capped at thirty
/// seconds when it sent one, else [`base_delay_ms`] plus `jitter_ms`.
pub open spec fn retry_delay_ms(attempt: u32, retry_after_ms: Option<u64>, jitter_ms: u64) -> int {
    match retry_after_ms {
        Some(r) => if r < 30000 { r as int } else { 30000 },
        None => base_delay_ms(attempt) + jitter_ms,
    }
}

/// [`retry_delay_ms`] for a given jitter.
pub fn delay_ms(attempt: u32, retry_after_ms: Option<u64>, jitter_ms: u64) -> (ms: u64)
    requires
        jitter_ms < 250,
    ensures
        ms == retry_delay_ms(attempt, retry_after_ms, jitter_ms),
{
    if let Some(r) = retry_after_ms {
        return if r < 30000 { r } else { 30000 };
    }
    let e: u32 = attempt.saturating_sub(1);
    let base: u64 = if e == 0 {
        1000
    } else if e == 1 {
        2000
    } else if e == 2 {
        4000
    } else {
        8000
    };
    proof {
        let en: nat = e as nat;
        assert(doubling(0) == 1);
        assert(doubling(1) == 2);
        assert(doubling(2) == 4);
        if en >= 3 {
            doubling_at_least_eight(en);
        }
    }
    base + jitter_ms
}

/// `rand::thread_rng().gen_range(0..250)`: the crate documents `gen_range`
/// as returning a value drawn from the half-open range it is given, so the
/// result is below 250; which value comes back is left to chance.
/// `thread_rng` panics only when the operating system's random source cannot
/// seed it, which no argument decides.
#[verifier::external_body]
fn random_jitter_ms() -> (j: u64)
    ensures
        j < 250,
{
    rand::thread_rng().gen_range(0..250)
}

/// The delay, in milliseconds, before retrying after attempt number
/// `attempt`, honouring the server's `Retry-After` when it sent one and
/// otherwise backing off exponentially with a random jitter below 250 ms.
pub fn backoff(attempt: u32, retry_after_ms: Option<u64>) -> (ms: u64)
    ensures
        exists|j: u64| j < 250 && ms == retry_delay_ms(attempt, retry_after_ms, j),
{
    let jitter = random_jitter_ms();
    delay_ms(attempt, retry_after_ms, jitter)
}

/// A delay never exceeds thirty seconds with `Retry-After`, nor eight and a
/// quarter seconds without it.
pub proof fn retry_delays_are_capped(attempt: u32, retry_after_ms: Option<u64>, jitter_ms: u64)
    requires
        jitter_ms < 250,
    ensures
        retry_after_ms is Some ==> retry_delay_ms(attempt, retry_after_ms, jitter_ms) <= 30000,
        retry_after_ms is None ==> 1000 <= retry_delay_ms(attempt, retry_after_ms, jitter_ms) < 8250,
{
    let e: nat = if attempt == 0 { 0 } else { (attempt - 1) as nat };
    doubling_positive(e);
}

proof fn doubling_positive(e: nat)
    ensures
        doubling(e) >= 1,
    decreases e,
{
    if e > 0 {
        doubling_positive((e - 1) as nat);
    }
}

/// Without `Retry-After`, a later attempt never waits less (before jitter)
/// than an earlier one.
pub proof fn base_delay_never_shrinks(a: u32, b: u32)
    requires
        a <= b,
    ensures
        base_delay_ms(a) <= base_delay_ms(b),
{
    let ea: nat = if a == 0 { 0 } else { (a - 1) as nat };
    let eb: nat = if b == 0 { 0 } else { (b - 1) as nat };
    doubling_monotone(ea, eb);
}

proof fn doubling_monotone(a: nat, b: nat)
    requires
        a <= b,
    ensures
        doubling(a) <= doubling(b),
    decreases b,
{
    if a < b {
        doubling_monotone(a, (b - 1) as nat);
        doubling_positive((b - 1) as nat);
    }
}


/// An absolute `http://` or `https://` URL.
pub open spec fn is_absolute_url(path: Seq<char>) -> bool {
    starts_with(path, "http://"@) || starts_with(path, "https://"@)
}

/// The URL a request for `path` goes to: an absolute URL as it is, else the
/// base URL and the path joined by exactly one `/`.
pub open spec fn request_url(base_url: Seq<char>, path: Seq<char>) -> Seq<char> {
    if is_absolute_url(path) {
        path
    } else {
        trim_end(base_url, '/') + seq!['/'] + trim_start(path, '/')
    }
}

impl HttpConfig {
    /// The URL a request for `path` goes to.
    pub fn url(&self, path: &str) -> (u: String)
        ensures
            u@ == request_url(self.base_url@, path@),
    {
        if str_starts_with(path, "http://") || str_starts_with(path, "https://") {
            path.to_owned()
        } else {
            let mut joined = trim_end_chars(&chars_of(self.base_url.as_str()), '/');
            joined.push('/');
            let mut rest = trim_start_chars(&chars_of(path), '/');
            joined.append(&mut rest);
            string_from_chars(joined.as_slice())
        }
    }
}

/// `"; "` and [`INDETERMINATE_HINT`] when `indeterminate`, else nothing.
pub open spec fn hint_suffix(indeterminate: bool) -> Seq<char> {
    if indeterminate {
        "; "@ + INDETERMINATE_HINT@
    } else {
        Seq::empty()
    }
}

fn push_hint(message: &mut String, indeterminate: bool)
    ensures
        final(message)@ == old(message)@ + hint_suffix(indeterminate),
{
    if indeterminate {
        message.append("; ");
        message.append(INDETERMINATE_HINT);
    } else {
        assert(old(message)@ + hint_suffix(indeterminate) =~= old(message)@);
    }
}

/// The failure of a request that got no response; `detail` describes the
/// transport error.
pub fn transport_error(detail: &str, indeterminate: bool) -> (e: Error)
    ensures
        e matches Error::Request { message, status, body, indeterminate: ind } && message@
            == "network error: "@ + detail@ + hint_suffix(indeterminate) && status is None
            && body is None && ind == indeterminate,
{
    let mut message = String::from_str("network error: ");
    message.append(detail);
    push_hint(&mut message, indeterminate);
    Error::Request { message, status: None, body: None, indeterminate }
}

/// The failure of a request that is not idempotent, answered with a status
/// that leaves open whether the server acted on it; `body` is the response
/// text, if it could be read.
pub fn indeterminate_status_error(code: u16, body: Option<String>) -> (e: Error)
    ensures
        e matches Error::Request { message, status, body: b, indeterminate } && message@
            == "HTTP "@ + decimal(code as nat) + hint_suffix(true) && status == Some(code)
            && b == body && indeterminate,
{
    let mut message = String::from_str("HTTP ");
    let digits = decimal_string(code as u64);
    message.append(digits.as_str());
    push_hint(&mut message, true);
    Error::Request { message, status: Some(code), body, indeterminate: true }
}

/// The failure to read a response body; `detail` describes the read error.
/// The server has answered, so it has done the work: for a request that is
/// not idempotent the failure is indeterminate.
pub fn body_read_error(detail: &str, status: Option<u16>, idempotent: bool) -> (e: Error)
    ensures
        e matches Error::Request { message, status: s, body, indeterminate } && message@
            == "failed to read response body: "@ + detail@ + hint_suffix(!idempotent) && s
            == status && body is None && indeterminate == !idempotent,
{
    let mut message = String::from_str("failed to read response body: ");
    message.append(detail);
    push_hint(&mut message, !idempotent);
    Error::Request { message, status, body: None, indeterminate: !idempotent }
}

/// The failure of a download answered with a non-success status.
pub fn download_status_error(code: u16, body: Option<String>) -> (e: Error)
    ensures
        e matches Error::Request { message, status, body: b, indeterminate } && message@
            == "download failed with HTTP "@ + decimal(code as nat) && status == Some(code)
            && b == body && !indeterminate,
{
    let mut message = String::from_str("download failed with HTTP ");
    let digits = decimal_string(code as u64);
    message.append(digits.as_str());
    Error::Request { message, status: Some(code), body, indeterminate: false }
}

/// The failure to set up the HTTP client; `detail` describes the cause.
pub fn client_build_error(detail: &str) -> (e: Error)
    ensures
        e matches Error::Request { message, status, body, indeterminate } && message@
            == "failed to build HTTP client: "@ + detail@ && status is None && body is None
            && !indeterminate,
{
    let mut message = String::from_str("failed to build HTTP client: ");
    message.append(detail);
    Error::Request { message, status: None, body: None, indeterminate: false }
}

/// What `String::from_utf8_lossy` makes of a byte sequence.
pub uninterp spec fn utf8_lossy(bytes: Seq<u8>) -> Seq<char>;

/// `String::from_utf8_lossy`, owned: the characters of `bytes` read as UTF-8,
/// which the standard library documents to be exactly the decoded text when
/// `bytes` is valid UTF-8; invalid sequences become U+FFFD, which is not
/// stated here.
#[verifier::external_body]
fn lossy_text(bytes: &[u8]) -> (s: String)
    ensures
        s@ == utf8_lossy(bytes@),
        valid_utf8(bytes@) ==> s@ == decode_utf8(bytes@),
{
    String::from_utf8_lossy(bytes).into_owned()
}

/// What a response body yields: `parsed` is the body decoded as an
/// [`Envelope`], or the decoder's description of why it could not be. An
/// empty body, an undecodable body or an envelope without `data` is an
/// [`Error::Request`]; a non-zero `code` is an [`Error::Api`]; otherwise the
/// envelope's `data`.
pub fn parse_envelope<T>(bytes: &[u8], parsed: Result<Envelope<T>, String>, status: Option<u16>) -> (r: Result<T, Error>)
    ensures
        bytes@.len() == 0 ==> (r matches Err(Error::Request { message, status: s, body, indeterminate })
            && message@ == "empty response body"@ && s == status && body is None && !indeterminate),
        bytes@.len() > 0 ==> match parsed {
            Err(detail) => r matches Err(Error::Request { message, status: s, body, indeterminate })
                && message@ == "malformed response: "@ + detail@ && s == status
                && body is Some && body->0@ == utf8_lossy(bytes@) && !indeterminate,
            Ok(env) => if env.code != 0 {
                r == Err::<T, Error>(Error::Api {
                    code: env.code,
                    message: env.message,
                    suggestion: env.suggestion,
                    status,
                })
            } else {
                match env.data {
                    Some(d) => r == Ok::<T, Error>(d),
                    None => r matches Err(Error::Request { message, status: s, body, indeterminate })
                        && message@ == "response envelope had code=0 but no `data` field"@
                        && s == status && body is None && !indeterminate,
                }
            },
        },
{
    if bytes.len() == 0 {
        return Err(Error::Request {
            message: String::from_str("empty response body"),
            status,
            body: None,
            indeterminate: false,
        });
    }
    let envelope = match parsed {
        Ok(env) => env,
        Err(detail) => {
            let mut message = String::from_str("malformed response: ");
            message.append(detail.as_str());
            return Err(Error::Request {
                message,
                status,
                body: Some(lossy_text(bytes)),
                indeterminate: false,
            });
        },
    };
    if envelope.code != 0 {
        return Err(Error::Api {
            code: envelope.code,
            message: envelope.message,
            suggestion: envelope.suggestion,
            status,
        });
    }
    match envelope.data {
        Some(d) => Ok(d),
        None => Err(Error::Request {
            message: String::from_str("response envelope had code=0 but no `data` field"),
            status,
            body: None,
            indeterminate: false,
        }),
    }
}

} // verus!
