//! Retry classification: a pure mapping from an arbitrary backend failure and
//! a retry configuration to a structured retryable-or-fatal error. The facade
//! applies it at every I/O boundary; the retry decision itself belongs to the
//! caller.

use vstd::prelude::*;

use crate::domain::{BackendError, ChatCompletionMessage, ErrorKind};

verus! {

/// Immutable classification thresholds and retry hints, shared by every call
/// of one client.
pub struct RetryConfig {
    /// Suggested maximum number of attempts, forwarded as a hint.
    pub max_retry_attempts: u64,
    /// Suggested initial backoff in milliseconds, forwarded as a hint.
    pub initial_backoff_ms: u64,
    /// HTTP status codes that are classified as retryable.
    pub retry_status_codes: Vec<u16>,
}

impl View for RetryConfig {
    type V = (u64, u64, Seq<u16>);

    open spec fn view(&self) -> (u64, u64, Seq<u16>) {
        (self.max_retry_attempts, self.initial_backoff_ms, self.retry_status_codes@)
    }
}

impl Clone for RetryConfig {
    fn clone(&self) -> (r: Self)
        ensures
            r@ == self@,
    {
        let mut codes: Vec<u16> = Vec::new();
        let mut i: usize = 0;
        while i < self.retry_status_codes.len()
            invariant
                i <= self.retry_status_codes.len(),
                codes@ == self.retry_status_codes@.take(i as int),
            decreases self.retry_status_codes.len() - i,
        {
            codes.push(self.retry_status_codes[i]);
            i = i + 1;
            proof {
                assert(codes@ =~= self.retry_status_codes@.take(i as int));
            }
        }
        proof {
            assert(codes@ =~= self.retry_status_codes@);
        }
        RetryConfig {
            max_retry_attempts: self.max_retry_attempts,
            initial_backoff_ms: self.initial_backoff_ms,
            retry_status_codes: codes,
        }
    }
}

pub open spec fn default_retry_status_codes() -> Seq<u16> {
    seq![429u16, 500u16, 502u16, 503u16, 504u16]
}

impl Default for RetryConfig {
    fn default() -> (c: Self)
        ensures
            c.max_retry_attempts == 3,
            c.initial_backoff_ms == 200,
            c.retry_status_codes@ == default_retry_status_codes(),
    {
        let mut codes: Vec<u16> = Vec::new();
        codes.push(429);
        codes.push(500);
        codes.push(502);
        codes.push(503);
        codes.push(504);
        proof {
            assert(codes@ =~= default_retry_status_codes());
        }
        RetryConfig { max_retry_attempts: 3, initial_backoff_ms: 200, retry_status_codes: codes }
    }
}

/// A backend failure wrapped with its classification and retry hints; the
/// only error kind runtime operations return.
pub struct RetryableError {
    /// The original failure, preserved unchanged.
    pub cause: BackendError,
    /// Whether re-invoking the same operation may succeed.
    pub retryable: bool,
    /// Hint: suggested maximum number of attempts.
    pub max_attempts: u64,
    /// Hint: suggested initial backoff in milliseconds.
    pub backoff_ms: u64,
}

/// Whether a failure is classified as retryable: connection and timeout
/// failures always are; an HTTP error is retryable exactly when its status
/// code is among the configured codes; protocol and decoding failures are
/// fatal.
pub open spec fn spec_is_retryable(e: BackendError, codes: Seq<u16>) -> bool {
    match e.kind {
        ErrorKind::Network => true,
        ErrorKind::Timeout => true,
        ErrorKind::Http => match e.status {
            Some(s) => codes.contains(s),
            None => false,
        },
        ErrorKind::Protocol => false,
        ErrorKind::Decode => false,
    }
}

/// The full classification over a configuration view: cause preserved,
/// retryable bit as `spec_is_retryable`, hints copied from the configuration.
pub open spec fn spec_classify(e: BackendError, cfg: (u64, u64, Seq<u16>)) -> RetryableError {
    RetryableError {
        retryable: spec_is_retryable(e, cfg.2),
        max_attempts: cfg.0,
        backoff_ms: cfg.1,
        cause: e,
    }
}

fn status_is_listed(codes: &Vec<u16>, status: u16) -> (r: bool)
    ensures
        r == codes@.contains(status),
{
    let mut i: usize = 0;
    while i < codes.len()
        invariant
            i <= codes.len(),
            forall|j: int| 0 <= j < i ==> codes@[j] != status,
        decreases codes.len() - i,
    {
        if codes[i] == status {
            return true;
        }
        i = i + 1;
    }
    false
}

/// Classify one backend failure against the configuration. Pure: no I/O, no
/// side effects; safe to apply repeatedly.
pub fn into_retry(e: BackendError, cfg: &RetryConfig) -> (r: RetryableError)
    ensures
        r == spec_classify(e, cfg@),
{
    let retryable = match e.kind {
        ErrorKind::Network => true,
        ErrorKind::Timeout => true,
        ErrorKind::Http => match e.status {
            Some(s) => status_is_listed(&cfg.retry_status_codes, s),
            None => false,
        },
        ErrorKind::Protocol => false,
        ErrorKind::Decode => false,
    };
    RetryableError {
        retryable,
        max_attempts: cfg.max_retry_attempts,
        backoff_ms: cfg.initial_backoff_ms,
        cause: e,
    }
}

/// Classification of one streamed item: a successful message passes through
/// unchanged, a failed one is classified.
pub open spec fn spec_classify_item(
    item: Result<ChatCompletionMessage, BackendError>,
    cfg: (u64, u64, Seq<u16>),
) -> Result<ChatCompletionMessage, RetryableError> {
    match item {
        Ok(m) => Ok(m),
        Err(e) => Err(spec_classify(e, cfg)),
    }
}

/// Classify one item pulled from a chat stream. Pure, item by item: earlier
/// and later items are unaffected.
pub fn classify_item(
    item: Result<ChatCompletionMessage, BackendError>,
    cfg: &RetryConfig,
) -> (r: Result<ChatCompletionMessage, RetryableError>)
    ensures
        r == spec_classify_item(item, cfg@),
{
    match item {
        Ok(m) => Ok(m),
        Err(e) => Err(into_retry(e, cfg)),
    }
}

} // verus!
