use vstd::prelude::*;
use crate::error::CoreError;
use crate::json::{decode_body, is_json, json_value_of};
use crate::request::{Request, RequestView};

verus! {

/// How many times one logical call may be retried after its first attempt.
pub const MAX_RETRIES: u32 = 3;

/// What one attempt at the transport came back with.
#[derive(Debug)]
pub enum Attempt {
    /// The transport delivered a response with this status and body.
    Response { status: u16, body: Vec<u8> },
    /// The transport failed (connection error, timeout), with its message.
    TransportFailure(String),
}

/// What the caller does after an attempt.
#[derive(Debug)]
pub enum Decision {
    /// Wait this many seconds, then send the same request again.
    Retry { delay_secs: u64 },
    /// The call succeeded with this decoded body.
    Success(serde_json::Value),
    /// The call failed for good.
    Failure(CoreError),
}

pub open spec fn pow2(n: nat) -> nat
    decreases n,
{
    if n == 0 {
        1
    } else {
        2 * pow2((n - 1) as nat)
    }
}

pub open spec fn is_success(status: u16) -> bool {
    200 <= status <= 299
}

pub open spec fn is_server_error(status: u16) -> bool {
    500 <= status <= 599
}

/// Whether an outcome is transient: a transport failure or a server error.
pub open spec fn is_transient(a: Attempt) -> bool {
    match a {
        Attempt::Response { status, .. } => is_server_error(status),
        Attempt::TransportFailure(_) => true,
    }
}

/// The seconds to wait before retry number `n` (1, 2 or 3): 2 to the `n`.
pub fn backoff_secs(n: u32) -> (r: u64)
    requires
        1 <= n <= MAX_RETRIES,
    ensures
        r == pow2(n as nat),
{
    let mut d: u64 = 1;
    let mut i: u32 = 0;
    while i < n
        invariant
            i <= n <= MAX_RETRIES,
            d == pow2(i as nat),
            d <= 8,
        decreases n - i,
    {
        proof {
            reveal_with_fuel(pow2, 4);
        }
        d = d * 2;
        i = i + 1;
        assert(d == pow2(i as nat));
    }
    d
}

/// Runs one logical call: it holds the request, which never changes, and
/// counts the attempts made.
pub struct RetryEngine {
    request: Request,
    attempts: u32,
    finished: bool,
}

pub struct EngineView {
    pub request: RequestView,
    pub attempts: nat,
    pub finished: bool,
}

impl View for RetryEngine {
    type V = EngineView;

    closed spec fn view(&self) -> EngineView {
        EngineView {
            request: self.request@,
            attempts: self.attempts as nat,
            finished: self.finished,
        }
    }
}

impl RetryEngine {
    /// At most the first attempt and `MAX_RETRIES` retries are made; after
    /// the last one the call is over.
    pub open spec fn wf(&self) -> bool {
        &&& self@.attempts <= MAX_RETRIES + 1
        &&& self@.attempts == MAX_RETRIES + 1 ==> self@.finished
    }

    /// Starts a call of the given request, with no attempt made yet.
    pub fn new(request: Request) -> (r: RetryEngine)
        ensures
            r.wf(),
            r@ == (EngineView { request: request@, attempts: 0, finished: false }),
    {
        RetryEngine { request, attempts: 0, finished: false }
    }

    /// The request to send at every attempt.
    pub fn request(&self) -> (r: &Request)
        ensures
            r@ == self@.request,
    {
        &self.request
    }

    /// How many attempts have been recorded.
    pub fn attempts(&self) -> (r: u32)
        ensures
            r == self@.attempts,
    {
        self.attempts
    }

    /// Whether the call is over.
    pub fn is_finished(&self) -> (r: bool)
        ensures
            r == self@.finished,
    {
        self.finished
    }

    /// Records the outcome of an attempt and decides what comes next.
    /// A success status ends the call with the decoded body; a transient
    /// failure is retried while retries are left, after a delay of 2 to the
    /// number of the retry; anything else ends the call with its error.
    pub fn record(&mut self, attempt: Attempt) -> (d: Decision)
        requires
            old(self).wf(),
            !old(self)@.finished,
        ensures
            final(self).wf(),
            final(self)@.request == old(self)@.request,
            final(self)@.attempts == old(self)@.attempts + 1,
            final(self)@.finished <==> !(d is Retry),
            d is Retry <==> (is_transient(attempt) && old(self)@.attempts < MAX_RETRIES),
            d is Retry ==> d == (Decision::Retry { delay_secs: pow2(final(self)@.attempts) as u64 }),
            match attempt {
                Attempt::Response { status, body } => {
                    &&& is_success(status) ==> (d is Success <==> is_json(body@))
                    &&& (is_success(status) && is_json(body@)) ==> d == Decision::Success(
                        json_value_of(body@),
                    )
                    &&& (is_success(status) && !is_json(body@)) ==> d == Decision::Failure(
                        CoreError::Decode,
                    )
                    &&& (is_server_error(status) && old(self)@.attempts >= MAX_RETRIES) ==> d
                        == Decision::Failure(CoreError::Server(status))
                    &&& (!is_success(status) && !is_server_error(status)) ==> d
                        == Decision::Failure(CoreError::Client(status))
                },
                Attempt::TransportFailure(msg) => old(self)@.attempts >= MAX_RETRIES ==> d
                    == Decision::Failure(CoreError::Transport(msg)),
            },
    {
        self.attempts = self.attempts + 1;
        match attempt {
            Attempt::Response { status, body } => {
                if 200 <= status && status <= 299 {
                    self.finished = true;
                    match decode_body(body.as_slice()) {
                        Ok(v) => Decision::Success(v),
                        Err(e) => Decision::Failure(e),
                    }
                } else if 500 <= status && status <= 599 && self.attempts <= MAX_RETRIES {
                    Decision::Retry { delay_secs: backoff_secs(self.attempts) }
                } else if 500 <= status && status <= 599 {
                    self.finished = true;
                    Decision::Failure(CoreError::Server(status))
                } else {
                    self.finished = true;
                    Decision::Failure(CoreError::Client(status))
                }
            },
            Attempt::TransportFailure(msg) => {
                if self.attempts <= MAX_RETRIES {
                    Decision::Retry { delay_secs: backoff_secs(self.attempts) }
                } else {
                    self.finished = true;
                    Decision::Failure(CoreError::Transport(msg))
                }
            },
        }
    }
}

/// A call never makes more than the first attempt and `MAX_RETRIES`
/// retries: in a valid state at most four attempts are recorded, and once
/// four are, the call is over and records no more.
pub proof fn lemma_attempts_bounded(e: RetryEngine)
    requires
        e.wf(),
    ensures
        e@.attempts <= 4,
        !e@.finished ==> e@.attempts < 4,
{
}

} // verus!
