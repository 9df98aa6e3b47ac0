//! The retry policy of remote calls, as a decision for each attempt.
//!
//! The caller sends the request, reports what came of it, and does what the
//! policy says: hand out the body, fail, or wait and, if attempts are left,
//! send again.

use vstd::prelude::*;
use crate::text::{concat, decimal, usize_to_string};

verus! {

/// How many times a request is sent at most.
pub const MAX_RETRIES: u32 = 3;

/// How long a request may take, in seconds.
pub const REQUEST_TIMEOUT_SECS: u64 = 30;

/// What came of sending a request once.
#[derive(Debug, Clone)]
pub enum HttpOutcome {
    /// A response arrived, with this status and body.
    Response { status: u16, body: String },
    /// No response arrived; the text says why.
    Failure(String),
}

/// The content of an [`HttpOutcome`].
pub ghost enum HttpOutcomeView {
    Response { status: u16, body: Seq<char> },
    Failure(Seq<char>),
}

impl View for HttpOutcome {
    type V = HttpOutcomeView;

    open spec fn view(&self) -> HttpOutcomeView {
        match self {
            HttpOutcome::Response { status, body } => HttpOutcomeView::Response {
                status: *status,
                body: body@,
            },
            HttpOutcome::Failure(why) => HttpOutcomeView::Failure(why@),
        }
    }
}

impl DeepView for HttpOutcome {
    type V = HttpOutcomeView;

    open spec fn deep_view(&self) -> HttpOutcomeView {
        self@
    }
}

/// What to do after an attempt.
#[derive(Debug, Clone)]
pub enum RetryAction {
    /// The call succeeded; this is the body.
    Succeed(String),
    /// The call failed and is not tried again.
    Fail(String),
    /// Wait this many seconds, then send again.
    Retry { wait_secs: u64 },
    /// Wait this many seconds, then fail: the attempts are used up.
    GiveUp { wait_secs: u64, message: String },
}

/// The content of a [`RetryAction`].
pub ghost enum RetryActionView {
    Succeed(Seq<char>),
    Fail(Seq<char>),
    Retry { wait_secs: nat },
    GiveUp { wait_secs: nat, message: Seq<char> },
}

impl View for RetryAction {
    type V = RetryActionView;

    open spec fn view(&self) -> RetryActionView {
        match self {
            RetryAction::Succeed(body) => RetryActionView::Succeed(body@),
            RetryAction::Fail(message) => RetryActionView::Fail(message@),
            RetryAction::Retry { wait_secs } => RetryActionView::Retry {
                wait_secs: *wait_secs as nat,
            },
            RetryAction::GiveUp { wait_secs, message } => RetryActionView::GiveUp {
                wait_secs: *wait_secs as nat,
                message: message@,
            },
        }
    }
}

/// Whether a status reports success.
pub open spec fn is_success(status: u16) -> bool {
    200 <= status <= 299
}

/// Whether a status reports a fault of the server.
pub open spec fn is_server_error(status: u16) -> bool {
    500 <= status <= 599
}

/// The status that reports too many requests.
pub const TOO_MANY_REQUESTS: u16 = 429;

/// Two to the power of `n`.
pub open spec fn two_to(n: nat) -> nat
    decreases n,
{
    if n == 0 {
        1
    } else {
        2 * two_to((n - 1) as nat)
    }
}

/// Whether an outcome is worth another attempt: a rate limit, a fault of
/// the server, or no response at all.
pub open spec fn is_retryable(outcome: HttpOutcomeView) -> bool {
    match outcome {
        HttpOutcomeView::Response { status, body } => !is_success(status) && (status
            == TOO_MANY_REQUESTS || is_server_error(status)),
        HttpOutcomeView::Failure(_) => true,
    }
}

/// How long to wait after attempt `attempt` ended in a retryable outcome:
/// a rate limit doubles the wait with every attempt, anything else waits one
/// second.
pub open spec fn wait_after(attempt: nat, outcome: HttpOutcomeView) -> nat {
    match outcome {
        HttpOutcomeView::Response { status, body } => if status == TOO_MANY_REQUESTS {
            two_to(attempt)
        } else {
            1
        },
        HttpOutcomeView::Failure(_) => 1,
    }
}

/// What a retryable outcome is remembered as.
pub open spec fn error_of(outcome: HttpOutcomeView) -> Seq<char> {
    match outcome {
        HttpOutcomeView::Response { status, body } => if status == TOO_MANY_REQUESTS {
            "Rate limited (429)"@
        } else {
            "Server error ("@ + decimal(status as nat) + ")"@
        },
        HttpOutcomeView::Failure(why) => why,
    }
}

/// The message of a call that failed on a status that is not retried.
pub open spec fn rejection_message(status: u16, body: Seq<char>) -> Seq<char> {
    "HTTP error "@ + decimal(status as nat) + ": "@ + body
}

/// The message of a call whose attempts are used up.
pub open spec fn exhausted_message(last_error: Seq<char>) -> Seq<char> {
    "Request failed after 3 retries: "@ + last_error
}

/// The decision after attempt `attempt`, counted from 1.
pub open spec fn action_for(attempt: nat, outcome: HttpOutcomeView) -> RetryActionView {
    if is_retryable(outcome) {
        if attempt < MAX_RETRIES {
            RetryActionView::Retry { wait_secs: wait_after(attempt, outcome) }
        } else {
            RetryActionView::GiveUp {
                wait_secs: wait_after(attempt, outcome),
                message: exhausted_message(error_of(outcome)),
            }
        }
    } else {
        match outcome {
            HttpOutcomeView::Response { status, body } => if is_success(status) {
                RetryActionView::Succeed(body)
            } else {
                RetryActionView::Fail(rejection_message(status, body))
            },
            HttpOutcomeView::Failure(why) => RetryActionView::Fail(why),
        }
    }
}

fn backoff(attempt: u32) -> (r: u64)
    requires
        attempt <= MAX_RETRIES,
    ensures
        r == two_to(attempt as nat),
{
    let mut r: u64 = 1;
    let mut i: u32 = 0;
    while i < attempt
        invariant
            i <= attempt <= MAX_RETRIES,
            r == two_to(i as nat),
            r <= 8,
        decreases attempt - i,
    {
        proof {
            reveal_with_fuel(two_to, 5);
        }
        r = r * 2;
        i += 1;
    }
    r
}

fn error_text(outcome: &HttpOutcome) -> (r: String)
    ensures
        r@ == error_of(outcome@),
{
    match outcome {
        HttpOutcome::Response { status, body } => {
            if *status == TOO_MANY_REQUESTS {
                String::from_str("Rate limited (429)")
            } else {
                let number = usize_to_string(*status as usize);
                let head = concat("Server error (", number.as_str());
                concat(head.as_str(), ")")
            }
        },
        HttpOutcome::Failure(why) => why.clone(),
    }
}

/// Decides what to do after attempt `attempt` of a request ended in
/// `outcome`.
///
/// A success hands out the body. A rate limit, a fault of the server and a
/// missing response are retried after a wait, until the attempts are used
/// up; then the call fails with the last error. Any other status fails at
/// once.
pub fn next_action(attempt: u32, outcome: &HttpOutcome) -> (r: RetryAction)
    requires
        1 <= attempt <= MAX_RETRIES,
    ensures
        r@ == action_for(attempt as nat, outcome@),
{
    let retryable = match outcome {
        HttpOutcome::Response { status, body } => !(200 <= *status && *status <= 299) && (*status
            == TOO_MANY_REQUESTS || (500 <= *status && *status <= 599)),
        HttpOutcome::Failure(_) => true,
    };
    if retryable {
        let wait_secs = match outcome {
            HttpOutcome::Response { status, body } => if *status == TOO_MANY_REQUESTS {
                backoff(attempt)
            } else {
                1
            },
            HttpOutcome::Failure(_) => 1,
        };
        if attempt < MAX_RETRIES {
            RetryAction::Retry { wait_secs }
        } else {
            let last = error_text(outcome);
            RetryAction::GiveUp {
                wait_secs,
                message: concat("Request failed after 3 retries: ", last.as_str()),
            }
        }
    } else {
        match outcome {
            HttpOutcome::Response { status, body } => {
                if 200 <= *status && *status <= 299 {
                    RetryAction::Succeed(body.clone())
                } else {
                    let number = usize_to_string(*status as usize);
                    let head = concat("HTTP error ", number.as_str());
                    let with_colon = concat(head.as_str(), ": ");
                    RetryAction::Fail(concat(with_colon.as_str(), body.as_str()))
                }
            },
            HttpOutcome::Failure(why) => RetryAction::Fail(why.clone()),
        }
    }
}

/// What a whole call comes to when its attempts end in `outcomes`, one after
/// the other, the first being attempt `attempt`.
pub ghost struct CallView {
    /// How many requests were sent.
    pub attempts: nat,
    /// The seconds waited in all.
    pub waited_secs: nat,
    /// The body or the failure; nothing where the outcomes ran out before
    /// the call was decided.
    pub result: Option<Result<Seq<char>, Seq<char>>>,
}

/// The call that is decided by its outcomes, from attempt `attempt` on.
pub open spec fn replay(outcomes: Seq<HttpOutcomeView>, attempt: nat) -> CallView
    decreases outcomes.len(),
{
    if outcomes.len() == 0 {
        CallView { attempts: 0, waited_secs: 0, result: None }
    } else {
        match action_for(attempt, outcomes[0]) {
            RetryActionView::Succeed(body) => CallView {
                attempts: 1,
                waited_secs: 0,
                result: Some(Ok(body)),
            },
            RetryActionView::Fail(message) => CallView {
                attempts: 1,
                waited_secs: 0,
                result: Some(Err(message)),
            },
            RetryActionView::GiveUp { wait_secs, message } => CallView {
                attempts: 1,
                waited_secs: wait_secs,
                result: Some(Err(message)),
            },
            RetryActionView::Retry { wait_secs } => {
                let rest = replay(outcomes.skip(1), attempt + 1);
                CallView {
                    attempts: rest.attempts + 1,
                    waited_secs: rest.waited_secs + wait_secs,
                    result: rest.result,
                }
            },
        }
    }
}

/// A whole call: how many requests were sent, how long was waited, and how
/// it ended.
#[derive(Debug, Clone)]
pub struct Call {
    /// How many requests were sent.
    pub attempts: u32,
    /// The seconds waited in all.
    pub waited_secs: u64,
    /// The body or the failure; nothing where the outcomes ran out before
    /// the call was decided.
    pub result: Option<Result<String, String>>,
}

impl View for Call {
    type V = CallView;

    open spec fn view(&self) -> CallView {
        CallView {
            attempts: self.attempts as nat,
            waited_secs: self.waited_secs as nat,
            result: match self.result {
                Some(Ok(body)) => Some(Ok(body@)),
                Some(Err(message)) => Some(Err(message@)),
                None => None,
            },
        }
    }
}

/// A retried call never sends more than the ceiling allows, and a call that
/// was decided did not stop before it.
pub proof fn lemma_replay_bounded(outcomes: Seq<HttpOutcomeView>, attempt: nat)
    requires
        1 <= attempt <= MAX_RETRIES,
    ensures
        replay(outcomes, attempt).attempts <= MAX_RETRIES + 1 - attempt,
        replay(outcomes, attempt).attempts <= outcomes.len(),
        replay(outcomes, attempt).waited_secs <= 8 * replay(outcomes, attempt).attempts,
        replay(outcomes, attempt).result.is_none() ==> replay(outcomes, attempt).attempts
            == outcomes.len(),
    decreases outcomes.len(),
{
    reveal_with_fuel(two_to, 5);
    if outcomes.len() > 0 {
        if action_for(attempt, outcomes[0]) is Retry {
            lemma_replay_bounded(outcomes.skip(1), attempt + 1);
        }
    }
}

/// Plays a call through on given outcomes: the policy is applied to the
/// outcomes in turn, from the first attempt on, until it hands out a body or
/// fails. Outcomes after that are not looked at.
pub fn replay_call(outcomes: &Vec<HttpOutcome>) -> (r: Call)
    ensures
        r@ == replay(outcomes.deep_view(), 1),
{
    let ghost views = outcomes.deep_view();
    let mut attempts: u32 = 0;
    let mut waited_secs: u64 = 0;
    let mut i: usize = 0;
    assert(views.skip(0) =~= views);
    while i < outcomes.len()
        invariant
            i <= outcomes.len(),
            i == attempts,
            attempts < MAX_RETRIES,
            waited_secs <= 8 * attempts,
            views == outcomes.deep_view(),
            replay(views, 1) == (CallView {
                attempts: (replay(views.skip(i as int), (attempts + 1) as nat).attempts
                    + attempts) as nat,
                waited_secs: (replay(views.skip(i as int), (attempts + 1) as nat).waited_secs
                    + waited_secs) as nat,
                result: replay(views.skip(i as int), (attempts + 1) as nat).result,
            }),
        decreases outcomes.len() - i,
    {
        let ghost rest = views.skip(i as int);
        assert(rest[0] == outcomes@[i as int]@);
        assert(rest.skip(1) =~= views.skip(i + 1));
        proof {
            reveal_with_fuel(two_to, 5);
        }
        match next_action(attempts + 1, &outcomes[i]) {
            RetryAction::Succeed(body) => {
                return Call { attempts: attempts + 1, waited_secs, result: Some(Ok(body)) };
            },
            RetryAction::Fail(message) => {
                return Call { attempts: attempts + 1, waited_secs, result: Some(Err(message)) };
            },
            RetryAction::GiveUp { wait_secs, message } => {
                return Call {
                    attempts: attempts + 1,
                    waited_secs: waited_secs + wait_secs,
                    result: Some(Err(message)),
                };
            },
            RetryAction::Retry { wait_secs } => {
                waited_secs = waited_secs + wait_secs;
                attempts = attempts + 1;
                i += 1;
            },
        }
    }
    assert(views.skip(i as int).len() == 0);
    Call { attempts, waited_secs, result: None }
}

} // verus!
