use vstd::prelude::*;
use vstd::string::StringSliceAdditionalSpecFns;
use backoff::exponential::ExponentialBackoff;
use backoff::SystemClock;
use crate::error::Code;

verus! {

#[verifier::external_type_specification]
#[verifier::external_body]
#[verifier::reject_recursive_types(C)]
pub struct ExExponentialBackoff<C>(ExponentialBackoff<C>);

#[verifier::external_type_specification]
#[verifier::external_body]
pub struct ExSystemClock(SystemClock);

/// Relies on `backoff::backoff::Backoff::next_backoff` of
/// `ExponentialBackoff`: the next randomised delay, in milliseconds, or `None`
/// once its own elapsed-time budget is spent. It reads the clock and a random
/// number, so nothing is stated of the result.
#[verifier::external_body]
fn next_backoff_ms(b: &mut ExponentialBackoff<SystemClock>) -> (r: Option<u64>) {
    match backoff::backoff::Backoff::next_backoff(b) {
        Some(d) => Some(d.as_millis() as u64),
        None => None,
    }
}

/// The whole time, in milliseconds, that reaching a nested agent may take:
/// dialling, the calls, and the delays between them.
pub const MAX_ELAPSED_MS: u64 = 20000;

/// How one attempt to dial a nested agent, or to call it, went.
#[derive(Debug, Clone, Copy, PartialEq, Eq, Structural)]
pub enum AttemptOutcome {
    Succeeded,
    /// A failure that may go away: a connection error while dialling, or a
    /// transport error from the call.
    Transient,
    /// Any other failure, handed to the caller as it is.
    Permanent,
}

/// What to do after an attempt.
#[derive(Debug, Clone, Copy, PartialEq, Eq, Structural)]
pub enum RetryAction {
    /// The attempt succeeded.
    Done,
    /// The attempt failed for good.
    Fail,
    /// Wait this long, then try again.
    Retry { delay_ms: u64 },
    /// The time budget is spent: report the nested agent as unavailable.
    GiveUp,
}

/// After a transient failure that took `attempt_ms`, with `delay` offered by
/// the backoff: retry when the attempt and the delay fit in what is left of
/// the budget, and account for both; else give up.
pub open spec fn transient_step(elapsed: int, attempt_ms: int, delay: Option<u64>) -> (RetryAction, int) {
    match delay {
        Some(d) => if elapsed + attempt_ms + d <= MAX_ELAPSED_MS {
            (RetryAction::Retry { delay_ms: d }, elapsed + attempt_ms + d)
        } else {
            (RetryAction::GiveUp, elapsed)
        },
        None => (RetryAction::GiveUp, elapsed),
    }
}

/// The decision after one attempt, from the time accounted so far, the
/// attempt's outcome and duration, and the delay the backoff offers.
pub open spec fn step(elapsed: int, outcome: AttemptOutcome, attempt_ms: int, delay: Option<u64>) -> (
    RetryAction,
    int,
) {
    match outcome {
        AttemptOutcome::Succeeded => (RetryAction::Done, elapsed),
        AttemptOutcome::Permanent => (RetryAction::Fail, elapsed),
        AttemptOutcome::Transient => transient_step(elapsed, attempt_ms, delay),
    }
}

/// Decides what follows an attempt, and the time accounted after it.
pub fn next_action(elapsed_ms: u64, outcome: AttemptOutcome, attempt_ms: u64, delay: Option<u64>) -> (r: (
    RetryAction,
    u64,
))
    requires
        elapsed_ms <= MAX_ELAPSED_MS,
    ensures
        (r.0, r.1 as int) == step(elapsed_ms as int, outcome, attempt_ms as int, delay),
        r.1 <= MAX_ELAPSED_MS,
{
    match outcome {
        AttemptOutcome::Succeeded => (RetryAction::Done, elapsed_ms),
        AttemptOutcome::Permanent => (RetryAction::Fail, elapsed_ms),
        AttemptOutcome::Transient => match delay {
            Some(d) => {
                let left = MAX_ELAPSED_MS - elapsed_ms;
                if attempt_ms <= left && d <= left - attempt_ms {
                    (RetryAction::Retry { delay_ms: d }, elapsed_ms + attempt_ms + d)
                } else {
                    (RetryAction::GiveUp, elapsed_ms)
                }
            },
            None => (RetryAction::GiveUp, elapsed_ms),
        },
    }
}

/// How many retries a run of transient failures gets, each step being the
/// failed attempt's duration and the delay the backoff offers after it.
pub open spec fn retries_taken(elapsed: int, steps: Seq<(u64, u64)>) -> nat
    decreases steps.len(),
{
    if steps.len() == 0 {
        0
    } else {
        match transient_step(elapsed, steps[0].0 as int, Some(steps[0].1)) {
            (RetryAction::Retry { .. }, next) => 1 + retries_taken(next, steps.drop_first()),
            _ => 0,
        }
    }
}

/// Retrying is bounded by the time budget: whatever the failures and delays,
/// when each attempt takes at least a millisecond the retries number at most
/// the milliseconds left in the budget, so the loop stops within it.
pub proof fn lemma_retries_bounded(elapsed: int, steps: Seq<(u64, u64)>)
    requires
        0 <= elapsed <= MAX_ELAPSED_MS,
        forall|i: int| 0 <= i < steps.len() ==> (#[trigger] steps[i]).0 >= 1,
    ensures
        retries_taken(elapsed, steps) <= MAX_ELAPSED_MS - elapsed,
    decreases steps.len(),
{
    if steps.len() > 0 {
        let rest = steps.drop_first();
        assert forall|i: int| 0 <= i < rest.len() implies (#[trigger] rest[i]).0 >= 1 by {
            assert(rest[i] == steps[i + 1]);
        }
        let (a, d) = steps[0];
        if elapsed + a + d <= MAX_ELAPSED_MS {
            lemma_retries_bounded(elapsed + a + d, rest);
        }
    }
}

/// The retry budget of one nested request: the backoff that offers delays,
/// and the time accounted so far.
pub struct Retry {
    backoff: ExponentialBackoff<SystemClock>,
    elapsed_ms: u64,
}

impl Retry {
    pub closed spec fn spent(&self) -> int {
        self.elapsed_ms as int
    }

    pub closed spec fn wf(&self) -> bool {
        self.elapsed_ms <= MAX_ELAPSED_MS
    }

    /// A budget with nothing spent, drawing delays from `backoff`.
    pub fn new(backoff: ExponentialBackoff<SystemClock>) -> (r: Retry)
        ensures
            r.wf(),
            r.spent() == 0,
    {
        Retry { backoff, elapsed_ms: 0 }
    }

    /// The time accounted so far, in milliseconds.
    pub fn elapsed_ms(&self) -> (r: u64)
        ensures
            r == self.spent(),
    {
        self.elapsed_ms
    }

    /// Decides what follows an attempt that took `attempt_ms`. The backoff is
    /// asked for a delay only after a transient failure; whatever it offers,
    /// the decision is [step] on it.
    pub fn on_attempt(&mut self, outcome: AttemptOutcome, attempt_ms: u64) -> (r: RetryAction)
        requires
            old(self).wf(),
        ensures
            final(self).wf(),
            final(self).spent() <= MAX_ELAPSED_MS,
            outcome != AttemptOutcome::Transient ==> (r, final(self).spent()) == step(
                old(self).spent(),
                outcome,
                attempt_ms as int,
                None,
            ),
            outcome == AttemptOutcome::Transient ==> (r is Retry || r is GiveUp),
            r matches RetryAction::Retry { delay_ms } ==> final(self).spent() == old(self).spent()
                + attempt_ms + delay_ms,
            r is GiveUp ==> final(self).spent() == old(self).spent(),
    {
        let delay = match outcome {
            AttemptOutcome::Transient => next_backoff_ms(&mut self.backoff),
            _ => None,
        };
        let (action, elapsed) = next_action(self.elapsed_ms, outcome, attempt_ms, delay);
        self.elapsed_ms = elapsed;
        action
    }
}

/// The message by which a call reports a broken transport.
pub open spec fn transport_error_message() -> Seq<char> {
    seq!['t', 'r', 'a', 'n', 's', 'p', 'o', 'r', 't', ' ', 'e', 'r', 'r', 'o', 'r']
}

/// Whether two strings, the second ASCII, hold the same characters.
fn ascii_eq(a: &str, b: &str) -> (r: bool)
    requires
        b.is_ascii(),
    ensures
        r == (a@ == b@),
{
    broadcast use vstd::string::is_ascii_spec_bytes;

    if !a.is_ascii() {
        proof {
            if a@ == b@ {
                assert(vstd::string::is_ascii(a));
            }
        }
        return false;
    }
    let x = a.as_bytes();
    let y = b.as_bytes();
    assert(a.spec_bytes() =~= Seq::new(a@.len(), |k: int| a@[k] as u8));
    assert(b.spec_bytes() =~= Seq::new(b@.len(), |k: int| b@[k] as u8));
    assert forall|k: int| 0 <= k < a@.len() implies (#[trigger] x@[k]) as char == a@[k] by {
        assert('\0' <= a@[k] <= '\u{7f}');
    }
    assert forall|k: int| 0 <= k < b@.len() implies (#[trigger] y@[k]) as char == b@[k] by {
        assert('\0' <= b@[k] <= '\u{7f}');
    }
    if x.len() != y.len() {
        return false;
    }
    let mut i: usize = 0;
    while i < x.len()
        invariant
            x@.len() == y@.len() == a@.len() == b@.len(),
            forall|k: int| 0 <= k < a@.len() ==> (#[trigger] x@[k]) as char == a@[k],
            forall|k: int| 0 <= k < b@.len() ==> (#[trigger] y@[k]) as char == b@[k],
            i <= x@.len(),
            forall|k: int| 0 <= k < i ==> a@[k] == b@[k],
        decreases x@.len() - i,
    {
        if x[i] != y[i] {
            assert(a@[i as int] != b@[i as int]);
            return false;
        }
        i = i + 1;
    }
    assert(a@ =~= b@);
    true
}

/// Sorts the failure of a call to a nested agent: `Unknown` with the message
/// "transport error" may go away and is retried; anything else is final.
pub fn classify_call_error(code: Code, message: &str) -> (r: AttemptOutcome)
    ensures
        r == (if code == Code::Unknown && message@ == transport_error_message() {
            AttemptOutcome::Transient
        } else {
            AttemptOutcome::Permanent
        }),
{
    let expected = "transport error";
    proof {
        reveal_strlit("transport error");
        assert(expected@ =~= transport_error_message());
        assert(vstd::string::is_ascii(expected));
    }
    if code == Code::Unknown && ascii_eq(message, expected) {
        AttemptOutcome::Transient
    } else {
        AttemptOutcome::Permanent
    }
}

/// Sorts the failure of dialling a nested agent: only a connection error is
/// retried.
pub fn classify_dial_error(is_connection_error: bool) -> (r: AttemptOutcome)
    ensures
        r == (if is_connection_error {
            AttemptOutcome::Transient
        } else {
            AttemptOutcome::Permanent
        }),
{
    if is_connection_error {
        AttemptOutcome::Transient
    } else {
        AttemptOutcome::Permanent
    }
}

} // verus!
