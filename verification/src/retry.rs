//! Bounded retry with exponential backoff.
//!
//! An operation is attempted up to `max_retry + 1` times. After the failure of
//! attempt `k` (counted from 0) the caller waits `2^k` seconds, unless that was
//! the last attempt allowed. There is no jitter and no cap on the delay; the
//! only bound is that a delay must fit in 64 bits, which limits `max_retry` to
//! [`MAX_RETRY`].
//!
//! [`Retry`] holds the decisions alone, so that a caller which has to await the
//! operation and the sleep can drive it step by step. [`retry_operation`] is the
//! same loop for callers that can block.

use vstd::prelude::*;
use vstd::arithmetic::power2::*;
use vstd::bits::*;
use vstd::string::*;
use crate::text::{decimal, owned, push_decimal};

verus! {

/// The greatest `max_retry` whose every delay fits in a `u64` of seconds.
pub const MAX_RETRY: u32 = 64;

/// What to do after a failed attempt.
#[derive(Clone, Copy, Debug, PartialEq, Eq, Structural)]
pub enum RetryDecision {
    /// Wait `secs` seconds, then attempt again.
    Backoff { secs: u64 },
    /// No attempt is left: the last error is the result.
    GiveUp,
}

/// The state of one retried operation: the attempt now under way.
#[derive(Clone, Copy, Debug, PartialEq, Eq, Structural)]
pub struct Retry {
    pub max_retry: u32,
    pub attempt: u32,
}

/// How a retried operation ended, and what it cost.
pub ghost struct RetryRun {
    pub succeeded: bool,
    pub attempts: nat,
    pub delays: Seq<nat>,
}

/// The delay after the failure of attempt `attempt`, in seconds.
pub open spec fn backoff_secs(attempt: nat) -> nat {
    pow2(attempt)
}

/// The delays of `n` failed attempts in a row that were each retried:
/// 1, 2, 4, ... seconds.
pub open spec fn schedule(n: nat) -> Seq<nat> {
    Seq::new(n, |i: int| backoff_secs(i as nat))
}

impl Retry {
    /// The attempt under way is one of the `max_retry + 1` allowed, and every
    /// delay this state can still order fits in a `u64`.
    pub open spec fn wf(&self) -> bool {
        self.attempt <= self.max_retry <= MAX_RETRY
    }

    /// The answer to a failure of the attempt under way.
    pub open spec fn decision(&self) -> RetryDecision {
        if self.attempt < self.max_retry {
            RetryDecision::Backoff { secs: backoff_secs(self.attempt as nat) as u64 }
        } else {
            RetryDecision::GiveUp
        }
    }

    /// The state after a failure of the attempt under way.
    pub open spec fn failed(&self) -> Retry {
        if self.attempt < self.max_retry {
            Retry { max_retry: self.max_retry, attempt: (self.attempt + 1) as u32 }
        } else {
            *self
        }
    }

    /// The course of the operation from this state on, where `succeeds(k)`
    /// tells whether attempt `k` succeeds.
    pub open spec fn run(&self, succeeds: spec_fn(nat) -> bool) -> RetryRun
        decreases self.max_retry - self.attempt,
    {
        if succeeds(self.attempt as nat) {
            RetryRun { succeeded: true, attempts: self.attempt as nat + 1, delays: Seq::empty() }
        } else if self.attempt < self.max_retry {
            let rest = self.failed().run(succeeds);
            RetryRun {
                succeeded: rest.succeeded,
                attempts: rest.attempts,
                delays: seq![backoff_secs(self.attempt as nat)] + rest.delays,
            }
        } else {
            RetryRun { succeeded: false, attempts: self.attempt as nat + 1, delays: Seq::empty() }
        }
    }

    /// A fresh state, before the first attempt.
    pub fn new(max_retry: u32) -> (r: Retry)
        requires
            max_retry <= MAX_RETRY,
        ensures
            r == (Retry { max_retry, attempt: 0 }),
            r.wf(),
    {
        Retry { max_retry, attempt: 0 }
    }

    /// A fresh state, or `None` where `max_retry` would ask for a delay that
    /// does not fit in a `u64`.
    pub fn checked_new(max_retry: u32) -> (r: Option<Retry>)
        ensures
            r == if max_retry <= MAX_RETRY {
                Some(Retry { max_retry, attempt: 0 })
            } else {
                None
            },
    {
        if max_retry <= MAX_RETRY {
            Some(Retry::new(max_retry))
        } else {
            None
        }
    }

    /// The number of attempts begun so far, the one under way included.
    pub fn attempts(&self) -> (n: u32)
        requires
            self.wf(),
        ensures
            n == self.attempt + 1,
    {
        self.attempt + 1
    }

    /// Whether a failure of the attempt under way would be final.
    pub fn is_last_attempt(&self) -> (r: bool)
        ensures
            r == (self.attempt >= self.max_retry),
    {
        self.attempt >= self.max_retry
    }

    /// Records that the attempt under way failed, and says what follows:
    /// a wait of `2^attempt` seconds before the next attempt, or the end.
    pub fn on_failure(&mut self) -> (d: RetryDecision)
        requires
            old(self).wf(),
        ensures
            d == old(self).decision(),
            *final(self) == old(self).failed(),
            final(self).wf(),
    {
        if self.attempt < self.max_retry {
            let secs = backoff(self.attempt);
            self.attempt = self.attempt + 1;
            RetryDecision::Backoff { secs }
        } else {
            RetryDecision::GiveUp
        }
    }
}

/// The delay after the failure of attempt `attempt`: `2^attempt` seconds.
pub fn backoff(attempt: u32) -> (secs: u64)
    requires
        attempt < MAX_RETRY,
    ensures
        secs == backoff_secs(attempt as nat),
{
    proof {
        lemma_u64_pow2_no_overflow(attempt as nat);
        lemma_u64_shl_is_mul(1, attempt as u64);
    }
    1u64 << attempt
}

/// The line that tells of a failed attempt which is retried.
pub open spec fn retry_text(prefix: Seq<char>, retry: Retry, error: Seq<char>) -> Seq<char> {
    prefix + " failed (attempt "@ + decimal((retry.attempt + 1) as nat) + "/"@ + decimal(
        (retry.max_retry + 1) as nat,
    ) + "): "@ + error + ", retrying in "@ + decimal(backoff_secs(retry.attempt as nat)) + "s..."@
}

/// The line that tells of the failure of the last attempt.
pub open spec fn give_up_text(prefix: Seq<char>, retry: Retry, error: Seq<char>) -> Seq<char> {
    prefix + " failed after "@ + decimal((retry.max_retry + 1) as nat) + " attempts: "@ + error
}

/// The line to log when the attempt under way has failed with `error`: how
/// many attempts were made and how long the wait is, or that no attempt is
/// left. It is written before the failure is recorded.
pub fn failure_notice(retry: &Retry, prefix: &str, error: &str) -> (r: String)
    requires
        retry.wf(),
    ensures
        r@ == if retry.attempt < retry.max_retry {
            retry_text(prefix@, *retry, error@)
        } else {
            give_up_text(prefix@, *retry, error@)
        },
{
    let mut r = owned(prefix);
    if retry.attempt < retry.max_retry {
        r.append(" failed (attempt ");
        push_decimal(&mut r, (retry.attempt + 1) as u64);
        r.append("/");
        push_decimal(&mut r, (retry.max_retry + 1) as u64);
        r.append("): ");
        r.append(error);
        r.append(", retrying in ");
        push_decimal(&mut r, backoff(retry.attempt));
        r.append("s...");
    } else {
        r.append(" failed after ");
        push_decimal(&mut r, (retry.max_retry + 1) as u64);
        r.append(" attempts: ");
        r.append(error);
    }
    r
}

/// Attempt `k` of `operation` may end in an error.
pub open spec fn may_fail<T, E, F: Fn(u32) -> Result<T, E>>(operation: F, k: u32) -> bool {
    exists|e: E| call_ensures(operation, (k,), Err::<T, E>(e))
}

/// `result` is what retrying `operation` may return: the outcome of some
/// attempt `k` that was reached because every attempt before it could fail,
/// and an error only if `k` was the last attempt allowed.
pub open spec fn returned_by<T, E, F: Fn(u32) -> Result<T, E>>(
    operation: F,
    max_retry: u32,
    k: u32,
    result: Result<T, E>,
) -> bool {
    &&& k <= max_retry
    &&& call_ensures(operation, (k,), result)
    &&& forall|j: u32| j < k ==> #[trigger] may_fail(operation, j)
    &&& result is Err ==> k == max_retry
}

/// The delay after the failure of attempt `k`, as the sleep is handed it.
pub open spec fn delay(k: u32) -> u64 {
    backoff_secs(k as nat) as u64
}

/// `sleep` can be called with each delay that retrying under `max_retry` can
/// order: 1, 2, 4, ... up to `2^(max_retry - 1)` seconds. It need not accept
/// any other.
pub open spec fn sleeps_through<W, S: Fn(u64) -> W>(sleep: S, max_retry: u32) -> bool {
    forall|k: u32| k < max_retry ==> call_requires(sleep, (#[trigger] delay(k),))
}

/// How a retried operation ended, and what it took.
#[derive(Debug)]
pub struct Retried<T, E, W> {
    /// The first success, or the error of the last attempt.
    pub result: Result<T, E>,
    /// The number of attempts made.
    pub attempts: u32,
    /// What the sleep gave back each time it was called, in order: once
    /// after each attempt but the last.
    pub slept: Vec<W>,
}

/// The sleeps were made as the schedule says: the sleep after attempt `i`
/// was called with `2^i` seconds, and `slept[i]` is what that call gave
/// back.
pub open spec fn slept_as<W, S: Fn(u64) -> W>(sleep: S, slept: Seq<W>) -> bool {
    forall|i: int|
        0 <= i < slept.len() ==> call_ensures(sleep, (delay(i as u32),), #[trigger] slept[i])
}

/// `r` is a way for the retried operation to end: the result is that of the
/// last attempt made, every attempt before it could fail, an error comes
/// only from the last attempt allowed, and between the attempts the sleeps
/// of the schedule were made, one after each attempt but the last.
pub open spec fn retried_as<T, E, W, F: Fn(u32) -> Result<T, E>, S: Fn(u64) -> W>(
    operation: F,
    sleep: S,
    max_retry: u32,
    r: Retried<T, E, W>,
) -> bool {
    &&& 1 <= r.attempts <= max_retry + 1
    &&& returned_by(operation, max_retry, (r.attempts - 1) as u32, r.result)
    &&& r.slept@.len() == r.attempts - 1
    &&& slept_as(sleep, r.slept@)
}

/// Runs `operation` until it succeeds or `max_retry + 1` attempts have failed.
/// The operation is told the number of the attempt, from 0. After the
/// failure of attempt `k`, unless it was the last one allowed, `sleep` is
/// called with the delay of `2^k` seconds before the next attempt. What is
/// returned holds the first success or the error of the last attempt, the
/// number of attempts, and what each sleep gave back.
pub fn retry_operation<T, E, W, F, S>(max_retry: u32, operation: F, sleep: S) -> (r: Retried<
    T,
    E,
    W,
>)
    where F: Fn(u32) -> Result<T, E>, S: Fn(u64) -> W
    requires
        max_retry <= MAX_RETRY,
        forall|k: u32| k <= max_retry ==> call_requires(operation, (k,)),
        sleeps_through(sleep, max_retry),
    ensures
        retried_as(operation, sleep, max_retry, r),
{
    let mut retry = Retry::new(max_retry);
    let mut slept: Vec<W> = Vec::new();
    loop
        invariant
            retry.wf(),
            retry.max_retry == max_retry,
            forall|k: u32| k <= max_retry ==> call_requires(operation, (k,)),
            sleeps_through(sleep, max_retry),
            forall|j: u32| j < retry.attempt ==> #[trigger] may_fail(operation, j),
            slept@.len() == retry.attempt,
            slept_as(sleep, slept@),
        decreases max_retry - retry.attempt,
    {
        let attempt: u32 = retry.attempt;
        let attempts: u32 = retry.attempts();
        let out = operation(attempt);
        if out.is_ok() {
            return Retried { result: out, attempts, slept };
        }
        assert(out == Err::<T, E>(out->Err_0));
        assert(may_fail(operation, attempt));
        match retry.on_failure() {
            RetryDecision::Backoff { secs } => {
                assert(secs == delay(attempt));
                let answer = sleep(secs);
                slept.push(answer);
            },
            RetryDecision::GiveUp => {
                return Retried { result: out, attempts, slept };
            },
        }
    }
}

/// The delays that the sleeps of a run were called with are the schedule:
/// 1, 2, 4, ... seconds, one for each attempt but the last.
pub proof fn law_sleeps_follow_the_schedule(attempts: u32)
    requires
        1 <= attempts <= MAX_RETRY + 1,
    ensures
        Seq::new((attempts - 1) as nat, |i: int| delay(i as u32) as nat) == schedule(
            (attempts - 1) as nat,
        ),
{
    assert forall|i: int| 0 <= i < attempts - 1 implies #[trigger] delay(i as u32) as nat
        == backoff_secs(i as nat) by {
        lemma_u64_pow2_no_overflow(i as nat);
    }
    assert(Seq::new((attempts - 1) as nat, |i: int| delay(i as u32) as nat) =~= schedule(
        (attempts - 1) as nat,
    ));
}

/// An operation that fails `n` times and then succeeds, retried with
/// `max_retry = n`, ends in success on attempt `n + 1`, after delays of
/// 1, 2, 4, ..., `2^(n-1)` seconds.
pub proof fn law_recovers_after_n_failures(n: u32, succeeds: spec_fn(nat) -> bool)
    requires
        n <= MAX_RETRY,
        forall|k: nat| k < n ==> !#[trigger] succeeds(k),
        succeeds(n as nat),
    ensures
        (Retry { max_retry: n, attempt: 0 }).run(succeeds) == (RetryRun {
            succeeded: true,
            attempts: n as nat + 1,
            delays: schedule(n as nat),
        }),
{
    lemma_run_recovers(Retry { max_retry: n, attempt: 0 }, succeeds);
    assert(Seq::new((n - 0) as nat, |i: int| backoff_secs((0 + i) as nat)) =~= schedule(n as nat));
}

/// An operation that never succeeds is attempted `max_retry + 1` times, with
/// the full schedule of delays between the attempts.
pub proof fn law_gives_up_after_all_attempts(n: u32, succeeds: spec_fn(nat) -> bool)
    requires
        n <= MAX_RETRY,
        forall|k: nat| k <= n ==> !#[trigger] succeeds(k),
    ensures
        (Retry { max_retry: n, attempt: 0 }).run(succeeds) == (RetryRun {
            succeeded: false,
            attempts: n as nat + 1,
            delays: schedule(n as nat),
        }),
{
    lemma_run_exhausts(Retry { max_retry: n, attempt: 0 }, succeeds);
    assert(Seq::new((n - 0) as nat, |i: int| backoff_secs((0 + i) as nat)) =~= schedule(n as nat));
}

/// What `retry_operation` returns for an operation that fails on the first
/// `n` attempts and succeeds on the next, with `max_retry = n`: success.
pub proof fn law_result_is_success<T, E, F: Fn(u32) -> Result<T, E>>(
    operation: F,
    n: u32,
    k: u32,
    result: Result<T, E>,
)
    requires
        returned_by(operation, n, k, result),
        forall|j: u32, out: Result<T, E>| j < n && call_ensures(operation, (j,), out) ==> out is Err,
        forall|out: Result<T, E>| call_ensures(operation, (n,), out) ==> out is Ok,
    ensures
        k == n,
        result is Ok,
{
}

proof fn lemma_run_recovers(r: Retry, succeeds: spec_fn(nat) -> bool)
    requires
        r.wf(),
        forall|k: nat| r.attempt <= k < r.max_retry ==> !#[trigger] succeeds(k),
        succeeds(r.max_retry as nat),
    ensures
        r.run(succeeds) == (RetryRun {
            succeeded: true,
            attempts: r.max_retry as nat + 1,
            delays: Seq::new(
                (r.max_retry - r.attempt) as nat,
                |i: int| backoff_secs((r.attempt + i) as nat),
            ),
        }),
    decreases r.max_retry - r.attempt,
{
    let want = Seq::new(
        (r.max_retry - r.attempt) as nat,
        |i: int| backoff_secs((r.attempt + i) as nat),
    );
    if r.attempt < r.max_retry {
        let next = r.failed();
        lemma_run_recovers(next, succeeds);
        let rest = Seq::new(
            (next.max_retry - next.attempt) as nat,
            |i: int| backoff_secs((next.attempt + i) as nat),
        );
        assert(seq![backoff_secs(r.attempt as nat)] + rest =~= want);
    } else {
        assert(want =~= Seq::<nat>::empty());
    }
}

proof fn lemma_run_exhausts(r: Retry, succeeds: spec_fn(nat) -> bool)
    requires
        r.wf(),
        forall|k: nat| r.attempt <= k <= r.max_retry ==> !#[trigger] succeeds(k),
    ensures
        r.run(succeeds) == (RetryRun {
            succeeded: false,
            attempts: r.max_retry as nat + 1,
            delays: Seq::new(
                (r.max_retry - r.attempt) as nat,
                |i: int| backoff_secs((r.attempt + i) as nat),
            ),
        }),
    decreases r.max_retry - r.attempt,
{
    let want = Seq::new(
        (r.max_retry - r.attempt) as nat,
        |i: int| backoff_secs((r.attempt + i) as nat),
    );
    if r.attempt < r.max_retry {
        let next = r.failed();
        lemma_run_exhausts(next, succeeds);
        let rest = Seq::new(
            (next.max_retry - next.attempt) as nat,
            |i: int| backoff_secs((next.attempt + i) as nat),
        );
        assert(seq![backoff_secs(r.attempt as nat)] + rest =~= want);
    } else {
        assert(want =~= Seq::<nat>::empty());
    }
}

} // verus!
