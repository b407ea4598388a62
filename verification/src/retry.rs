//! Retrying a request that the enclave rejects while it is still getting
//! ready.
//!
//! A retried call is a series of attempts. Each attempt is one exchange with
//! the enclave. A failure of the channel ends the call at once, and so does an
//! answer that accepts the request. A rejection ends it only on the last
//! attempt that the handle grants; before that the caller sleeps and tries
//! again. The sleep before the second attempt is 100 ms, and each later one is
//! twice the one before. A sleep that is interrupted ends the call with the
//! rejection in hand. A handle that grants zero attempts makes no rejection
//! final.

use vstd::prelude::*;
use vstd::arithmetic::power2::{lemma2_to64_rest, lemma_pow2_strictly_increases, pow2};
use vstd::bits::lemma_u64_shl_is_mul;
use crate::error::Error;
use crate::schema::{is_rejection, RpcResult};

verus! {

/// The sleep after the first rejected attempt, in milliseconds.
pub const BACKOFF_BASE_MS: u64 = 100;

/// The last attempt after which a sleep can still be counted in milliseconds.
pub const MAX_BACKOFF_ATTEMPT: usize = 58;

/// The sleep after attempt number `attempt` was rejected, in milliseconds.
pub open spec fn backoff_millis(attempt: nat) -> nat
    recommends
        attempt >= 1,
{
    BACKOFF_BASE_MS as nat * pow2((attempt - 1) as nat)
}

/// Whether a call that is granted `max_attempts` attempts goes on after its
/// attempt number `attempt` came to `outcome`: the request was rejected, and
/// this was not the last attempt.
pub open spec fn goes_on<A, R>(max_attempts: nat, attempt: nat, outcome: RpcResult<A, R>) -> bool {
    is_rejection(outcome) && attempt != max_attempts
}

/// The sleep after any attempt up to [`MAX_BACKOFF_ATTEMPT`] can be counted
/// in milliseconds.
pub proof fn lemma_backoff_fits(attempt: nat)
    requires
        1 <= attempt <= MAX_BACKOFF_ATTEMPT,
    ensures
        backoff_millis(attempt) <= u64::MAX,
{
    lemma2_to64_rest();
    if attempt < MAX_BACKOFF_ATTEMPT {
        lemma_pow2_strictly_increases((attempt - 1) as nat, 57);
    }
}

/// A retried call that is about to make an attempt.
#[derive(Debug, Clone, Copy, PartialEq, Eq)]
pub struct RetryRpc {
    max_attempts: usize,
    attempt: usize,
}

/// A retried call that is about to sleep after a rejection.
#[derive(Debug)]
pub struct Backoff<R> {
    retry: RetryRpc,
    millis: u64,
    rejected: R,
}

/// What follows an attempt.
#[derive(Debug)]
pub enum Verdict<A, R> {
    /// The call is over and comes to this.
    Return(RpcResult<A, R>),
    /// Sleep, then see.
    Backoff(Backoff<R>),
}

/// What follows a sleep.
#[derive(Debug)]
pub enum Resume<A, R> {
    /// The call is over and comes to this.
    Return(RpcResult<A, R>),
    /// Make the next attempt.
    Retry(RetryRpc),
}

impl RetryRpc {
    /// Attempts are counted from one.
    #[verifier::type_invariant]
    pub closed spec fn wf(&self) -> bool {
        self.attempt >= 1
    }

    /// The number of the attempt that is about to be made.
    pub closed spec fn spec_attempt(&self) -> nat {
        self.attempt as nat
    }

    /// The number of the attempt at which a rejection is final.
    pub closed spec fn spec_max_attempts(&self) -> nat {
        self.max_attempts as nat
    }

    /// Whether the call goes on after `outcome`: the request was rejected, and
    /// this was not the last attempt.
    pub open spec fn retries<A, R>(&self, outcome: RpcResult<A, R>) -> bool {
        goes_on(self.spec_max_attempts(), self.spec_attempt(), outcome)
    }

    /// What follows an attempt that came to `outcome`.
    ///
    /// Where the sleep that would follow cannot be counted in milliseconds,
    /// this lets the call end; [`RetryRpc::on_response`] does not take such an
    /// attempt.
    pub closed spec fn spec_on_response<A, R>(self, outcome: RpcResult<A, R>) -> Verdict<A, R> {
        match outcome {
            Ok(Err(rejected)) => if self.attempt != self.max_attempts && self.attempt
                <= MAX_BACKOFF_ATTEMPT {
                Verdict::Backoff(
                    Backoff {
                        retry: self,
                        millis: backoff_millis(self.attempt as nat) as u64,
                        rejected,
                    },
                )
            } else {
                Verdict::Return(outcome)
            },
            _ => Verdict::Return(outcome),
        }
    }

    /// Whether the call can take `outcome`: if it is to go on after it, the
    /// sleep that follows can be counted in milliseconds.
    pub open spec fn spec_takes<A, R>(&self, outcome: RpcResult<A, R>) -> bool {
        self.retries(outcome) ==> self.spec_attempt() <= MAX_BACKOFF_ATTEMPT
    }

    /// A call about to make its first attempt.
    pub(crate) fn new(max_attempts: usize) -> (retry: Self)
        ensures
            retry.wf(),
            retry.spec_attempt() == 1,
            retry.spec_max_attempts() == max_attempts,
    {
        RetryRpc { max_attempts, attempt: 1 }
    }

    /// The number of the attempt that is about to be made.
    pub fn attempt(&self) -> (attempt: usize)
        ensures
            attempt == self.spec_attempt(),
            attempt >= 1,
    {
        proof {
            use_type_invariant(self);
        }
        self.attempt
    }

    /// The number of the attempt at which a rejection is final.
    pub fn max_attempts(&self) -> (max_attempts: usize)
        ensures
            max_attempts == self.spec_max_attempts(),
    {
        self.max_attempts
    }

    /// Whether [`RetryRpc::on_response`] can take `outcome`. It can take
    /// whatever any of the first 58 attempts comes to, and whatever ends the
    /// call.
    pub fn takes<A, R>(&self, outcome: &RpcResult<A, R>) -> (takes: bool)
        ensures
            takes == self.spec_takes(*outcome),
    {
        match outcome {
            Ok(Err(_)) => self.attempt == self.max_attempts || self.attempt
                <= MAX_BACKOFF_ATTEMPT,
            _ => true,
        }
    }

    /// Takes what the attempt came to and says what follows.
    ///
    /// A failure of the channel and an accepted request end the call with
    /// just that. So does a rejection on the last attempt. Any other rejection
    /// is held while the caller sleeps.
    pub fn on_response<A, R>(self, outcome: RpcResult<A, R>) -> (verdict: Verdict<A, R>)
        requires
            self.spec_takes(outcome),
        ensures
            verdict == self.spec_on_response(outcome),
            match verdict {
                Verdict::Return(result) => !self.retries(outcome) && result == outcome,
                Verdict::Backoff(backoff) => {
                    &&& self.retries(outcome)
                    &&& backoff.retry() == self
                    &&& backoff.spec_millis() == backoff_millis(self.spec_attempt())
                    &&& outcome == Ok::<Result<A, R>, Error>(Err(backoff.spec_rejected()))
                },
            },
    {
        proof {
            use_type_invariant(self);
        }
        match outcome {
            Ok(Err(rejected)) => {
                if self.attempt == self.max_attempts {
                    Verdict::Return(Ok(Err(rejected)))
                } else {
                    let doublings: u64 = (self.attempt - 1) as u64;
                    proof {
                        lemma_backoff_fits(self.attempt as nat);
                        lemma_u64_shl_is_mul(BACKOFF_BASE_MS, doublings);
                    }
                    Verdict::Backoff(
                        Backoff { retry: self, millis: BACKOFF_BASE_MS << doublings, rejected },
                    )
                }
            },
            other => Verdict::Return(other),
        }
    }
}

impl<R> Backoff<R> {
    /// The sleep is the one that belongs to the attempt, and there is an
    /// attempt left to make after it.
    #[verifier::type_invariant]
    pub closed spec fn wf(&self) -> bool {
        &&& self.retry.wf()
        &&& self.retry.attempt <= MAX_BACKOFF_ATTEMPT
        &&& self.retry.attempt != self.retry.max_attempts
        &&& self.millis == backoff_millis(self.retry.attempt as nat)
    }

    /// The call as it stood when the attempt was made.
    pub closed spec fn retry(&self) -> RetryRpc {
        self.retry
    }

    /// How long to sleep, in milliseconds.
    pub closed spec fn spec_millis(&self) -> nat {
        self.millis as nat
    }

    /// The rejection that the attempt got.
    pub closed spec fn spec_rejected(&self) -> R {
        self.rejected
    }

    /// What follows the sleep.
    pub closed spec fn spec_wake<A>(self, interrupted: bool) -> Resume<A, R> {
        if interrupted {
            Resume::Return(Ok(Err(self.rejected)))
        } else {
            Resume::Retry(
                RetryRpc {
                    max_attempts: self.retry.max_attempts,
                    attempt: (self.retry.attempt + 1) as usize,
                },
            )
        }
    }

    /// How long to sleep, in milliseconds.
    pub fn millis(&self) -> (millis: u64)
        ensures
            millis == self.spec_millis(),
            millis == backoff_millis(self.retry().spec_attempt()),
    {
        proof {
            use_type_invariant(self);
        }
        self.millis
    }

    /// The number of the attempt that was rejected.
    pub fn attempt(&self) -> (attempt: usize)
        ensures
            attempt == self.retry().spec_attempt(),
    {
        self.retry.attempt
    }

    /// The rejection that the attempt got.
    pub fn rejected(&self) -> (rejected: &R)
        ensures
            *rejected == self.spec_rejected(),
    {
        &self.rejected
    }

    /// Takes how the sleep ended and says what follows.
    ///
    /// An interrupted sleep ends the call with the rejection in hand. After a
    /// full sleep the next attempt is due.
    pub fn wake<A>(self, interrupted: bool) -> (resume: Resume<A, R>)
        ensures
            resume == self.spec_wake::<A>(interrupted),
            match resume {
                Resume::Return(result) => interrupted && result == Ok::<Result<A, R>, Error>(
                    Err(self.spec_rejected()),
                ),
                Resume::Retry(next) => {
                    &&& !interrupted
                    &&& next.spec_attempt() == self.retry().spec_attempt() + 1
                    &&& next.spec_max_attempts() == self.retry().spec_max_attempts()
                },
            },
    {
        proof {
            use_type_invariant(&self);
        }
        if interrupted {
            Resume::Return(Ok(Err(self.rejected)))
        } else {
            Resume::Retry(
                RetryRpc { max_attempts: self.retry.max_attempts, attempt: self.retry.attempt + 1 },
            )
        }
    }
}

/// A retried call, seen from one attempt to the end of the call.
pub struct Run<A, R> {
    /// What the call came to.
    pub result: RpcResult<A, R>,
    /// How many attempts were made.
    pub attempts: nat,
    /// The sleeps that were begun, in order, each in milliseconds.
    pub sleeps: Seq<nat>,
}

/// The call that a caller makes of `retry` who does as told: they make an
/// attempt, hand what it came to to [`RetryRpc::on_response`], sleep where
/// that says so, hand how the sleep ended to [`Backoff::wake`], and go on
/// until one of the two ends the call.
///
/// `answers` gives what attempt number `k` comes to, and `interrupts` whether
/// the sleep after attempt number `k` is interrupted.
///
/// This is the caller's call as long as every sleep that comes due can be
/// counted in milliseconds. Where the call is to go on after attempt 59 or a
/// later one, [`RetryRpc::on_response`] does not take that attempt and a
/// caller cannot go on; here the call ends with that attempt instead. The
/// laws below leave such calls out: each one asks that the call ends by
/// attempt 59, and by attempt 58 where a sleep follows.
pub open spec fn run<A, R>(
    retry: RetryRpc,
    answers: spec_fn(nat) -> RpcResult<A, R>,
    interrupts: spec_fn(nat) -> bool,
) -> Run<A, R>
    decreases MAX_BACKOFF_ATTEMPT + 1 - retry.spec_attempt(),
{
    let attempt = retry.spec_attempt();
    match retry.spec_on_response(answers(attempt)) {
        Verdict::Return(result) => Run { result, attempts: 1, sleeps: Seq::empty() },
        Verdict::Backoff(backoff) => match backoff.spec_wake::<A>(interrupts(attempt)) {
            Resume::Return(result) => Run {
                result,
                attempts: 1,
                sleeps: seq![backoff.spec_millis()],
            },
            Resume::Retry(next) => {
                let rest = run(next, answers, interrupts);
                Run {
                    result: rest.result,
                    attempts: 1 + rest.attempts,
                    sleeps: seq![backoff.spec_millis()] + rest.sleeps,
                }
            },
        },
    }
}

/// Whether attempt number `k` is rejected and the sleep after it is a full
/// one.
pub open spec fn rejected_at<A, R>(
    answers: spec_fn(nat) -> RpcResult<A, R>,
    interrupts: spec_fn(nat) -> bool,
    k: nat,
) -> bool {
    is_rejection(answers(k)) && !interrupts(k)
}

/// Whether the attempts from `first` up to but not including `last` are all
/// rejected, with a full sleep after each.
pub open spec fn rejected_throughout<A, R>(
    answers: spec_fn(nat) -> RpcResult<A, R>,
    interrupts: spec_fn(nat) -> bool,
    first: nat,
    last: nat,
) -> bool {
    forall|k: nat| first <= k < last ==> #[trigger] rejected_at(answers, interrupts, k)
}

/// Whether a call that is granted `max_attempts` attempts ends with attempt
/// number `k`, if it gets that far: the attempt is not one to go on after, or
/// the sleep after it is interrupted.
pub open spec fn ends_at<A, R>(
    max_attempts: nat,
    answers: spec_fn(nat) -> RpcResult<A, R>,
    interrupts: spec_fn(nat) -> bool,
    k: nat,
) -> bool {
    !goes_on(max_attempts, k, answers(k)) || interrupts(k)
}

/// Whether the call ends with attempt number `k`, if it gets that far, and
/// every sleep up to there can be counted in milliseconds: `k` is at most 59,
/// and at most 58 if a sleep follows it.
pub open spec fn ends_countably_at<A, R>(
    max_attempts: nat,
    answers: spec_fn(nat) -> RpcResult<A, R>,
    interrupts: spec_fn(nat) -> bool,
    k: nat,
) -> bool {
    &&& 1 <= k <= MAX_BACKOFF_ATTEMPT + 1
    &&& ends_at(max_attempts, answers, interrupts, k)
    &&& goes_on(max_attempts, k, answers(k)) ==> k <= MAX_BACKOFF_ATTEMPT
}

/// The call that ends with attempt number `k`: it comes to what that attempt
/// came to, after `k` attempts, with a sleep after every attempt before the
/// last and one after the last if the call was to go on. The sleep after
/// attempt number `j` is `100 * 2^(j - 1)` ms.
pub open spec fn ended_at<A, R>(
    max_attempts: nat,
    answers: spec_fn(nat) -> RpcResult<A, R>,
    k: nat,
) -> Run<A, R> {
    Run {
        result: answers(k),
        attempts: k,
        sleeps: Seq::new(
            if goes_on(max_attempts, k, answers(k)) {
                k
            } else {
                (k - 1) as nat
            },
            |i: int| backoff_millis((i + 1) as nat),
        ),
    }
}

proof fn lemma_run_ends<A, R>(
    retry: RetryRpc,
    answers: spec_fn(nat) -> RpcResult<A, R>,
    interrupts: spec_fn(nat) -> bool,
    bound: nat,
) -> (last: nat)
    requires
        retry.wf(),
        retry.spec_attempt() <= retry.spec_max_attempts(),
        retry.spec_attempt() <= bound,
        ends_countably_at(retry.spec_max_attempts(), answers, interrupts, bound),
    ensures
        retry.spec_attempt() <= last <= bound,
        last <= retry.spec_max_attempts(),
        last == retry.spec_attempt() + run(retry, answers, interrupts).attempts - 1,
        rejected_throughout(answers, interrupts, retry.spec_attempt(), last),
        ends_at(retry.spec_max_attempts(), answers, interrupts, last),
        run(retry, answers, interrupts).result == answers(last),
        run(retry, answers, interrupts).sleeps.len() == last - retry.spec_attempt() + if goes_on(
            retry.spec_max_attempts(),
            last,
            answers(last),
        ) {
            1nat
        } else {
            0nat
        },
        forall|i: int|
            0 <= i < run(retry, answers, interrupts).sleeps.len() ==> #[trigger] run(
                retry,
                answers,
                interrupts,
            ).sleeps[i] == backoff_millis((retry.spec_attempt() + i) as nat),
    decreases bound - retry.spec_attempt(),
{
    let attempt = retry.spec_attempt();
    let whole = run(retry, answers, interrupts);
    if retry.retries(answers(attempt)) {
        lemma_backoff_fits(attempt);
        if interrupts(attempt) {
            attempt
        } else {
            let next = RetryRpc {
                max_attempts: retry.max_attempts,
                attempt: (attempt + 1) as usize,
            };
            let last = lemma_run_ends(next, answers, interrupts, bound);
            let rest = run(next, answers, interrupts);
            assert(whole.sleeps =~= seq![backoff_millis(attempt)] + rest.sleeps);
            assert(rejected_at(answers, interrupts, attempt));
            assert forall|i: int| 0 <= i < whole.sleeps.len() implies #[trigger] whole.sleeps[i]
                == backoff_millis((attempt + i) as nat) by {
                if i > 0 {
                    assert(whole.sleeps[i] == rest.sleeps[i - 1]);
                }
            }
            last
        }
    } else {
        attempt
    }
}

/// A call ends with the first attempt that ends it: if the attempts before
/// attempt number `k` are all rejected with a full sleep after each, and
/// attempt `k` is not rejected, or is the last that is granted, or is followed
/// by an interrupted sleep, then the call comes to what attempt `k` came to,
/// whether that is a failure of the channel, an accepted request or a
/// rejection. It makes `k` attempts, and sleeps after each of them but the
/// last, and after the last only where that sleep is the interrupted one.
///
/// This holds for every number of attempts granted, as long as `k` is at most
/// 59, and at most 58 where a sleep follows it: a later sleep is too long to
/// be counted in milliseconds.
pub proof fn law_call_ends_at_first_stop<A, R>(
    retry: RetryRpc,
    answers: spec_fn(nat) -> RpcResult<A, R>,
    interrupts: spec_fn(nat) -> bool,
    k: nat,
)
    requires
        retry.wf(),
        retry.spec_attempt() == 1,
        k <= retry.spec_max_attempts(),
        rejected_throughout(answers, interrupts, 1, k),
        ends_countably_at(retry.spec_max_attempts(), answers, interrupts, k),
    ensures
        run(retry, answers, interrupts) == ended_at(retry.spec_max_attempts(), answers, k),
{
    let last = lemma_run_ends(retry, answers, interrupts, k);
    if last < k {
        assert(rejected_at(answers, interrupts, last));
    }
    let whole = run(retry, answers, interrupts);
    assert(whole.sleeps =~= ended_at(retry.spec_max_attempts(), answers, k).sleeps);
}

/// However the attempts go, a call that is granted `n >= 1` attempts makes
/// at least one and at most `n`. It ends with the first attempt that ends it,
/// and comes to what that attempt came to. It sleeps after every attempt but
/// the last, and after the last only where that sleep is interrupted. Its
/// sleeps double from 100 ms on: the sleep after attempt number `k`, which is
/// `sleeps[k - 1]`, is `100 * 2^(k - 1)` ms.
///
/// This holds where at most 59 attempts are granted, and beyond that where
/// the call ends before a sleep comes due that is too long to be counted in
/// milliseconds.
pub proof fn law_attempts_bounded_sleeps_double<A, R>(
    retry: RetryRpc,
    answers: spec_fn(nat) -> RpcResult<A, R>,
    interrupts: spec_fn(nat) -> bool,
)
    requires
        retry.wf(),
        retry.spec_attempt() == 1,
        1 <= retry.spec_max_attempts(),
        retry.spec_max_attempts() <= MAX_BACKOFF_ATTEMPT + 1 || exists|k: nat| #[trigger]
            ends_countably_at(retry.spec_max_attempts(), answers, interrupts, k),
    ensures
        1 <= run(retry, answers, interrupts).attempts <= retry.spec_max_attempts(),
        rejected_throughout(answers, interrupts, 1, run(retry, answers, interrupts).attempts),
        ends_at(
            retry.spec_max_attempts(),
            answers,
            interrupts,
            run(retry, answers, interrupts).attempts,
        ),
        run(retry, answers, interrupts) == ended_at(
            retry.spec_max_attempts(),
            answers,
            run(retry, answers, interrupts).attempts,
        ),
        run(retry, answers, interrupts).sleeps.len() < retry.spec_max_attempts(),
        run(retry, answers, interrupts).sleeps.len() == run(retry, answers, interrupts).attempts
            - 1 || (run(retry, answers, interrupts).sleeps.len() == run(
            retry,
            answers,
            interrupts,
        ).attempts && interrupts(run(retry, answers, interrupts).attempts)),
        forall|i: int|
            0 <= i < run(retry, answers, interrupts).sleeps.len() ==> #[trigger] run(
                retry,
                answers,
                interrupts,
            ).sleeps[i] == 100 * pow2(i as nat),
{
    let n = retry.spec_max_attempts();
    let bound = if n <= MAX_BACKOFF_ATTEMPT + 1 {
        n
    } else {
        choose|k: nat| #[trigger] ends_countably_at(n, answers, interrupts, k)
    };
    let last = lemma_run_ends(retry, answers, interrupts, bound);
    let whole = run(retry, answers, interrupts);
    assert(whole.sleeps =~= ended_at(n, answers, last).sleeps);
    assert forall|i: int| 0 <= i < whole.sleeps.len() implies #[trigger] whole.sleeps[i] == 100
        * pow2(i as nat) by {
        assert(whole.sleeps[i] == backoff_millis((1 + i) as nat));
    }
}

/// If the channel fails on the first attempt, the call comes to that failure
/// after this one attempt and without a sleep, whatever number of attempts is
/// granted.
pub proof fn law_transport_failure_is_final<A, R>(
    retry: RetryRpc,
    answers: spec_fn(nat) -> RpcResult<A, R>,
    interrupts: spec_fn(nat) -> bool,
)
    requires
        retry.wf(),
        retry.spec_attempt() == 1,
        answers(1) is Err,
    ensures
        run(retry, answers, interrupts) == (Run {
            result: answers(1),
            attempts: 1,
            sleeps: Seq::empty(),
        }),
{
}

/// If the channel fails on attempt number `k`, after rejections only, the
/// call comes to that failure: attempt `k` is the last one made, and no sleep
/// follows it.
pub proof fn law_channel_failure_ends_the_call<A, R>(
    retry: RetryRpc,
    answers: spec_fn(nat) -> RpcResult<A, R>,
    interrupts: spec_fn(nat) -> bool,
    k: nat,
)
    requires
        retry.wf(),
        retry.spec_attempt() == 1,
        1 <= k <= retry.spec_max_attempts(),
        k <= MAX_BACKOFF_ATTEMPT + 1,
        rejected_throughout(answers, interrupts, 1, k),
        answers(k) is Err,
    ensures
        run(retry, answers, interrupts) == ended_at(retry.spec_max_attempts(), answers, k),
        run(retry, answers, interrupts).result == answers(k),
        run(retry, answers, interrupts).attempts == k,
        run(retry, answers, interrupts).sleeps.len() == k - 1,
{
    law_call_ends_at_first_stop(retry, answers, interrupts, k);
}

/// If every attempt is rejected and no sleep is interrupted, the call comes
/// to the rejection of the last attempt that was granted, which is no error,
/// after sleeping between the attempts.
///
/// This holds where at most 59 attempts are granted: with more, the sleep
/// after attempt 59 is too long to be counted in milliseconds.
pub proof fn law_exhaustion_returns_last_rejection<A, R>(
    retry: RetryRpc,
    answers: spec_fn(nat) -> RpcResult<A, R>,
    interrupts: spec_fn(nat) -> bool,
)
    requires
        retry.wf(),
        retry.spec_attempt() == 1,
        1 <= retry.spec_max_attempts() <= MAX_BACKOFF_ATTEMPT + 1,
        rejected_throughout(answers, interrupts, 1, retry.spec_max_attempts()),
        is_rejection(answers(retry.spec_max_attempts())),
    ensures
        run(retry, answers, interrupts) == ended_at(
            retry.spec_max_attempts(),
            answers,
            retry.spec_max_attempts(),
        ),
        run(retry, answers, interrupts).result == answers(retry.spec_max_attempts()),
        run(retry, answers, interrupts).result is Ok,
        run(retry, answers, interrupts).attempts == retry.spec_max_attempts(),
        run(retry, answers, interrupts).sleeps.len() == retry.spec_max_attempts() - 1,
{
    law_call_ends_at_first_stop(retry, answers, interrupts, retry.spec_max_attempts());
}

/// If attempt number `k` is the first that is accepted, the call comes to
/// that answer: attempt `k` is the last one made, and no sleep follows it.
/// This holds for every number of attempts granted that reaches `k`, for `k`
/// up to 59.
pub proof fn law_success_ends_the_call<A, R>(
    retry: RetryRpc,
    answers: spec_fn(nat) -> RpcResult<A, R>,
    interrupts: spec_fn(nat) -> bool,
    k: nat,
)
    requires
        retry.wf(),
        retry.spec_attempt() == 1,
        1 <= k <= retry.spec_max_attempts(),
        k <= MAX_BACKOFF_ATTEMPT + 1,
        rejected_throughout(answers, interrupts, 1, k),
        answers(k) matches Ok(Ok(_)),
    ensures
        run(retry, answers, interrupts) == ended_at(retry.spec_max_attempts(), answers, k),
        run(retry, answers, interrupts).result == answers(k),
        run(retry, answers, interrupts).attempts == k,
        run(retry, answers, interrupts).sleeps.len() == k - 1,
{
    law_call_ends_at_first_stop(retry, answers, interrupts, k);
}

/// If the sleep after attempt number `k` is the first that is interrupted,
/// the call ends there and comes to the rejection that attempt `k` got, which
/// is no error. This holds for every number of attempts granted that goes
/// beyond `k`, for `k` up to 58.
pub proof fn law_interrupt_returns_rejection<A, R>(
    retry: RetryRpc,
    answers: spec_fn(nat) -> RpcResult<A, R>,
    interrupts: spec_fn(nat) -> bool,
    k: nat,
)
    requires
        retry.wf(),
        retry.spec_attempt() == 1,
        1 <= k < retry.spec_max_attempts(),
        k <= MAX_BACKOFF_ATTEMPT,
        rejected_throughout(answers, interrupts, 1, k),
        is_rejection(answers(k)),
        interrupts(k),
    ensures
        run(retry, answers, interrupts) == ended_at(retry.spec_max_attempts(), answers, k),
        run(retry, answers, interrupts).result == answers(k),
        run(retry, answers, interrupts).result is Ok,
        run(retry, answers, interrupts).attempts == k,
        run(retry, answers, interrupts).sleeps.len() == k,
{
    law_call_ends_at_first_stop(retry, answers, interrupts, k);
}

} // verus!
