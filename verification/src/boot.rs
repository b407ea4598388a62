//! Waiting for an enclave to boot.
//!
//! The enclave has booted once it answers a request at all. The caller polls
//! it with a request that asks nothing of it, sleeps 100 ms after a poll that
//! got no answer, and gives up when the time allowed has passed or a sleep is
//! interrupted.

use vstd::prelude::*;
use crate::schema::{ApiRequest, RpcResult};

verus! {

/// The sleep between two polls, in milliseconds.
pub const BOOT_POLL_INTERVAL_MS: u64 = 100;

/// The wait for one enclave to boot.
#[derive(Debug, Clone, Copy, PartialEq, Eq)]
pub struct BootMonitor {
    /// The time allowed, in milliseconds.
    pub timeout_ms: u64,
}

/// What the caller is to do next.
#[derive(Debug, Clone, Copy, PartialEq, Eq, Structural)]
pub enum BootStep {
    /// Read the time that has passed since the wait began.
    ReadClock,
    /// Make the one call that the handle gives as its boot poll: the
    /// request of [`BootMonitor::request`], sent to the enclave's RPC
    /// endpoint.
    Poll,
    /// Sleep this many milliseconds.
    Sleep { millis: u64 },
    /// Stop: the enclave has booted, or the wait is given up.
    Done { booted: bool },
}

impl BootMonitor {
    /// What follows a look at the clock that read `elapsed_ms`.
    pub open spec fn spec_on_clock(&self, elapsed_ms: u64) -> BootStep {
        if elapsed_ms < self.timeout_ms {
            BootStep::Poll
        } else {
            BootStep::Done { booted: false }
        }
    }

    /// What follows a poll that came to `outcome`.
    pub open spec fn spec_on_poll<A, R>(&self, outcome: RpcResult<A, R>) -> BootStep {
        if outcome is Ok {
            BootStep::Done { booted: true }
        } else {
            BootStep::Sleep { millis: BOOT_POLL_INTERVAL_MS }
        }
    }

    /// What follows a sleep.
    pub open spec fn spec_on_wake(&self, interrupted: bool) -> BootStep {
        if interrupted {
            BootStep::Done { booted: false }
        } else {
            BootStep::ReadClock
        }
    }

    /// How a wait begins: with a look at the clock.
    pub fn begin(&self) -> (step: BootStep)
        ensures
            step == BootStep::ReadClock,
    {
        BootStep::ReadClock
    }

    /// The request to poll with. It asks the service to describe itself and
    /// changes nothing.
    pub fn request<T, K>(&self) -> (request: ApiRequest<T, K>)
        ensures
            request == ApiRequest::<T, K>::DescribeDevice,
    {
        ApiRequest::DescribeDevice
    }

    /// Takes the time that has passed since the wait began, in milliseconds.
    /// While it is less than the time allowed, a poll is due; after that the
    /// wait is given up.
    pub fn on_clock(&self, elapsed_ms: u64) -> (step: BootStep)
        ensures
            step == self.spec_on_clock(elapsed_ms),
    {
        if elapsed_ms < self.timeout_ms {
            BootStep::Poll
        } else {
            BootStep::Done { booted: false }
        }
    }

    /// Takes what a poll came to. Any answer means that the enclave has
    /// booted, whether it accepts or rejects the request. Any failure of the
    /// channel means that it has not, yet: a sleep is due.
    pub fn on_poll<A, R>(&self, outcome: &RpcResult<A, R>) -> (step: BootStep)
        ensures
            step == self.spec_on_poll(*outcome),
    {
        match outcome {
            Ok(_) => BootStep::Done { booted: true },
            Err(_) => BootStep::Sleep { millis: BOOT_POLL_INTERVAL_MS },
        }
    }

    /// Takes how a sleep ended. An interrupted sleep gives the wait up at
    /// once; after a full sleep the clock is read again.
    pub fn on_wake(&self, interrupted: bool) -> (step: BootStep)
        ensures
            step == self.spec_on_wake(interrupted),
    {
        if interrupted {
            BootStep::Done { booted: false }
        } else {
            BootStep::ReadClock
        }
    }
}

/// What a wait meets, round by round. A round is a look at the clock, the
/// poll that follows it, and the sleep after the poll.
pub struct Rounds<A, R> {
    /// The time that the clock shows in round `k`, as milliseconds since the
    /// wait began.
    pub clock: spec_fn(nat) -> u64,
    /// What the poll of round `k` comes to.
    pub answers: spec_fn(nat) -> RpcResult<A, R>,
    /// Whether the sleep of round `k` is interrupted.
    pub interrupts: spec_fn(nat) -> bool,
}

/// A wait, seen from one step on.
pub struct Watch {
    /// How the wait ended: `Some(true)` if the enclave was found booted,
    /// `Some(false)` if the wait was given up, `None` if it has not ended.
    pub booted: Option<bool>,
    /// How many polls were made.
    pub polls: nat,
    /// The sleeps that were begun, in order, each in milliseconds.
    pub sleeps: Seq<nat>,
}

/// The wait of a caller who does as told: they do what `step` says, hand what
/// came of it to the function of `monitor` that takes it, and do what that
/// says, until they are told to stop or have taken `steps` steps.
///
/// `round` is the round that `step` belongs to. Rounds are counted from one.
pub open spec fn watch<A, R>(
    monitor: BootMonitor,
    rounds: Rounds<A, R>,
    step: BootStep,
    round: nat,
    steps: nat,
) -> Watch
    decreases steps,
{
    if steps == 0 {
        Watch { booted: None, polls: 0, sleeps: Seq::empty() }
    } else {
        match step {
            BootStep::Done { booted } => Watch {
                booted: Some(booted),
                polls: 0,
                sleeps: Seq::empty(),
            },
            BootStep::ReadClock => watch(
                monitor,
                rounds,
                monitor.spec_on_clock((rounds.clock)(round)),
                round,
                (steps - 1) as nat,
            ),
            BootStep::Poll => {
                let rest = watch(
                    monitor,
                    rounds,
                    monitor.spec_on_poll((rounds.answers)(round)),
                    round,
                    (steps - 1) as nat,
                );
                Watch { booted: rest.booted, polls: 1 + rest.polls, sleeps: rest.sleeps }
            },
            BootStep::Sleep { millis } => {
                let rest = watch(
                    monitor,
                    rounds,
                    monitor.spec_on_wake((rounds.interrupts)(round)),
                    round + 1,
                    (steps - 1) as nat,
                );
                Watch {
                    booted: rest.booted,
                    polls: rest.polls,
                    sleeps: seq![millis as nat] + rest.sleeps,
                }
            },
        }
    }
}

/// Whether round `k` passes without an end to the wait: the time allowed has
/// not passed, the poll gets no answer, and the sleep is a full one.
pub open spec fn quiet_at<A, R>(monitor: BootMonitor, rounds: Rounds<A, R>, k: nat) -> bool {
    &&& (rounds.clock)(k) < monitor.timeout_ms
    &&& (rounds.answers)(k) is Err
    &&& !(rounds.interrupts)(k)
}

/// Whether the rounds from `first` up to but not including `last` all pass
/// without an end to the wait.
pub open spec fn quiet_throughout<A, R>(
    monitor: BootMonitor,
    rounds: Rounds<A, R>,
    first: nat,
    last: nat,
) -> bool {
    forall|k: nat| first <= k < last ==> #[trigger] quiet_at(monitor, rounds, k)
}

proof fn lemma_watch_passes_quiet_rounds<A, R>(
    monitor: BootMonitor,
    rounds: Rounds<A, R>,
    first: nat,
    last: nat,
    steps: nat,
)
    requires
        first <= last,
        quiet_throughout(monitor, rounds, first, last),
        steps >= 3 * (last - first),
    ensures
        watch(monitor, rounds, BootStep::ReadClock, first, steps).booted == watch(
            monitor,
            rounds,
            BootStep::ReadClock,
            last,
            (steps - 3 * (last - first)) as nat,
        ).booted,
        watch(monitor, rounds, BootStep::ReadClock, first, steps).polls == (last - first) + watch(
            monitor,
            rounds,
            BootStep::ReadClock,
            last,
            (steps - 3 * (last - first)) as nat,
        ).polls,
        watch(monitor, rounds, BootStep::ReadClock, first, steps).sleeps.len() == (last - first)
            + watch(
            monitor,
            rounds,
            BootStep::ReadClock,
            last,
            (steps - 3 * (last - first)) as nat,
        ).sleeps.len(),
    decreases last - first,
{
    if first < last {
        assert(quiet_at(monitor, rounds, first));
        reveal_with_fuel(watch, 4);
        lemma_watch_passes_quiet_rounds(monitor, rounds, first + 1, last, (steps - 3) as nat);
    }
}

/// The wait ends with `true` at the first poll that gets an answer, whether
/// the answer accepts or rejects the request: if the rounds before round `k`
/// pass without an answer, and in round `k` the time allowed has not passed
/// and the poll is answered, then the enclave is found booted after `k`
/// polls and `k - 1` sleeps.
pub proof fn law_first_answer_ends_wait<A, R>(
    monitor: BootMonitor,
    rounds: Rounds<A, R>,
    k: nat,
    steps: nat,
)
    requires
        1 <= k,
        steps >= 3 * k,
        quiet_throughout(monitor, rounds, 1, k),
        (rounds.clock)(k) < monitor.timeout_ms,
        (rounds.answers)(k) is Ok,
    ensures
        watch(monitor, rounds, BootStep::ReadClock, 1, steps).booted == Some(true),
        watch(monitor, rounds, BootStep::ReadClock, 1, steps).polls == k,
        watch(monitor, rounds, BootStep::ReadClock, 1, steps).sleeps.len() == k - 1,
{
    lemma_watch_passes_quiet_rounds(monitor, rounds, 1, k, steps);
    reveal_with_fuel(watch, 4);
}

/// The wait ends with `false` once the time allowed has passed without an
/// answer: if the rounds before round `k` pass without an answer, and in
/// round `k` the clock shows that the time allowed has passed, then the wait
/// is given up without another poll.
pub proof fn law_timeout_ends_wait<A, R>(
    monitor: BootMonitor,
    rounds: Rounds<A, R>,
    k: nat,
    steps: nat,
)
    requires
        1 <= k,
        steps >= 3 * k,
        quiet_throughout(monitor, rounds, 1, k),
        (rounds.clock)(k) >= monitor.timeout_ms,
    ensures
        watch(monitor, rounds, BootStep::ReadClock, 1, steps).booted == Some(false),
        watch(monitor, rounds, BootStep::ReadClock, 1, steps).polls == k - 1,
        watch(monitor, rounds, BootStep::ReadClock, 1, steps).sleeps.len() == k - 1,
{
    lemma_watch_passes_quiet_rounds(monitor, rounds, 1, k, steps);
    reveal_with_fuel(watch, 4);
}

/// The wait ends with `false` at the first sleep that is interrupted: if the
/// rounds before round `k` pass without an answer, and in round `k` the poll
/// gets no answer and the sleep after it is interrupted, then the wait is
/// given up there, without another look at the clock.
pub proof fn law_interrupt_ends_wait<A, R>(
    monitor: BootMonitor,
    rounds: Rounds<A, R>,
    k: nat,
    steps: nat,
)
    requires
        1 <= k,
        steps >= 3 * k + 1,
        quiet_throughout(monitor, rounds, 1, k),
        (rounds.clock)(k) < monitor.timeout_ms,
        (rounds.answers)(k) is Err,
        (rounds.interrupts)(k),
    ensures
        watch(monitor, rounds, BootStep::ReadClock, 1, steps).booted == Some(false),
        watch(monitor, rounds, BootStep::ReadClock, 1, steps).polls == k,
        watch(monitor, rounds, BootStep::ReadClock, 1, steps).sleeps.len() == k,
{
    lemma_watch_passes_quiet_rounds(monitor, rounds, 1, k, steps);
    reveal_with_fuel(watch, 5);
}

/// Whatever the wait meets and however long it is watched, two polls are
/// never made without a sleep between them, and every sleep is 100 ms.
pub proof fn law_polls_are_paced<A, R>(
    monitor: BootMonitor,
    rounds: Rounds<A, R>,
    round: nat,
    steps: nat,
)
    ensures
        watch(monitor, rounds, BootStep::ReadClock, round, steps).polls <= watch(
            monitor,
            rounds,
            BootStep::ReadClock,
            round,
            steps,
        ).sleeps.len() + 1,
        forall|i: int|
            0 <= i < watch(monitor, rounds, BootStep::ReadClock, round, steps).sleeps.len()
                ==> #[trigger] watch(monitor, rounds, BootStep::ReadClock, round, steps).sleeps[i]
                == 100,
    decreases steps,
{
    reveal_with_fuel(watch, 4);
    if steps >= 4 && quiet_at(monitor, rounds, round) {
        law_polls_are_paced(monitor, rounds, round + 1, (steps - 3) as nat);
        let rest = watch(monitor, rounds, BootStep::ReadClock, round + 1, (steps - 3) as nat);
        let whole = watch(monitor, rounds, BootStep::ReadClock, round, steps);
        assert(whole.sleeps =~= seq![100nat] + rest.sleeps);
        assert forall|i: int| 0 <= i < whole.sleeps.len() implies #[trigger] whole.sleeps[i]
            == 100 by {
            if i > 0 {
                assert(whole.sleeps[i] == rest.sleeps[i - 1]);
            }
        }
    }
}

/// Whether the clock of round `k` shows at least the time that the sleeps
/// before it asked for: 100 ms for each round before `k`.
pub open spec fn keeps_pace<A, R>(rounds: Rounds<A, R>, k: nat) -> bool {
    (rounds.clock)(k) >= BOOT_POLL_INTERVAL_MS * (k - 1)
}

proof fn lemma_last_poll_is_in_time<A, R>(
    monitor: BootMonitor,
    rounds: Rounds<A, R>,
    round: nat,
    steps: nat,
)
    ensures
        watch(monitor, rounds, BootStep::ReadClock, round, steps).polls == 0 || (rounds.clock)(
            (round + watch(monitor, rounds, BootStep::ReadClock, round, steps).polls - 1) as nat,
        ) < monitor.timeout_ms,
    decreases steps,
{
    reveal_with_fuel(watch, 4);
    if steps >= 4 && quiet_at(monitor, rounds, round) {
        lemma_last_poll_is_in_time(monitor, rounds, round + 1, (steps - 3) as nat);
    }
}

/// Where every sleep before a poll takes at least the 100 ms it was to take,
/// the wait makes no more polls than the time allowed holds spans of 100 ms,
/// a begun span counted as one: the last poll is made less than the time
/// allowed after the wait began.
pub proof fn law_polls_within_timeout<A, R>(
    monitor: BootMonitor,
    rounds: Rounds<A, R>,
    steps: nat,
)
    requires
        forall|k: nat|
            1 <= k <= watch(monitor, rounds, BootStep::ReadClock, 1, steps).polls
                ==> #[trigger] keeps_pace(rounds, k),
    ensures
        watch(monitor, rounds, BootStep::ReadClock, 1, steps).polls == 0 || 100 * (watch(
            monitor,
            rounds,
            BootStep::ReadClock,
            1,
            steps,
        ).polls - 1) < monitor.timeout_ms,
{
    lemma_last_poll_is_in_time(monitor, rounds, 1, steps);
    let polls = watch(monitor, rounds, BootStep::ReadClock, 1, steps).polls;
    if polls > 0 {
        assert(keeps_pace(rounds, polls));
    }
}

} // verus!
