//! What holds of every wait, stated over [`run`] and proved.

use vstd::prelude::*;
use crate::script::Course;
use crate::script::Round;
use crate::script::run;
use crate::waiter::AfterFetch;
use crate::waiter::AfterSleep;
use crate::waiter::Fetched;
use crate::waiter::Fetching;
use crate::waiter::PollOutcome;
use crate::waiter::PollRequest;
use crate::waiter::Verdict;
use crate::waiter::spec_begin;

verus! {

/// The state of a wait for `request` that has slept `polls` times and has
/// seen `failures` transient failures in a row.
pub open spec fn polling(request: PollRequest, polls: nat, failures: u64) -> Fetching {
    Fetching { request, delay: request.backoff.nth_delay(polls), failures }
}

/// The state in which polling goes on after `rounds`, or `None` if one of
/// them ends the wait.
pub open spec fn carry_on<S, E>(state: Fetching, rounds: Seq<Round<S, E>>) -> Option<Fetching>
    decreases rounds.len(),
{
    if rounds.len() == 0 {
        Some(state)
    } else {
        let round = rounds[0];
        match state.spec_fetched(round.fetched, round.now, round.cancelled_before_sleep) {
            AfterFetch::Done(_) => None,
            AfterFetch::Sleep(sleeping, _) => match sleeping.spec_woke(
                round.cancelled_after_sleep,
            ) {
                AfterSleep::Cancelled => None,
                AfterSleep::Fetch(next) => carry_on(next, rounds.drop_first()),
            },
        }
    }
}

/// Whether a fetch leaves a wait in state `state` undecided: the status is
/// pending, or the failure is transient and still tolerated.
pub open spec fn undecided<S, E>(state: Fetching, fetched: Fetched<S, E>) -> bool {
    match fetched {
        Fetched::Status(_, Verdict::Pending) => true,
        Fetched::Transient(_) => state.failures < state.request.max_transient_failures,
        _ => false,
    }
}

/// Whether the fetch of a round failed transiently.
pub open spec fn transient<S, E>(round: Round<S, E>) -> bool {
    round.fetched is Transient
}

/// Whether the `polls`-th round of a wait for `request` lets the wait sleep
/// in peace: nobody cancels, and the sleep ends before the deadline.
pub open spec fn calm<S, E>(request: PollRequest, polls: nat, round: Round<S, E>) -> bool {
    &&& !round.cancelled_before_sleep
    &&& !round.cancelled_after_sleep
    &&& !request.out_of_time(request.backoff.nth_delay(polls), round.now)
}

/// The waits number `base`, `base + 1`, ..., `base + n - 1` of the schedule.
pub open spec fn delays_from(request: PollRequest, base: nat, n: nat) -> Seq<u64> {
    Seq::new(n, |k: int| request.backoff.nth_delay(base + k as nat))
}

/// A script can be run in two parts: if the first part does not end the
/// wait, the whole script unfolds as the second part does from the state
/// that the first part leaves, after the fetches and sleeps of the first.
pub proof fn law_run_in_two_parts<S, E>(
    state: Fetching,
    first: Seq<Round<S, E>>,
    second: Seq<Round<S, E>>,
)
    requires
        carry_on(state, first) is Some,
    ensures
        run(state, first).outcome is None,
        run(state, first).fetches == first.len(),
        run(state, first).sleeps.len() == first.len(),
        run(state, first + second) == run(carry_on(state, first)->0, second).after(
            first.len(),
            run(state, first).sleeps,
        ),
    decreases first.len(),
{
    if first.len() == 0 {
        assert(first + second =~= second);
        assert(Seq::<u64>::empty() + run(state, second).sleeps =~= run(state, second).sleeps);
    } else {
        let round = first[0];
        let whole = first + second;
        assert(whole[0] == round);
        assert(whole.drop_first() =~= first.drop_first() + second);
        match state.spec_fetched(round.fetched, round.now, round.cancelled_before_sleep) {
            AfterFetch::Done(_) => {},
            AfterFetch::Sleep(sleeping, delay) => match sleeping.spec_woke(
                round.cancelled_after_sleep,
            ) {
                AfterSleep::Cancelled => {},
                AfterSleep::Fetch(next) => {
                    law_run_in_two_parts(next, first.drop_first(), second);
                    let mid = carry_on(next, first.drop_first())->0;
                    let tail = run(next, first.drop_first()).sleeps;
                    assert(seq![delay] + (tail + run(mid, second).sleeps) =~= (seq![delay] + tail)
                        + run(mid, second).sleeps);
                },
            },
        }
    }
}

/// While polling goes on, the sleeps follow the schedule: after `n` rounds
/// from the `base`-th poll the wait has slept the waits `base` to
/// `base + n - 1`, and its next sleep is wait number `base + n`.
pub proof fn law_sleeps_follow_schedule<S, E>(
    request: PollRequest,
    base: nat,
    failures: u64,
    rounds: Seq<Round<S, E>>,
)
    requires
        carry_on(polling(request, base, failures), rounds) is Some,
    ensures
        carry_on(polling(request, base, failures), rounds)->0.request == request,
        carry_on(polling(request, base, failures), rounds)->0.delay == request.backoff.nth_delay(
            base + rounds.len(),
        ),
        run(polling(request, base, failures), rounds).sleeps == delays_from(
            request,
            base,
            rounds.len(),
        ),
    decreases rounds.len(),
{
    let state = polling(request, base, failures);
    if rounds.len() == 0 {
        assert(run(state, rounds).sleeps =~= delays_from(request, base, 0));
    } else {
        let round = rounds[0];
        match state.spec_fetched(round.fetched, round.now, round.cancelled_before_sleep) {
            AfterFetch::Done(_) => {},
            AfterFetch::Sleep(sleeping, delay) => match sleeping.spec_woke(
                round.cancelled_after_sleep,
            ) {
                AfterSleep::Cancelled => {},
                AfterSleep::Fetch(next) => {
                    assert(next == polling(request, base + 1, next.failures));
                    law_sleeps_follow_schedule(request, base + 1, next.failures, rounds.drop_first());
                    assert(seq![delay] + delays_from(
                        request,
                        base + 1,
                        rounds.drop_first().len(),
                    ) =~= delays_from(request, base, rounds.len()));
                },
            },
        }
    }
}

/// A status that is ready at the first fetch, and not a terminal failure,
/// ends the wait as ready after exactly one fetch and no sleep, whatever
/// the script holds further on.
pub proof fn law_ready_at_once<S, E>(
    request: PollRequest,
    rounds: Seq<Round<S, E>>,
    status: S,
    terminal: bool,
    ready: bool,
)
    requires
        ready,
        !terminal,
        rounds.len() > 0,
        rounds[0].fetched == Fetched::<S, E>::Status(status, Verdict::spec_of(terminal, ready)),
    ensures
        run(spec_begin(request), rounds) == (Course {
            outcome: Some(PollOutcome::<S, E>::Ready(status)),
            fetches: 1,
            sleeps: Seq::empty(),
        }),
{
}

/// A status that is a terminal failure and comes while polling still goes
/// on, so that no status before it was ready, ends the wait as a terminal
/// failure with that status, ready or not, and no fetch follows it.
pub proof fn law_terminal_failure_ends_wait<S, E>(
    request: PollRequest,
    before: Seq<Round<S, E>>,
    after: Seq<Round<S, E>>,
    status: S,
    ready: bool,
)
    requires
        carry_on(spec_begin(request), before) is Some,
        after.len() > 0,
        after[0].fetched == Fetched::<S, E>::Status(status, Verdict::spec_of(true, ready)),
    ensures
        run(spec_begin(request), before + after).outcome == Some(
            PollOutcome::<S, E>::TerminalFailure(status),
        ),
        run(spec_begin(request), before + after).fetches == before.len() + 1,
{
    law_run_in_two_parts(spec_begin(request), before, after);
}

/// If the first fetch, which returns at or after `start`, leaves the
/// resource pending, and the first wait of the schedule is at least as long
/// as the time from `start` to the deadline, the wait times out at once:
/// one fetch, no sleep.
pub proof fn law_short_deadline_times_out<S, E>(
    request: PollRequest,
    start: u64,
    rounds: Seq<Round<S, E>>,
)
    requires
        rounds.len() > 0,
        rounds[0].fetched matches Fetched::Status(_, Verdict::Pending),
        !rounds[0].cancelled_before_sleep,
        start <= rounds[0].now,
        start + request.backoff.initial_delay >= request.deadline,
    ensures
        run(spec_begin(request), rounds) == (Course {
            outcome: Some(PollOutcome::<S, E>::TimedOut),
            fetches: 1,
            sleeps: Seq::empty(),
        }),
{
}

/// Cancelling while polling goes on ends the wait as cancelled without a
/// further fetch: whether the signal is seen before the sleep that follows
/// an undecided fetch, or after that sleep.
pub proof fn law_cancel_stops_polling<S, E>(
    request: PollRequest,
    before: Seq<Round<S, E>>,
    after: Seq<Round<S, E>>,
)
    requires
        carry_on(spec_begin(request), before) matches Some(state) && after.len() > 0 && undecided(
            state,
            after[0].fetched,
        ) && (after[0].cancelled_before_sleep || (after[0].cancelled_after_sleep
            && !request.out_of_time(state.delay, after[0].now))),
    ensures
        run(spec_begin(request), before + after).outcome == Some(PollOutcome::<S, E>::Cancelled),
        run(spec_begin(request), before + after).fetches == before.len() + 1,
{
    law_run_in_two_parts(spec_begin(request), before, after);
    law_sleeps_follow_schedule(request, 0, 0, before);
}

/// A streak of tolerated transient failures, each followed by a sleep in
/// peace, leaves the wait polling with the failures counted.
pub proof fn law_transient_failures_are_absorbed<S, E>(
    request: PollRequest,
    base: nat,
    failures: u64,
    rounds: Seq<Round<S, E>>,
)
    requires
        failures + rounds.len() <= request.max_transient_failures,
        forall|j: int|
            0 <= j < rounds.len() ==> transient(#[trigger] rounds[j]) && calm(
                request,
                base + j as nat,
                rounds[j],
            ),
    ensures
        carry_on(polling(request, base, failures), rounds) == Some(
            polling(request, base + rounds.len(), (failures + rounds.len()) as u64),
        ),
    decreases rounds.len(),
{
    if rounds.len() > 0 {
        let rest = rounds.drop_first();
        assert(transient(rounds[0]) && calm(request, base, rounds[0]));
        assert forall|j: int| 0 <= j < rest.len() implies transient(#[trigger] rest[j]) && calm(
            request,
            (base + 1) + j as nat,
            rest[j],
        ) by {
            assert(rest[j] == rounds[j + 1]);
        }
        law_transient_failures_are_absorbed(request, base + 1, (failures + 1) as u64, rest);
    }
}

/// After a streak of tolerated transient failures from the start, each
/// followed by a sleep in peace, the wait goes on with the rest of the
/// script, one fetch per failure made, the sleeps of the schedule taken
/// and the failures counted.
proof fn lemma_course_after_failures<S, E>(
    request: PollRequest,
    failing: Seq<Round<S, E>>,
    after: Seq<Round<S, E>>,
)
    requires
        failing.len() <= request.max_transient_failures,
        forall|j: int|
            0 <= j < failing.len() ==> transient(#[trigger] failing[j]) && calm(
                request,
                j as nat,
                failing[j],
            ),
    ensures
        run(spec_begin(request), failing + after) == run(
            polling(request, failing.len(), failing.len() as u64),
            after,
        ).after(failing.len(), request.backoff.delays(failing.len())),
{
    law_transient_failures_are_absorbed(request, 0, 0, failing);
    law_run_in_two_parts(spec_begin(request), failing, after);
    law_sleeps_follow_schedule(request, 0, 0, failing);
    assert(delays_from(request, 0, failing.len()) =~= request.backoff.delays(failing.len()));
}

/// Transient failures in a row, no more than the bound and each followed by
/// a sleep in peace, and then a ready status: the wait ends as ready, with
/// one fetch per failure and one more, and the sleeps of the schedule.
pub proof fn law_ready_after_transient_failures<S, E>(
    request: PollRequest,
    failing: Seq<Round<S, E>>,
    after: Seq<Round<S, E>>,
    status: S,
)
    requires
        failing.len() <= request.max_transient_failures,
        forall|j: int|
            0 <= j < failing.len() ==> transient(#[trigger] failing[j]) && calm(
                request,
                j as nat,
                failing[j],
            ),
        after.len() > 0,
        after[0].fetched == Fetched::<S, E>::Status(status, Verdict::Ready),
    ensures
        run(spec_begin(request), failing + after) == (Course {
            outcome: Some(PollOutcome::<S, E>::Ready(status)),
            fetches: failing.len() + 1,
            sleeps: request.backoff.delays(failing.len()),
        }),
{
    lemma_course_after_failures(request, failing, after);
}

/// One transient failure more than the bound, in a row and with every sleep
/// in between taken in peace: the wait ends as a transport error that
/// carries the cause of the last failure, right after that failure.
pub proof fn law_too_many_transient_failures<S, E>(
    request: PollRequest,
    failing: Seq<Round<S, E>>,
    after: Seq<Round<S, E>>,
    cause: E,
)
    requires
        failing.len() == request.max_transient_failures,
        forall|j: int|
            0 <= j < failing.len() ==> transient(#[trigger] failing[j]) && calm(
                request,
                j as nat,
                failing[j],
            ),
        after.len() > 0,
        after[0].fetched == Fetched::<S, E>::Transient(cause),
    ensures
        run(spec_begin(request), failing + after) == (Course {
            outcome: Some(PollOutcome::<S, E>::TransportError(cause)),
            fetches: failing.len() + 1,
            sleeps: request.backoff.delays(failing.len()),
        }),
{
    lemma_course_after_failures(request, failing, after);
}

/// No sleep reaches the deadline: each sleep of a wait, begun when the
/// fetch before it returned, ends before the deadline of the request.
pub proof fn law_sleeps_end_before_deadline<S, E>(
    state: Fetching,
    rounds: Seq<Round<S, E>>,
    i: int,
)
    requires
        0 <= i < run(state, rounds).sleeps.len(),
    ensures
        i < rounds.len(),
        rounds[i].now + run(state, rounds).sleeps[i] < state.request.deadline,
    decreases rounds.len(),
{
    if rounds.len() > 0 {
        let round = rounds[0];
        match state.spec_fetched(round.fetched, round.now, round.cancelled_before_sleep) {
            AfterFetch::Done(_) => {},
            AfterFetch::Sleep(sleeping, delay) => match sleeping.spec_woke(
                round.cancelled_after_sleep,
            ) {
                AfterSleep::Cancelled => {},
                AfterSleep::Fetch(next) => {
                    if i > 0 {
                        law_sleeps_end_before_deadline(next, rounds.drop_first(), i - 1);
                    }
                },
            },
        }
    }
}

/// A wait makes one fetch per round that it looks at and at most one sleep
/// per fetch. It fetches at least once, and it stays without an outcome
/// only if it has looked at every round of the script.
pub proof fn law_course_is_bounded<S, E>(state: Fetching, rounds: Seq<Round<S, E>>)
    ensures
        run(state, rounds).fetches <= rounds.len(),
        run(state, rounds).sleeps.len() <= run(state, rounds).fetches,
        run(state, rounds).outcome is None ==> run(state, rounds).fetches == rounds.len(),
        rounds.len() > 0 ==> run(state, rounds).fetches >= 1,
    decreases rounds.len(),
{
    if rounds.len() > 0 {
        let round = rounds[0];
        match state.spec_fetched(round.fetched, round.now, round.cancelled_before_sleep) {
            AfterFetch::Done(_) => {},
            AfterFetch::Sleep(sleeping, _) => match sleeping.spec_woke(
                round.cancelled_after_sleep,
            ) {
                AfterSleep::Cancelled => {},
                AfterSleep::Fetch(next) => {
                    law_course_is_bounded(next, rounds.drop_first());
                },
            },
        }
    }
}

} // verus!
