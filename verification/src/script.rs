//! A wait as a whole.
//!
//! A script lists, poll by poll, what the outside world did: what the fetch
//! gave, when it returned, and what the cancellation signal read before and
//! after the sleep that followed. [`run`] says how a wait unfolds against a
//! script: its outcome, how often it fetches and how long it sleeps.

use vstd::prelude::*;
use crate::backoff::least;
use crate::waiter::AfterFetch;
use crate::waiter::AfterSleep;
use crate::waiter::Fetched;
use crate::waiter::Fetching;
use crate::waiter::PollOutcome;

verus! {

/// What the outside world did during one poll.
#[derive(Debug, PartialEq, Eq)]
pub struct Round<S, E> {
    /// What the fetch gave.
    pub fetched: Fetched<S, E>,
    /// The time at which the fetch returned, in milliseconds.
    pub now: u64,
    /// The cancellation signal as read before the sleep.
    pub cancelled_before_sleep: bool,
    /// The cancellation signal as read after the sleep.
    pub cancelled_after_sleep: bool,
}

/// How a wait unfolded: the mathematical counterpart of [`Report`].
pub ghost struct Course<S, E> {
    /// The outcome, or `None` if the script ended while the wait went on.
    pub outcome: Option<PollOutcome<S, E>>,
    /// The number of fetches made.
    pub fetches: nat,
    /// The sleeps taken, in order, in milliseconds.
    pub sleeps: Seq<u64>,
}

/// How a wait unfolded against a script.
#[derive(Debug, PartialEq, Eq)]
pub struct Report<S, E> {
    /// The outcome, or `None` if the script ended while the wait went on.
    pub outcome: Option<PollOutcome<S, E>>,
    /// The number of fetches made.
    pub fetches: usize,
    /// The sleeps taken, in order, in milliseconds.
    pub sleeps: Vec<u64>,
}

impl<S, E> View for Report<S, E> {
    type V = Course<S, E>;

    open spec fn view(&self) -> Course<S, E> {
        Course { outcome: self.outcome, fetches: self.fetches as nat, sleeps: self.sleeps@ }
    }
}

impl<S, E> Course<S, E> {
    /// This course, preceded by `fetches` fetches and the sleeps `sleeps`.
    pub open spec fn after(self, fetches: nat, sleeps: Seq<u64>) -> Course<S, E> {
        Course {
            outcome: self.outcome,
            fetches: fetches + self.fetches,
            sleeps: sleeps + self.sleeps,
        }
    }
}

/// How a wait in state `state` unfolds against `rounds`, one round per
/// fetch. Rounds beyond the end of the wait are not looked at.
pub open spec fn run<S, E>(state: Fetching, rounds: Seq<Round<S, E>>) -> Course<S, E>
    decreases rounds.len(),
{
    if rounds.len() == 0 {
        Course { outcome: None, fetches: 0, sleeps: Seq::empty() }
    } else {
        let round = rounds[0];
        match state.spec_fetched(round.fetched, round.now, round.cancelled_before_sleep) {
            AfterFetch::Done(outcome) => Course {
                outcome: Some(outcome),
                fetches: 1,
                sleeps: Seq::empty(),
            },
            AfterFetch::Sleep(sleeping, delay) => match sleeping.spec_woke(
                round.cancelled_after_sleep,
            ) {
                AfterSleep::Cancelled => Course {
                    outcome: Some(PollOutcome::Cancelled),
                    fetches: 1,
                    sleeps: seq![delay],
                },
                AfterSleep::Fetch(next) => run(next, rounds.drop_first()).after(1, seq![delay]),
            },
        }
    }
}

/// The sum of the sleeps.
pub open spec fn time_asleep(sleeps: Seq<u64>) -> int
    decreases sleeps.len(),
{
    if sleeps.len() == 0 {
        0
    } else {
        time_asleep(sleeps.drop_last()) + sleeps.last()
    }
}

/// Adds up the sleeps of a wait, in milliseconds. A sum beyond the largest
/// number is given as that number.
pub fn time_slept(sleeps: &Vec<u64>) -> (total: u64)
    ensures
        total == least(time_asleep(sleeps@), u64::MAX as int),
{
    let mut total: u64 = 0;
    let mut i: usize = 0;
    while i < sleeps.len()
        invariant
            i <= sleeps.len(),
            total == least(time_asleep(sleeps@.take(i as int)), u64::MAX as int),
            time_asleep(sleeps@.take(i as int)) >= 0,
        decreases sleeps.len() - i,
    {
        proof {
            let next = sleeps@.take(i + 1);
            assert(next.drop_last() =~= sleeps@.take(i as int));
            assert(next.last() == sleeps@[i as int]);
        }
        total = total.saturating_add(sleeps[i]);
        i = i + 1;
    }
    assert(sleeps@.take(i as int) =~= sleeps@);
    total
}

} // verus!
