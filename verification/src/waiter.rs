//! The resource readiness waiter.
//!
//! A waiter polls a remote resource until its status is ready, the resource
//! has failed for good, a deadline passes, the transport gives up, or the
//! caller cancels. The waiter itself performs no remote call and never
//! sleeps: it decides. The caller fetches the status, reads the clock and
//! the cancellation signal, sleeps, and reports back:
//!
//! 1. [`begin`] yields a [`Fetching`] state: fetch the status now.
//! 2. [`Fetching::fetched`] takes what the fetch gave and either ends the
//!    wait with a [`PollOutcome`] or yields a [`Sleeping`] state together
//!    with the time to sleep.
//! 3. [`Sleeping::woke`] either ends the wait (cancelled) or yields the next
//!    [`Fetching`] state.
//!
//! Times are milliseconds on a monotonic clock of the caller's choice.

use vstd::prelude::*;
use crate::backoff::Backoff;

verus! {

/// Number of consecutive transient fetch failures that a waiter tolerates
/// unless the request says otherwise.
pub const DEFAULT_TRANSIENT_FAILURES: u64 = 5;

/// How one wait ended. Exactly one outcome is produced per wait.
#[derive(Debug, PartialEq, Eq)]
pub enum PollOutcome<S, E> {
    /// The resource reported a status that satisfies the readiness predicate.
    Ready(S),
    /// The deadline would have passed before the next poll.
    TimedOut,
    /// The resource reported a status from which it cannot become ready.
    TerminalFailure(S),
    /// The fetch failed for good, or failed transiently too many times in a
    /// row. Carries the cause of the last failure.
    TransportError(E),
    /// The caller cancelled the wait.
    Cancelled,
}

/// What the two predicates say of a fetched status. The terminal-failure
/// predicate is asked first.
#[derive(Clone, Copy, Debug, PartialEq, Eq, Structural)]
pub enum Verdict {
    /// The terminal-failure predicate holds.
    Terminal,
    /// The terminal-failure predicate does not hold and the readiness
    /// predicate does.
    Ready,
    /// Neither predicate holds.
    Pending,
}

/// What one fetch gave.
#[derive(Debug, PartialEq, Eq)]
pub enum Fetched<S, E> {
    /// The fetch succeeded with this status, judged as given.
    Status(S, Verdict),
    /// The fetch failed for a reason unrelated to the resource (network,
    /// throttling); polling may go on.
    Transient(E),
    /// The fetch failed for good.
    Fatal(E),
}

/// The numbers that govern one wait.
#[derive(Clone, Copy, Debug, PartialEq, Eq, Structural)]
pub struct PollRequest {
    /// The wait schedule.
    pub backoff: Backoff,
    /// Absolute time, in milliseconds, before which every sleep must end.
    pub deadline: u64,
    /// Number of consecutive transient fetch failures that are tolerated.
    pub max_transient_failures: u64,
}

/// A wait whose next move is a fetch.
#[derive(Clone, Copy, Debug, PartialEq, Eq, Structural)]
pub struct Fetching {
    /// The request being served.
    pub request: PollRequest,
    /// How long the next sleep will last, in milliseconds.
    pub delay: u64,
    /// How many transient failures the most recent fetches gave in a row.
    pub failures: u64,
}

/// A wait whose next move is the end of a sleep.
#[derive(Clone, Copy, Debug, PartialEq, Eq, Structural)]
pub struct Sleeping {
    /// The state in which polling resumes.
    pub resume: Fetching,
}

/// What follows a fetch.
#[derive(Debug, PartialEq, Eq)]
pub enum AfterFetch<S, E> {
    /// Sleep for the given number of milliseconds, then call
    /// [`Sleeping::woke`].
    Sleep(Sleeping, u64),
    /// The wait is over.
    Done(PollOutcome<S, E>),
}

/// What follows a sleep.
#[derive(Clone, Copy, Debug, PartialEq, Eq, Structural)]
pub enum AfterSleep {
    /// Fetch the status again.
    Fetch(Fetching),
    /// The caller cancelled: the wait is over and its outcome
    /// is [`PollOutcome::Cancelled`].
    Cancelled,
}

impl Verdict {
    /// The verdict for a status, given what each predicate says of it.
    pub open spec fn spec_of(terminal: bool, ready: bool) -> Verdict {
        if terminal {
            Verdict::Terminal
        } else if ready {
            Verdict::Ready
        } else {
            Verdict::Pending
        }
    }

    /// The verdict for a status, given what each predicate says of it.
    pub fn of(terminal: bool, ready: bool) -> (v: Verdict)
        ensures
            v == Verdict::spec_of(terminal, ready),
    {
        if terminal {
            Verdict::Terminal
        } else if ready {
            Verdict::Ready
        } else {
            Verdict::Pending
        }
    }
}

/// Judges a fetched status: asks the terminal-failure predicate first, if
/// there is one, and the readiness predicate only when that one said no.
pub fn judge<S, R: Fn(&S) -> bool, T: Fn(&S) -> bool>(
    status: &S,
    is_ready: R,
    is_terminal_failure: Option<T>,
) -> (v: Verdict)
    requires
        call_requires(is_ready, (status,)),
        is_terminal_failure matches Some(t) ==> call_requires(t, (status,)),
    ensures
        v == Verdict::Terminal ==> (is_terminal_failure matches Some(t) && call_ensures(
            t,
            (status,),
            true,
        )),
        v != Verdict::Terminal ==> (is_terminal_failure matches Some(t) ==> call_ensures(
            t,
            (status,),
            false,
        )),
        v == Verdict::Ready ==> call_ensures(is_ready, (status,), true),
        v == Verdict::Pending ==> call_ensures(is_ready, (status,), false),
{
    let terminal = match is_terminal_failure {
        Some(t) => t(status),
        None => false,
    };
    if terminal {
        Verdict::Terminal
    } else if is_ready(status) {
        Verdict::Ready
    } else {
        Verdict::Pending
    }
}

impl PollRequest {
    /// A request with the given schedule and deadline that tolerates
    /// [`DEFAULT_TRANSIENT_FAILURES`] transient fetch failures in a row.
    pub fn new(backoff: Backoff, deadline: u64) -> (request: PollRequest)
        ensures
            request == (PollRequest {
                backoff,
                deadline,
                max_transient_failures: DEFAULT_TRANSIENT_FAILURES,
            }),
    {
        PollRequest { backoff, deadline, max_transient_failures: DEFAULT_TRANSIENT_FAILURES }
    }

    /// Whether a sleep of `delay` milliseconds that starts at `now` would
    /// last until the deadline or beyond.
    pub open spec fn out_of_time(self, delay: u64, now: u64) -> bool {
        now + delay >= self.deadline
    }

    /// Computes [`Self::out_of_time`].
    pub fn is_out_of_time(&self, delay: u64, now: u64) -> (late: bool)
        ensures
            late == self.out_of_time(delay, now),
    {
        now >= self.deadline || delay >= self.deadline - now
    }
}

/// The state in which every wait for `request` starts.
pub open spec fn spec_begin(request: PollRequest) -> Fetching {
    Fetching { request, delay: request.backoff.initial_delay, failures: 0 }
}

/// Starts a wait. The first move is always a fetch.
pub fn begin(request: PollRequest) -> (state: Fetching)
    ensures
        state == spec_begin(request),
{
    Fetching { request, delay: request.backoff.initial_delay, failures: 0 }
}

impl Fetching {
    /// What follows when the fetch left the resource pending, with
    /// `failures` transient failures in a row so far: cancelled if the
    /// caller says so, timed out if the next sleep would reach the deadline,
    /// else a sleep of the current delay, after which the delay has grown.
    pub open spec fn spec_pause<S, E>(self, failures: u64, now: u64, cancelled: bool) -> AfterFetch<
        S,
        E,
    > {
        if cancelled {
            AfterFetch::Done(PollOutcome::Cancelled)
        } else if self.request.out_of_time(self.delay, now) {
            AfterFetch::Done(PollOutcome::TimedOut)
        } else {
            AfterFetch::Sleep(
                Sleeping {
                    resume: Fetching {
                        request: self.request,
                        delay: self.request.backoff.following(self.delay),
                        failures,
                    },
                },
                self.delay,
            )
        }
    }

    /// What follows a fetch that gave `fetched` and returned at time `now`,
    /// when the cancellation signal reads `cancelled`.
    pub open spec fn spec_fetched<S, E>(self, fetched: Fetched<S, E>, now: u64, cancelled: bool)
        -> AfterFetch<S, E> {
        match fetched {
            Fetched::Fatal(cause) => AfterFetch::Done(PollOutcome::TransportError(cause)),
            Fetched::Transient(cause) => if self.failures >= self.request.max_transient_failures {
                AfterFetch::Done(PollOutcome::TransportError(cause))
            } else {
                self.spec_pause((self.failures + 1) as u64, now, cancelled)
            },
            Fetched::Status(status, Verdict::Terminal) => AfterFetch::Done(
                PollOutcome::TerminalFailure(status),
            ),
            Fetched::Status(status, Verdict::Ready) => AfterFetch::Done(
                PollOutcome::Ready(status),
            ),
            Fetched::Status(_, Verdict::Pending) => self.spec_pause(0, now, cancelled),
        }
    }

    fn pause<S, E>(self, failures: u64, now: u64, cancelled: bool) -> (next: AfterFetch<S, E>)
        ensures
            next == self.spec_pause::<S, E>(failures, now, cancelled),
    {
        if cancelled {
            AfterFetch::Done(PollOutcome::Cancelled)
        } else if self.request.is_out_of_time(self.delay, now) {
            AfterFetch::Done(PollOutcome::TimedOut)
        } else {
            let delay = self.request.backoff.next_delay(self.delay);
            AfterFetch::Sleep(
                Sleeping { resume: Fetching { request: self.request, delay, failures } },
                self.delay,
            )
        }
    }

    /// Decides what follows a fetch.
    ///
    /// `fetched` is what the fetch gave, `now` the time at which it returned
    /// and `cancelled` the cancellation signal read at that time.
    ///
    /// A fatal failure, or a transient one after `max_transient_failures`
    /// transient failures in a row, ends the wait with the cause. A terminal
    /// status ends it, then a ready one. Otherwise the resource is pending:
    /// the wait ends as cancelled or timed out, or goes on with a sleep that
    /// ends before the deadline.
    pub fn fetched<S, E>(self, fetched: Fetched<S, E>, now: u64, cancelled: bool) -> (next:
        AfterFetch<S, E>)
        ensures
            next == self.spec_fetched(fetched, now, cancelled),
            next matches AfterFetch::Sleep(_, delay) ==> now + delay < self.request.deadline,
    {
        match fetched {
            Fetched::Fatal(cause) => AfterFetch::Done(PollOutcome::TransportError(cause)),
            Fetched::Transient(cause) => {
                if self.failures >= self.request.max_transient_failures {
                    AfterFetch::Done(PollOutcome::TransportError(cause))
                } else {
                    self.pause(self.failures + 1, now, cancelled)
                }
            },
            Fetched::Status(status, Verdict::Terminal) => AfterFetch::Done(
                PollOutcome::TerminalFailure(status),
            ),
            Fetched::Status(status, Verdict::Ready) => AfterFetch::Done(
                PollOutcome::Ready(status),
            ),
            Fetched::Status(_, Verdict::Pending) => self.pause(0, now, cancelled),
        }
    }
}

impl Sleeping {
    /// What follows a sleep, when the cancellation signal reads `cancelled`.
    pub open spec fn spec_woke(self, cancelled: bool) -> AfterSleep {
        if cancelled {
            AfterSleep::Cancelled
        } else {
            AfterSleep::Fetch(self.resume)
        }
    }

    /// Decides what follows a sleep: nothing more if the caller cancelled
    /// meanwhile, else the next fetch.
    pub fn woke(self, cancelled: bool) -> (next: AfterSleep)
        ensures
            next == self.spec_woke(cancelled),
    {
        if cancelled {
            AfterSleep::Cancelled
        } else {
            AfterSleep::Fetch(self.resume)
        }
    }
}

} // verus!
