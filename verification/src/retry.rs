//! Retry classification while a table is being created.
//!
//! A request that describes a table is retried every second for as long as
//! the table reports that it is being created. Whatever the underlying
//! policy wants retried is retried as that policy says.

use vstd::prelude::*;
use crate::waiter::Fetched;
use crate::waiter::Verdict;

verus! {

/// Why a request failed in a way that is worth a retry.
#[derive(Clone, Copy, Debug, PartialEq, Eq, Structural)]
pub enum ErrorKind {
    /// A connection-level failure.
    TransientError,
    /// The service asked the client to slow down.
    ThrottlingError,
    /// The service failed on its side.
    ServerError,
    /// The client has to do something first, such as answer a challenge.
    ClientError,
}

/// How a response may be retried.
#[derive(Clone, Copy, Debug, PartialEq, Eq, Structural)]
pub enum RetryKind {
    /// Retry because of a known kind of error.
    Error(ErrorKind),
    /// Retry after this many milliseconds.
    Explicit(u64),
    /// Do not retry.
    NotRetryable,
}

/// The state of a table.
#[derive(Clone, Copy, Debug, PartialEq, Eq, Structural)]
pub enum TableStatus {
    Active,
    Archived,
    Archiving,
    Creating,
    Deleting,
    InaccessibleEncryptionCredentials,
    Updating,
    /// A state that this library does not know.
    Unknown,
}

/// How long to wait before a table that is being created is described
/// again, in milliseconds.
pub const READY_TABLE_RETRY_MILLIS: u64 = 1000;

/// Whether a table in this state is out of creation. This is what the wait
/// for a new table takes for ready.
pub open spec fn out_of_creation(status: TableStatus) -> bool {
    status != TableStatus::Creating
}

/// Whether a table in this state is on its way out or out of reach, so that
/// it will not become ready: it is being deleted or archived, is archived,
/// or its encryption credentials are inaccessible.
pub open spec fn lost(status: TableStatus) -> bool {
    ||| status == TableStatus::Deleting
    ||| status == TableStatus::Archiving
    ||| status == TableStatus::Archived
    ||| status == TableStatus::InaccessibleEncryptionCredentials
}

/// What a waiter makes of a table's status: a lost table is a terminal
/// failure, though it is out of creation; any other table out of creation
/// is ready; a table that is being created is pending.
pub open spec fn spec_table_verdict(status: TableStatus) -> Verdict {
    Verdict::spec_of(lost(status), out_of_creation(status))
}

/// Judges a table's status for a waiter, the terminal failure first.
pub fn table_verdict(status: TableStatus) -> (verdict: Verdict)
    ensures
        verdict == spec_table_verdict(status),
{
    let terminal = match status {
        TableStatus::Deleting => true,
        TableStatus::Archiving => true,
        TableStatus::Archived => true,
        TableStatus::InaccessibleEncryptionCredentials => true,
        _ => false,
    };
    let ready = match status {
        TableStatus::Creating => false,
        _ => true,
    };
    Verdict::of(terminal, ready)
}

/// What [`classify`] makes of a response.
#[derive(Clone, Copy, Debug, PartialEq, Eq, Structural)]
pub struct Classified {
    /// How the request may be retried.
    pub retry: RetryKind,
    /// What the wait makes of the table, where the request succeeded and the
    /// underlying policy wants no retry.
    pub verdict: Option<Verdict>,
}

/// What [`classify`] answers.
pub open spec fn spec_classify(inner: RetryKind, described: Option<TableStatus>) -> Classified {
    if inner != RetryKind::NotRetryable {
        Classified { retry: inner, verdict: None }
    } else {
        match described {
            None => Classified { retry: RetryKind::NotRetryable, verdict: None },
            Some(status) => Classified {
                retry: if spec_table_verdict(status) == Verdict::Pending {
                    RetryKind::Explicit(READY_TABLE_RETRY_MILLIS)
                } else {
                    RetryKind::NotRetryable
                },
                verdict: Some(spec_table_verdict(status)),
            },
        }
    }
}

/// Classifies the response to a request that describes a table.
///
/// `inner` is what the underlying policy says of the response, and
/// `described` the table's status if the request succeeded. A retry that
/// the underlying policy wants stands. Otherwise a failed request is not
/// retried, and a described table is judged, the terminal failure first:
/// while it is pending the request is retried after a second; once it is
/// lost or ready there is no retry, and the verdict says which of the two
/// it is.
pub fn classify(inner: RetryKind, described: Option<TableStatus>) -> (classified: Classified)
    ensures
        classified == spec_classify(inner, described),
{
    match inner {
        RetryKind::NotRetryable => {},
        other => {
            return Classified { retry: other, verdict: None };
        },
    }
    match described {
        None => Classified { retry: RetryKind::NotRetryable, verdict: None },
        Some(status) => {
            let verdict = table_verdict(status);
            let retry = match verdict {
                Verdict::Pending => RetryKind::Explicit(READY_TABLE_RETRY_MILLIS),
                _ => RetryKind::NotRetryable,
            };
            Classified { retry, verdict: Some(verdict) }
        },
    }
}

/// Whether a failure of this kind says nothing of the resource itself, so
/// that polling may go on: a connection-level failure, throttling, or a
/// failure on the side of the service. A failure of unknown kind, or one
/// that the client has to answer first, does not.
pub open spec fn transient(kind: Option<ErrorKind>) -> bool {
    kind matches Some(k) && k != ErrorKind::ClientError
}

/// Turns the failure of a fetch into what a waiter is told: a transient
/// failure where [`transient`] holds of its kind, else a fatal one, with
/// the cause attached either way.
pub fn failed_fetch<S, E>(kind: Option<ErrorKind>, cause: E) -> (fetched: Fetched<S, E>)
    ensures
        fetched == if transient(kind) {
            Fetched::<S, E>::Transient(cause)
        } else {
            Fetched::<S, E>::Fatal(cause)
        },
{
    match kind {
        Some(ErrorKind::TransientError) | Some(ErrorKind::ThrottlingError) | Some(
            ErrorKind::ServerError,
        ) => Fetched::Transient(cause),
        _ => Fetched::Fatal(cause),
    }
}

/// When the underlying policy wants no retry, a described table is asked
/// for again after a second exactly while it is being created. A lost
/// table is never asked for again and never passes for ready, whatever
/// else holds of its state.
pub proof fn law_classify_puts_terminal_first(status: TableStatus)
    ensures
        spec_classify(RetryKind::NotRetryable, Some(status)).retry == RetryKind::Explicit(
            READY_TABLE_RETRY_MILLIS,
        ) <==> status == TableStatus::Creating,
        spec_classify(RetryKind::NotRetryable, Some(status)).retry != RetryKind::NotRetryable
            <==> status == TableStatus::Creating,
        lost(status) ==> spec_classify(RetryKind::NotRetryable, Some(status)) == (Classified {
            retry: RetryKind::NotRetryable,
            verdict: Some(Verdict::Terminal),
        }),
        spec_classify(RetryKind::NotRetryable, Some(status)).verdict == Some(Verdict::Ready) <==> (
        out_of_creation(status) && !lost(status)),
{
}

} // verus!
