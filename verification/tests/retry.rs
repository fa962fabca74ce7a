use cloud_waiter::retry::{
    failed_fetch,
    classify, table_verdict, Classified, ErrorKind, RetryKind, TableStatus, READY_TABLE_RETRY_MILLIS,
};
use cloud_waiter::waiter::{Fetched, Verdict};

#[test]
fn creating_table_is_retried_after_a_second() {
    assert_eq!(
        classify(RetryKind::NotRetryable, Some(TableStatus::Creating)),
        Classified { retry: RetryKind::Explicit(1000), verdict: Some(Verdict::Pending) }
    );
    assert_eq!(READY_TABLE_RETRY_MILLIS, 1000);
}

#[test]
fn table_out_of_creation_is_ready_and_not_retried() {
    for status in [TableStatus::Active, TableStatus::Updating, TableStatus::Unknown] {
        assert_eq!(
            classify(RetryKind::NotRetryable, Some(status)),
            Classified { retry: RetryKind::NotRetryable, verdict: Some(Verdict::Ready) }
        );
    }
}

#[test]
fn lost_table_is_a_terminal_failure_though_out_of_creation() {
    let lost = [
        TableStatus::Deleting,
        TableStatus::Archiving,
        TableStatus::Archived,
        TableStatus::InaccessibleEncryptionCredentials,
    ];
    for status in lost {
        assert_eq!(
            classify(RetryKind::NotRetryable, Some(status)),
            Classified { retry: RetryKind::NotRetryable, verdict: Some(Verdict::Terminal) }
        );
        assert_eq!(table_verdict(status), Verdict::Terminal);
    }
}

#[test]
fn failed_request_is_not_retried_by_the_waiter() {
    assert_eq!(
        classify(RetryKind::NotRetryable, None),
        Classified { retry: RetryKind::NotRetryable, verdict: None }
    );
}

#[test]
fn retry_of_the_underlying_policy_stands() {
    assert_eq!(
        classify(RetryKind::Error(ErrorKind::ThrottlingError), None),
        Classified { retry: RetryKind::Error(ErrorKind::ThrottlingError), verdict: None }
    );
    assert_eq!(
        classify(RetryKind::Error(ErrorKind::TransientError), Some(TableStatus::Active)),
        Classified { retry: RetryKind::Error(ErrorKind::TransientError), verdict: None }
    );
    assert_eq!(
        classify(RetryKind::Explicit(250), Some(TableStatus::Creating)),
        Classified { retry: RetryKind::Explicit(250), verdict: None }
    );
    assert_eq!(
        classify(RetryKind::Explicit(250), Some(TableStatus::Deleting)),
        Classified { retry: RetryKind::Explicit(250), verdict: None }
    );
}

#[test]
fn table_is_pending_only_while_creating() {
    assert_eq!(table_verdict(TableStatus::Creating), Verdict::Pending);
    assert_eq!(table_verdict(TableStatus::Active), Verdict::Ready);
    assert_eq!(table_verdict(TableStatus::Updating), Verdict::Ready);
    assert_eq!(table_verdict(TableStatus::Unknown), Verdict::Ready);
}

#[test]
fn failures_that_say_nothing_of_the_resource_are_transient() {
    let transient: [ErrorKind; 3] =
        [ErrorKind::TransientError, ErrorKind::ThrottlingError, ErrorKind::ServerError];
    for kind in transient {
        let fetched: Fetched<u8, &str> = failed_fetch(Some(kind), "cause");
        assert_eq!(fetched, Fetched::Transient("cause"));
    }
}

#[test]
fn other_failures_are_fatal() {
    let fetched: Fetched<u8, &str> = failed_fetch(Some(ErrorKind::ClientError), "denied");
    assert_eq!(fetched, Fetched::Fatal("denied"));
    let fetched: Fetched<u8, &str> = failed_fetch(None, "not found");
    assert_eq!(fetched, Fetched::Fatal("not found"));
}
