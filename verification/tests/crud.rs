use cloud_waiter::backoff::Backoff;
use cloud_waiter::crud::{
    add_item, create_table, delete_item, has_text, random_string, scan, table_exists,
    table_request, wait_for_table, TABLE_WAIT_MILLIS,
};
use cloud_waiter::script::Round;
use cloud_waiter::values::{AttributeValue, Item};
use cloud_waiter::waiter::{Fetched, PollOutcome, PollRequest, Verdict};

fn text(s: &str) -> AttributeValue {
    AttributeValue::S(s.to_string())
}

fn user() -> Item {
    add_item("username", "jdoe", "John", "Doe", "33", "standard_user")
}

#[test]
fn random_string_has_the_length_asked_for() {
    assert_eq!(random_string(0), "");
    assert_eq!(random_string(1).len(), 1);
    assert_eq!(random_string(10).len(), 10);
    assert_eq!(random_string(1000).chars().count(), 1000);
}

#[test]
fn random_string_holds_letters_and_digits_only() {
    let text = random_string(5000);
    assert!(text.chars().all(|c| c.is_ascii_alphanumeric()));
}

#[test]
fn random_strings_differ() {
    assert_ne!(random_string(32), random_string(32));
}

#[test]
fn crud_table_has_five_writes() {
    let input = create_table("t", "k");
    assert_eq!(input.table_name, "t");
    assert_eq!(input.key_schema[0].attribute_name, "k");
    assert_eq!(input.attribute_definitions[0].attribute_name, "k");
    assert_eq!(input.provisioned_throughput.read_capacity_units, 10);
    assert_eq!(input.provisioned_throughput.write_capacity_units, 5);
}

#[test]
fn add_item_holds_the_five_attributes() {
    assert_eq!(
        user(),
        Item {
            entries: vec![
                ("username".to_string(), text("jdoe")),
                ("account_type".to_string(), text("standard_user")),
                ("age".to_string(), text("33")),
                ("first_name".to_string(), text("John")),
                ("last_name".to_string(), text("Doe")),
            ]
        }
    );
}

#[test]
fn add_item_with_a_key_named_like_another_attribute() {
    let item = add_item("age", "jdoe", "John", "Doe", "33", "standard_user");
    assert_eq!(item.entries.len(), 4);
    assert_eq!(item.get("age"), Some(&text("33")));
}

#[test]
fn scan_finds_the_item_that_was_added() {
    let items = vec![user()];
    assert!(scan(&items, "username", "jdoe", "John", "Doe", "33", "standard_user"));
}

#[test]
fn scan_of_no_items_finds_no_mismatch() {
    assert!(scan(&vec![], "username", "jdoe", "John", "Doe", "33", "standard_user"));
}

#[test]
fn scan_sees_each_differing_attribute() {
    let items = vec![user()];
    assert!(!scan(&items, "username", "other", "John", "Doe", "33", "standard_user"));
    assert!(!scan(&items, "username", "jdoe", "Jane", "Doe", "33", "standard_user"));
    assert!(!scan(&items, "username", "jdoe", "John", "Roe", "33", "standard_user"));
    assert!(!scan(&items, "username", "jdoe", "John", "Doe", "44", "standard_user"));
    assert!(!scan(&items, "username", "jdoe", "John", "Doe", "33", "admin"));
    assert!(!scan(&items, "userid", "jdoe", "John", "Doe", "33", "standard_user"));
}

#[test]
fn scan_wants_every_item_to_match() {
    let other = add_item("username", "jdoe", "John", "Doe", "44", "standard_user");
    assert!(!scan(&vec![user(), other], "username", "jdoe", "John", "Doe", "33", "standard_user"));
    assert!(scan(&vec![user(), user()], "username", "jdoe", "John", "Doe", "33", "standard_user"));
}

#[test]
fn scan_wants_strings() {
    let item = user().item("age", AttributeValue::N("33".to_string()));
    assert!(!scan(&vec![item], "username", "jdoe", "John", "Doe", "33", "standard_user"));
}

#[test]
fn scan_misses_an_absent_attribute() {
    let item = Item::new().item("username", text("jdoe"));
    assert!(!scan(&vec![item], "username", "jdoe", "John", "Doe", "33", "standard_user"));
}

#[test]
fn has_text_compares_name_kind_and_value() {
    let item = user();
    assert!(has_text(&item, "age", "33"));
    assert!(!has_text(&item, "age", "34"));
    assert!(!has_text(&item, "Age", "33"));
}

#[test]
fn delete_item_names_the_key() {
    assert_eq!(
        delete_item("username", "jdoe"),
        Item { entries: vec![("username".to_string(), text("jdoe"))] }
    );
}

#[test]
fn table_request_doubles_from_ten_seconds() {
    let request = table_request(80000, 600000);
    assert_eq!(
        request,
        PollRequest {
            backoff: Backoff { initial_delay: 10000, max_delay: 80000, backoff_multiplier: 2 },
            deadline: 600000,
            max_transient_failures: 5,
        }
    );
    assert_eq!(TABLE_WAIT_MILLIS, 10000);
    assert_eq!(request.backoff.schedule(6), vec![10000, 20000, 40000, 80000, 80000, 80000]);
}

#[test]
fn table_request_without_ceiling_or_deadline() {
    let request = table_request(u64::MAX, u64::MAX);
    assert_eq!(request.backoff.max_delay, u64::MAX);
    assert_eq!(request.deadline, u64::MAX);
    assert_eq!(request.backoff.schedule(4), vec![10000, 20000, 40000, 80000]);
}

fn described(name: Option<&str>, table: &str, now: u64) -> Round<Option<String>, String> {
    let name = name.map(|n| n.to_string());
    let verdict = table_exists(&name, table);
    Round {
        fetched: Fetched::Status(name, verdict),
        now,
        cancelled_before_sleep: false,
        cancelled_after_sleep: false,
    }
}

#[test]
fn table_wait_ends_when_the_table_is_named() {
    let report = wait_for_table(
        table_request(u64::MAX, u64::MAX),
        vec![
            described(None, "movies", 100),
            described(Some("films"), "movies", 10200),
            described(Some("movies"), "movies", 30300),
            described(Some("movies"), "movies", 70400),
        ],
    );
    assert_eq!(report.outcome, Some(PollOutcome::Ready(Some("movies".to_string()))));
    assert_eq!(report.fetches, 3);
    assert_eq!(report.sleeps, vec![10000, 20000]);
}

#[test]
fn table_wait_is_over_at_once_when_the_table_is_there() {
    let report =
        wait_for_table(table_request(80000, 600000), vec![described(Some("t"), "t", 5)]);
    assert_eq!(report.outcome, Some(PollOutcome::Ready(Some("t".to_string()))));
    assert_eq!(report.fetches, 1);
    assert_eq!(report.sleeps, Vec::<u64>::new());
}

#[test]
fn table_wait_times_out_at_its_deadline() {
    let report = wait_for_table(
        table_request(80000, 25000),
        vec![described(None, "t", 0), described(None, "t", 10000), described(None, "t", 30000)],
    );
    // At 10000 the next sleep of 20000 would end after the deadline.
    assert_eq!(report.outcome, Some(PollOutcome::TimedOut));
    assert_eq!(report.fetches, 2);
    assert_eq!(report.sleeps, vec![10000]);
}

#[test]
fn table_wait_absorbs_transient_failures() {
    let failing = |cause: &str, now: u64| Round::<Option<String>, String> {
        fetched: Fetched::Transient(cause.to_string()),
        now,
        cancelled_before_sleep: false,
        cancelled_after_sleep: false,
    };
    let report = wait_for_table(
        table_request(80000, 600000),
        vec![failing("throttled", 0), failing("reset", 10000), described(Some("t"), "t", 30000)],
    );
    assert_eq!(report.outcome, Some(PollOutcome::Ready(Some("t".to_string()))));
    assert_eq!(report.fetches, 3);
}

#[test]
fn table_wait_gives_up_on_a_fatal_failure() {
    let report = wait_for_table(
        table_request(80000, 600000),
        vec![Round::<Option<String>, String> {
            fetched: Fetched::Fatal("denied".to_string()),
            now: 10000,
            cancelled_before_sleep: false,
            cancelled_after_sleep: false,
        }],
    );
    assert_eq!(report.outcome, Some(PollOutcome::TransportError("denied".to_string())));
    assert_eq!(report.fetches, 1);
}

#[test]
fn table_exists_compares_the_name() {
    assert_eq!(table_exists(&Some("movies".to_string()), "movies"), Verdict::Ready);
    assert_eq!(table_exists(&Some("films".to_string()), "movies"), Verdict::Pending);
    assert_eq!(table_exists(&None, "movies"), Verdict::Pending);
}
