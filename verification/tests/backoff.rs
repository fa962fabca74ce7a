use cloud_waiter::backoff::Backoff;

#[test]
fn next_delay_multiplies_and_caps() {
    let backoff = Backoff { initial_delay: 1000, max_delay: 8000, backoff_multiplier: 2 };
    assert_eq!(backoff.next_delay(1000), 2000);
    assert_eq!(backoff.next_delay(4000), 8000);
    assert_eq!(backoff.next_delay(3999), 7998);
    assert_eq!(backoff.next_delay(4001), 8000);
    assert_eq!(backoff.next_delay(8000), 8000);
}

#[test]
fn next_delay_survives_overflow() {
    let backoff = Backoff { initial_delay: 1, max_delay: u64::MAX, backoff_multiplier: u64::MAX };
    assert_eq!(backoff.next_delay(1), u64::MAX);
    assert_eq!(backoff.next_delay(2), u64::MAX);
    assert_eq!(backoff.next_delay(u64::MAX), u64::MAX);
    let capped = Backoff { initial_delay: 1, max_delay: 500, backoff_multiplier: u64::MAX };
    assert_eq!(capped.next_delay(7), 500);
}

#[test]
fn multiplier_of_one_keeps_the_delay() {
    let backoff = Backoff { initial_delay: 250, max_delay: 1000, backoff_multiplier: 1 };
    assert_eq!(backoff.schedule(4), vec![250, 250, 250, 250]);
}

#[test]
fn multiplier_of_zero_drops_to_no_delay() {
    let backoff = Backoff { initial_delay: 250, max_delay: 1000, backoff_multiplier: 0 };
    assert_eq!(backoff.schedule(4), vec![250, 0, 0, 0]);
}

#[test]
fn first_wait_is_not_capped() {
    let backoff = Backoff { initial_delay: 9000, max_delay: 8000, backoff_multiplier: 2 };
    assert_eq!(backoff.schedule(3), vec![9000, 8000, 8000]);
}

#[test]
fn schedule_of_nothing_is_empty() {
    let backoff = Backoff { initial_delay: 1, max_delay: 2, backoff_multiplier: 3 };
    assert_eq!(backoff.schedule(0), Vec::<u64>::new());
}

#[test]
fn schedule_matches_the_closed_form() {
    let backoff = Backoff { initial_delay: 3, max_delay: 1000, backoff_multiplier: 5 };
    // 3 * 5^k capped at 1000
    assert_eq!(backoff.schedule(6), vec![3, 15, 75, 375, 1000, 1000]);
}
