use vnt_hub::state::LoginFailures;

fn record(failures: &mut LoginFailures, key: &str, now: i64) {
    failures.record(key.to_string(), now);
}

#[test]
fn three_failures_lock_for_ten_minutes() {
    let mut failures = LoginFailures::new();
    record(&mut failures, "place", 1000);
    assert!(!failures.is_locked("place", 1000));
    record(&mut failures, "place", 1010);
    assert!(!failures.is_locked("place", 1010));
    record(&mut failures, "place", 1020);
    assert!(failures.is_locked("place", 1020));
    assert!(failures.is_locked("place", 1619));
    assert!(!failures.is_locked("place", 1620));
}

#[test]
fn lock_is_not_prolonged_while_it_lasts() {
    let mut failures = LoginFailures::new();
    for now in [0, 1, 2] {
        record(&mut failures, "place", now);
    }
    for now in [100, 200, 300] {
        record(&mut failures, "place", now);
    }
    assert!(failures.is_locked("place", 601));
    assert!(!failures.is_locked("place", 602));
}

#[test]
fn lock_starts_anew_after_it_has_ended() {
    let mut failures = LoginFailures::new();
    for now in [0, 1, 2] {
        record(&mut failures, "place", now);
    }
    record(&mut failures, "place", 700);
    record(&mut failures, "place", 701);
    assert!(!failures.is_locked("place", 701));
    record(&mut failures, "place", 702);
    assert!(failures.is_locked("place", 1301));
    assert!(!failures.is_locked("place", 1302));
}

#[test]
fn places_are_counted_apart() {
    let mut failures = LoginFailures::new();
    for now in [0, 1, 2] {
        record(&mut failures, "one", now);
    }
    record(&mut failures, "two", 3);
    assert!(failures.is_locked("one", 10));
    assert!(!failures.is_locked("two", 10));
    failures.clear("one");
    assert!(!failures.is_locked("one", 10));
}

#[test]
fn success_forgets_the_failures() {
    let mut failures = LoginFailures::new();
    record(&mut failures, "place", 0);
    record(&mut failures, "place", 1);
    failures.clear("place");
    record(&mut failures, "place", 2);
    record(&mut failures, "place", 3);
    assert!(!failures.is_locked("place", 3));
}
