use sealed_mail::state::{next_count, settle, CounterError, MailState};

fn increments(n: u64) {
    let state = MailState::new();
    let counter = &state;
    for i in 0..n {
        assert_eq!(counter.increment_received(), Ok(i + 1));
    }
    assert_eq!(state.received(), n);
    assert_eq!(state.sent(), 0);
}

#[test]
fn one_increment() {
    increments(1);
}

#[test]
fn ten_increments() {
    increments(10);
}

#[test]
fn thousand_increments() {
    increments(1000);
}

#[test]
fn increments_return_the_new_count() {
    let state = MailState::new();
    assert_eq!(state.increment_sent(), Ok(1));
    assert_eq!(state.increment_sent(), Ok(2));
    assert_eq!(state.increment_received(), Ok(1));
    assert_eq!(state.sent(), 2);
    assert_eq!(state.received(), 1);
}

#[test]
fn counter_stops_at_the_largest_value() {
    let state = MailState::new();
    state.total_received_letters.store(u64::MAX - 1, std::sync::atomic::Ordering::SeqCst);
    assert_eq!(state.increment_received(), Ok(u64::MAX));
    assert_eq!(state.increment_received(), Err(CounterError::Exhausted));
    assert_eq!(state.received(), u64::MAX);
}

#[test]
fn next_count_values() {
    assert_eq!(next_count(0), Some(1));
    assert_eq!(next_count(41), Some(42));
    assert_eq!(next_count(u64::MAX), None);
    assert_eq!(settle(Ok(4)), Ok(5));
    assert_eq!(settle(Err(u64::MAX)), Err(CounterError::Exhausted));
    assert_eq!(settle(Ok(u64::MAX)), Err(CounterError::Exhausted));
}
