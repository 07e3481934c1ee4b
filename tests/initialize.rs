use transaction_example::counter::{
    increment, initialize, initialize_at, Counter, CounterError, CounterEvent, Initialize, Signer,
};

fn caller() -> Signer {
    Signer { authorized: true, funds_allocation: true }
}

fn event(counter: u64, timestamp: i64) -> CounterEvent {
    CounterEvent { counter, timestamp }
}

#[test]
fn creates_absent_record_and_counts_to_two() {
    let mut ctx = Initialize { signer: caller(), counter: None };
    let r = initialize_at(&mut ctx, Some(1_700_000_000), Some(1_700_000_001));
    assert_eq!(r, Ok(vec![event(1, 1_700_000_000), event(2, 1_700_000_001)]));
    assert_eq!(ctx.counter, Some(Counter { count: 2 }));
}

#[test]
fn existing_record_at_ten_goes_to_twelve() {
    let mut ctx = Initialize { signer: caller(), counter: Some(Counter { count: 10 }) };
    let r = initialize_at(&mut ctx, Some(50), Some(51));
    assert_eq!(r, Ok(vec![event(11, 50), event(12, 51)]));
    assert_eq!(ctx.counter, Some(Counter { count: 12 }));
}

#[test]
fn unauthorized_caller_changes_nothing() {
    let signer = Signer { authorized: false, funds_allocation: true };
    let mut ctx = Initialize { signer, counter: Some(Counter { count: 10 }) };
    let r = initialize_at(&mut ctx, Some(50), Some(51));
    assert_eq!(r, Err(CounterError::AuthorizationError));
    assert_eq!(ctx.counter, Some(Counter { count: 10 }));
}

#[test]
fn unauthorized_caller_creates_nothing() {
    let signer = Signer { authorized: false, funds_allocation: true };
    let mut ctx = Initialize { signer, counter: None };
    assert_eq!(initialize_at(&mut ctx, Some(50), Some(51)), Err(CounterError::AuthorizationError));
    assert_eq!(ctx.counter, None);
}

#[test]
fn count_at_maximum_overflows_before_any_event() {
    let mut ctx = Initialize { signer: caller(), counter: Some(Counter { count: u64::MAX }) };
    let r = initialize_at(&mut ctx, Some(50), Some(51));
    assert_eq!(r, Err(CounterError::ArithmeticOverflowError));
    assert_eq!(ctx.counter, Some(Counter { count: u64::MAX }));
}

#[test]
fn count_at_maximum_overflows_with_the_runtime_clock() {
    let mut ctx = Initialize { signer: caller(), counter: Some(Counter { count: u64::MAX }) };
    assert_eq!(initialize(&mut ctx), Err(CounterError::ArithmeticOverflowError));
    assert_eq!(ctx.counter, Some(Counter { count: u64::MAX }));
}

#[test]
fn second_increment_overflow_fails_whole_call() {
    let mut ctx = Initialize { signer: caller(), counter: Some(Counter { count: u64::MAX - 1 }) };
    let r = initialize_at(&mut ctx, Some(50), Some(51));
    assert_eq!(r, Err(CounterError::ArithmeticOverflowError));
    assert_eq!(ctx.counter, Some(Counter { count: u64::MAX - 1 }));
}

#[test]
fn largest_count_that_still_succeeds() {
    let mut ctx = Initialize { signer: caller(), counter: Some(Counter { count: u64::MAX - 2 }) };
    let r = initialize_at(&mut ctx, Some(50), Some(51));
    assert_eq!(r, Ok(vec![event(u64::MAX - 1, 50), event(u64::MAX, 51)]));
    assert_eq!(ctx.counter, Some(Counter { count: u64::MAX }));
}

#[test]
fn allocation_failure_leaves_record_absent() {
    let signer = Signer { authorized: true, funds_allocation: false };
    let mut ctx = Initialize { signer, counter: None };
    assert_eq!(initialize_at(&mut ctx, Some(50), Some(51)), Err(CounterError::AllocationError));
    assert_eq!(ctx.counter, None);
}

#[test]
fn existing_record_needs_no_allocation() {
    let signer = Signer { authorized: true, funds_allocation: false };
    let mut ctx = Initialize { signer, counter: Some(Counter { count: 4 }) };
    assert_eq!(initialize_at(&mut ctx, Some(50), Some(51)), Ok(vec![event(5, 50), event(6, 51)]));
    assert_eq!(ctx.counter, Some(Counter { count: 6 }));
}

#[test]
fn missing_first_clock_reading_fails() {
    let mut ctx = Initialize { signer: caller(), counter: Some(Counter { count: 3 }) };
    assert_eq!(initialize_at(&mut ctx, None, Some(51)), Err(CounterError::ClockUnavailableError));
    assert_eq!(ctx.counter, Some(Counter { count: 3 }));
}

#[test]
fn missing_second_clock_reading_fails() {
    let mut ctx = Initialize { signer: caller(), counter: None };
    assert_eq!(initialize_at(&mut ctx, Some(50), None), Err(CounterError::ClockUnavailableError));
    assert_eq!(ctx.counter, None);
}

#[test]
fn runtime_without_clock_reports_it() {
    let mut ctx = Initialize { signer: caller(), counter: Some(Counter { count: 3 }) };
    assert_eq!(initialize(&mut ctx), Err(CounterError::ClockUnavailableError));
    assert_eq!(ctx.counter, Some(Counter { count: 3 }));
}

#[test]
fn checks_signature_before_allocation() {
    let signer = Signer { authorized: false, funds_allocation: false };
    let mut ctx = Initialize { signer, counter: None };
    assert_eq!(initialize_at(&mut ctx, None, None), Err(CounterError::AuthorizationError));
}

#[test]
fn n_calls_on_fresh_record_count_to_two_n() {
    let mut ctx = Initialize { signer: caller(), counter: None };
    let mut all: Vec<CounterEvent> = Vec::new();
    for i in 0..5i64 {
        let events = initialize_at(&mut ctx, Some(100 + 2 * i), Some(101 + 2 * i)).unwrap();
        assert_eq!(events.len(), 2);
        assert_eq!(events[1].counter, events[0].counter + 1);
        all.extend(events);
    }
    assert_eq!(ctx.counter, Some(Counter { count: 10 }));
    let counters: Vec<u64> = all.iter().map(|e| e.counter).collect();
    assert_eq!(counters, vec![1, 2, 3, 4, 5, 6, 7, 8, 9, 10]);
}

#[test]
fn second_call_reuses_the_record() {
    let signer = Signer { authorized: true, funds_allocation: true };
    let mut ctx = Initialize { signer, counter: None };
    initialize_at(&mut ctx, Some(1), Some(2)).unwrap();
    ctx.signer.funds_allocation = false;
    assert_eq!(initialize_at(&mut ctx, Some(3), Some(4)), Ok(vec![event(3, 3), event(4, 4)]));
    assert_eq!(ctx.counter, Some(Counter { count: 4 }));
}

#[test]
fn increment_adds_one_or_fails_at_maximum() {
    assert_eq!(increment(0), Ok(1));
    assert_eq!(increment(41), Ok(42));
    assert_eq!(increment(u64::MAX), Err(CounterError::ArithmeticOverflowError));
}
