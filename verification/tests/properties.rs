use concurrent_option::ConcurrentOption;
use concurrent_option::State;
use std::sync::atomic::Ordering;

#[test]
fn initialize_exactly_one_winner_scenario() {
    let mut slot = ConcurrentOption::<String>::none();
    let mut winners = 0;
    for i in 0..8 {
        if slot.initialize_if_none(i.to_string()) {
            winners += 1;
        }
    }
    assert_eq!(winners, 1);
    assert_eq!(slot.as_ref(), Some(&0.to_string()));
}

#[test]
fn replace_no_lost_update_scenario() {
    let passed_in = vec![4, 7, 1, 7, 9];
    let initial = 3;

    let mut slot = ConcurrentOption::some(initial);
    let mut displaced = Vec::new();
    for v in &passed_in {
        if let Some(old) = slot.replace(*v) {
            displaced.push(old);
        }
    }
    displaced.push(slot.take().unwrap());

    let mut all_in = vec![initial];
    all_in.extend_from_slice(&passed_in);
    all_in.sort();
    displaced.sort();
    assert_eq!(displaced, all_in);
}

#[test]
fn take_on_empty_idempotent() {
    let mut slot = ConcurrentOption::<u32>::none();
    assert_eq!(slot.take(), None);
    assert_eq!(slot.state(Ordering::Relaxed), State::Empty);
    assert_eq!(slot.take(), None);
    assert_eq!(slot.state(Ordering::Relaxed), State::Empty);
}

#[test]
fn occupied_take_round_trip() {
    let mut slot = ConcurrentOption::some(42);
    assert_eq!(slot.take(), Some(42));
    assert!(slot.is_none());
}

#[test]
fn take_if_predicate_runs_once() {
    let mut slot = ConcurrentOption::some(10);
    let mut calls = 0;
    let taken = slot.take_if(|v| {
        calls += 1;
        *v += 1;
        false
    });
    assert_eq!(calls, 1);
    assert_eq!(taken, None);
    assert_eq!(slot.as_ref(), Some(&11));

    let mut calls = 0;
    let taken = slot.take_if(|v| {
        calls += 1;
        *v == 11
    });
    assert_eq!(calls, 1);
    assert_eq!(taken, Some(11));
    assert!(slot.is_none());
}

#[test]
fn initialize_and_read_scenario() {
    let mut slot = ConcurrentOption::<String>::none();

    for _ in 0..100 {
        let read = slot.as_ref_with_order(Ordering::Acquire);
        assert!(read.is_none() || read == Some(&"7".to_string()));
    }

    let mut winners = 0;
    for _writer in 0..8 {
        if slot.initialize_if_none("7".to_string()) {
            winners += 1;
        }
        for _ in 0..10 {
            assert!(!slot.initialize_if_none("other".to_string()));
        }
    }
    assert_eq!(winners, 1);

    for _ in 0..(8 * 100) {
        let read = slot.as_ref_with_order(Ordering::Acquire);
        assert_eq!(read, Some(&"7".to_string()));
    }

    assert_eq!(slot.take(), Some("7".to_string()));
}
