use stator::{Dispatch, Stator};

/// Runs a dispatch's effects: each fired handler here is a character that the
/// handler appends to a shared log, as a real callback would.
fn apply(log: &mut String, dispatch: &Dispatch<char>) {
    for handler in dispatch.handlers.iter() {
        log.push(*handler);
    }
}

#[test]
fn state_change() {
    let a: u64 = 1;
    let b: u64 = 2;
    let c: u64 = 3;
    let any = Stator::<char>::any_state();

    let mut state = Stator::new(a);
    let mut log = String::new();

    state.add_handler(a, b, '1');
    state.add_handler(any, b, '2');
    state.add_handler(a, any, '3');
    state.add_handler(any, a, '4');

    let dispatch = state.enter(b);
    apply(&mut log, &dispatch);
    assert!(log == "123", "Unexpected log sequence");

    let dispatch = state.enter(c);
    apply(&mut log, &dispatch);
    assert!(log == "123", "Unexpected log sequence");

    let dispatch = state.enter(b);
    apply(&mut log, &dispatch);
    assert!(log == "1232", "Unexpected log sequence");

    let dispatch = state.enter(a);
    apply(&mut log, &dispatch);
    assert!(log == "12324", "Unexpected log sequence");
}

#[test]
fn registration_appends() {
    let mut state = Stator::new(1);
    state.add_handler(1, 2, 'x');
    state.add_handler(1, 2, 'y');
    let mut log = String::new();
    apply(&mut log, &state.enter(2));
    assert_eq!(log, "xy");
}

#[test]
fn duplicate_handlers_fire_independently() {
    let mut state = Stator::new(1);
    state.add_handler(1, 2, 'z');
    state.add_handler(1, 2, 'z');
    let dispatch = state.enter(2);
    assert_eq!(dispatch.handlers, vec!['z', 'z']);
}

#[test]
fn four_group_order() {
    let a: u64 = 10;
    let b: u64 = 20;
    let any = Stator::<char>::any_state();
    let mut state = Stator::new(a);
    state.add_handler(any, any, '4');
    state.add_handler(a, any, '3');
    state.add_handler(any, b, '2');
    state.add_handler(a, b, '1');
    let mut log = String::new();
    apply(&mut log, &state.enter(b));
    assert_eq!(log, "1234");
}

#[test]
fn no_spurious_firing() {
    let mut state = Stator::new(1);
    state.add_handler(5, 6, 'q');
    state.add_handler(6, 1, 'r');
    state.add_handler(2, 2, 's');
    let dispatch = state.enter(2);
    assert!(dispatch.handlers.is_empty());
}

#[test]
fn from_is_the_state_before_the_call() {
    let mut state: Stator<char> = Stator::new(7);
    state.add_handler(7, 8, 'a');
    let dispatch = state.enter(8);
    assert_eq!(dispatch.from, 7);
    let dispatch = state.enter(9);
    assert_eq!(dispatch.from, 8);
    let dispatch = state.enter(9);
    assert_eq!(dispatch.from, 9);
}

#[test]
fn unregistered_transition_is_a_noop_except_state() {
    let mut state: Stator<char> = Stator::new(1);
    let dispatch = state.enter(2);
    assert!(dispatch.handlers.is_empty());
    // The state was still committed: the next call sees 2 as its source.
    let dispatch = state.enter(3);
    assert_eq!(dispatch.from, 2);
    assert!(dispatch.handlers.is_empty());
}

#[test]
fn self_transition_fires_exact_match() {
    let a: u64 = 4;
    let mut state = Stator::new(a);
    state.add_handler(a, a, 'e');
    let dispatch = state.enter(a);
    assert_eq!(dispatch.handlers, vec!['e']);
    assert_eq!(dispatch.from, a);
}

#[test]
fn wildcard_sentinel_is_stable_and_distinct() {
    let any = Stator::<char>::any_state();
    assert_eq!(any, Stator::<char>::any_state());
    for real in [0u64, 1, 2, 1000] {
        assert_ne!(any, real);
    }
}

#[test]
fn wildcard_groups_fire_alone() {
    let any = Stator::<char>::any_state();
    let mut state = Stator::new(1);
    state.add_handler(any, any, 'w');
    let dispatch = state.enter(2);
    assert_eq!(dispatch.handlers, vec!['w']);
    let dispatch = state.enter(2);
    assert_eq!(dispatch.handlers, vec!['w']);
}
