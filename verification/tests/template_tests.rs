use minichain::template::State;

#[test]
fn template_counter_lifecycle() {
    let mut state = State::default();
    assert_eq!(state.get_counter(), 0);

    state.increment();
    state.increment();
    assert_eq!(state.get_counter(), 2);

    state.decrement();
    assert_eq!(state.get_counter(), 1);

    state.reset();
    assert_eq!(state.get_counter(), 0);
}

#[test]
fn template_decrement_stops_at_zero() {
    let mut state = State::default();
    state.decrement();
    assert_eq!(state.get_counter(), 0);
}

#[test]
fn template_initialize_zeroes() {
    let mut state = State { counter: 41 };
    state.initialize();
    assert_eq!(state.get_counter(), 0);
}
