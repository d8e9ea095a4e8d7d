use minichain::counter::{Counter, CounterApplicationCall, CounterMessage, CounterOperation};
use minichain::host::ContractError;

#[test]
fn test_counter_increment() {
    let mut counter = Counter::default();
    assert_eq!(counter.value, 0);

    counter.value += 1;
    assert_eq!(counter.value, 1);
}

#[test]
fn test_counter_increment_by() {
    let mut counter = Counter::default();
    assert_eq!(counter.value, 0);

    counter.value += 5;
    assert_eq!(counter.value, 5);
}

#[test]
fn test_counter_reset() {
    let mut counter = Counter { value: 10 };
    assert_eq!(counter.value, 10);

    counter.value = 0;
    assert_eq!(counter.value, 0);
}

#[test]
fn counter_operations_apply() {
    let mut counter = Counter::default();
    let r = counter.execute_operation(CounterOperation::Increment);
    assert!(r.effects.is_empty());
    assert_eq!(counter.value, 1);

    counter.execute_operation(CounterOperation::IncrementBy { value: 41 });
    assert_eq!(counter.value, 42);

    counter.execute_operation(CounterOperation::Reset);
    assert_eq!(counter.value, 0);
}

#[test]
fn counter_messages_apply() {
    let mut counter = Counter { value: 7 };
    counter.execute_message(CounterMessage::Increment);
    assert_eq!(counter.value, 8);
    counter.execute_message(CounterMessage::IncrementBy { value: 2 });
    assert_eq!(counter.value, 10);
}

#[test]
fn counter_application_calls() {
    let mut counter = Counter::default();
    counter.handle_application_call(CounterApplicationCall::IncrementBy { value: 3 });
    let r = counter.handle_application_call(CounterApplicationCall::GetValue);
    assert_eq!(r.value, Some(3));
    assert!(r.effects.is_empty());
    assert_eq!(counter.value, 3);
}

#[test]
fn counter_session_calls_rejected() {
    let counter = Counter::default();
    let r = counter.handle_session_call(minichain::counter::CounterSessionCall::GetValue);
    assert!(matches!(r, Err(ContractError::UnsupportedCall)));
}

#[test]
fn counter_snapshot_reads_value() {
    let counter = Counter { value: 9 };
    assert_eq!(counter.snapshot().value, 9);
}
