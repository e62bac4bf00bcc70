use aggregate_core::aggregate::{Command, MyAggregate, MyError, MyServices};
use aggregate_core::events::MyEvent;

#[test]
fn test_my_aggregate() {
    let expected = MyEvent::CommandAFiredEvent { value: String::from("x") };

    let aggregate = MyAggregate::default();
    let events = aggregate
        .handle(Command::CommandA { value: String::from("x") }, &MyServices)
        .unwrap();
    assert_eq!(events, vec![expected]);
}

#[test]
fn handle_is_deterministic() {
    let aggregate = MyAggregate::default();
    let first = aggregate
        .handle(Command::CommandA { value: String::from("same") }, &MyServices)
        .unwrap();
    let second = aggregate
        .handle(Command::CommandA { value: String::from("same") }, &MyServices)
        .unwrap();
    assert_eq!(first, second);
}

#[test]
fn handle_does_not_mutate_state() {
    let aggregate = MyAggregate::default();
    let _ = aggregate
        .handle(Command::CommandA { value: String::from("x") }, &MyServices)
        .unwrap();
    assert_eq!(aggregate.fieldAggregate, 0);
}

#[test]
fn apply_transitions_default_state() {
    let mut aggregate = MyAggregate::default();
    aggregate.apply(MyEvent::CommandAFiredEvent { value: String::from("x") });
    assert_eq!(aggregate.fieldAggregate, 1);
}

#[test]
fn apply_twice_is_idempotent() {
    let mut once = MyAggregate::default();
    once.apply(MyEvent::CommandAFiredEvent { value: String::from("x") });

    let mut twice = MyAggregate::default();
    twice.apply(MyEvent::CommandAFiredEvent { value: String::from("x") });
    twice.apply(MyEvent::CommandAFiredEvent { value: String::from("x") });

    assert_eq!(once.fieldAggregate, twice.fieldAggregate);
}

#[test]
fn apply_saturates_long_payloads() {
    let mut aggregate = MyAggregate::default();
    let long = "a".repeat(70000);
    aggregate.apply(MyEvent::CommandAFiredEvent { value: long });
    assert_eq!(aggregate.fieldAggregate, u16::MAX);
}

#[test]
fn replay_is_order_sensitive() {
    let forward = MyAggregate::from_history(vec![
        MyEvent::CommandAFiredEvent { value: String::from("a") },
        MyEvent::CommandAFiredEvent { value: String::from("bb") },
    ]);
    let backward = MyAggregate::from_history(vec![
        MyEvent::CommandAFiredEvent { value: String::from("bb") },
        MyEvent::CommandAFiredEvent { value: String::from("a") },
    ]);
    assert_eq!(forward.fieldAggregate, 2);
    assert_eq!(backward.fieldAggregate, 1);
    assert_ne!(forward, backward);
}

#[test]
fn empty_history_leaves_default_state() {
    let aggregate = MyAggregate::from_history(vec![]);
    assert_eq!(aggregate, MyAggregate::default());
}

#[test]
fn aggregate_type_is_stable() {
    assert_eq!(MyAggregate::aggregate_type(), "MyAggregate");
}

#[test]
fn error_carries_its_message() {
    let error = MyError::from("command rejected");
    assert_eq!(error.message().as_str(), "command rejected");
    let built = MyError::new("another message");
    assert_eq!(built.message().as_str(), "another message");
}
