use std::cell::RefCell;

use etcd::first_ok::Failover;
use etcd::first_ok::first_ok;

#[test]
fn failover_short_circuits_on_first_success() {
    let calls = RefCell::new(vec![0u32; 3]);
    let result: Result<&str, Vec<&str>> = first_ok(3, |i: usize| {
        calls.borrow_mut()[i] += 1;
        if i == 0 { Ok("value from first") } else { Err("should not be called") }
    });
    assert_eq!(result, Ok("value from first"));
    assert_eq!(*calls.borrow(), vec![1, 0, 0]);
}

#[test]
fn failover_moves_on_after_a_failure() {
    let calls = RefCell::new(vec![0u32; 3]);
    let result: Result<&str, Vec<&str>> = first_ok(3, |i: usize| {
        calls.borrow_mut()[i] += 1;
        if i == 1 { Ok("value from second") } else { Err("down") }
    });
    assert_eq!(result, Ok("value from second"));
    assert_eq!(*calls.borrow(), vec![1, 1, 0]);
}

#[test]
fn failover_exhausts_and_aggregates_in_order() {
    let calls = RefCell::new(vec![0u32; 2]);
    let result: Result<&str, Vec<String>> = first_ok(2, |i: usize| {
        calls.borrow_mut()[i] += 1;
        Err(format!("error from endpoint {}", i))
    });
    assert_eq!(
        result,
        Err(vec![
            "error from endpoint 0".to_string(),
            "error from endpoint 1".to_string(),
        ])
    );
    assert_eq!(*calls.borrow(), vec![1, 1]);
}

#[test]
fn failover_machine_resolves_on_success() {
    let mut pass: Failover<u32, &str> = Failover::begin(3);
    assert_eq!(pass.next_endpoint(), Some(0));
    pass.record_attempt(Err("down"));
    assert_eq!(pass.next_endpoint(), Some(1));
    pass.record_attempt(Ok(42));
    assert_eq!(pass.next_endpoint(), None);
    assert!(pass.is_resolved());
    assert_eq!(pass.into_outcome(), Ok(42));
}

#[test]
fn failover_machine_collects_every_error() {
    let mut pass: Failover<u32, u8> = Failover::begin(2);
    pass.record_attempt(Err(10));
    assert!(!pass.is_resolved());
    pass.record_attempt(Err(20));
    assert!(pass.is_resolved());
    assert_eq!(pass.into_outcome(), Err(vec![10, 20]));
}
