use std::cell::RefCell;

use etcd::fanout::FanOut;
use etcd::fanout::run_fanout;

#[test]
fn fanout_reaches_every_endpoint_in_any_completion_order() {
    let mut pass: FanOut<&str> = FanOut::begin(3);
    assert!(!pass.is_done());
    assert!(pass.is_pending(2));
    pass.record(2, "from two");
    pass.record(0, "from zero");
    assert!(!pass.is_done());
    pass.record(1, "from one");
    assert!(pass.is_done());
    let results = pass.into_results();
    assert_eq!(results.len(), 3);
    assert_eq!(results[0], (2, "from two"));
    assert_eq!(results[1], (0, "from zero"));
    assert_eq!(results[2], (1, "from one"));
    let mut seen = vec![false; 3];
    for (endpoint, _) in &results {
        assert!(!seen[*endpoint], "endpoint delivered twice");
        seen[*endpoint] = true;
    }
    assert!(seen.iter().all(|s| *s), "an endpoint was skipped");
}

#[test]
fn fanout_marks_delivered_endpoints() {
    let mut pass: FanOut<u32> = FanOut::begin(2);
    pass.record(1, 5);
    assert!(pass.is_pending(0));
    assert!(!pass.is_pending(1));
}

#[test]
fn run_fanout_queries_each_endpoint_once() {
    let calls = RefCell::new(vec![0u32; 3]);
    let results = run_fanout(3, |i: usize| {
        calls.borrow_mut()[i] += 1;
        i * 10
    });
    assert_eq!(*calls.borrow(), vec![1, 1, 1]);
    assert_eq!(results, vec![(0, 0), (1, 10), (2, 20)]);
}
