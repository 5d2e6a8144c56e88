use completion_util::driver::{next_step, PairCache, PairSource, Step};
use completion_util::signal::WakeFlag;

// Drives an operation that reports "not yet" `pending` times, signalling its wake side each
// time, then completes with `value`; returns the value and the number of parks.
fn run(pending: usize, value: u64, flag: &WakeFlag) -> (u64, usize) {
    let mut polls = 0usize;
    let mut parks = 0usize;
    loop {
        let outcome = if polls < pending {
            flag.wake();
            None
        } else {
            Some(value)
        };
        polls += 1;
        match next_step(outcome) {
            Step::Finish(v) => return (v, parks),
            Step::Park => {
                parks += 1;
                assert!(flag.try_park());
            }
        }
    }
}

#[test]
fn next_step_decisions() {
    assert_eq!(next_step(Some(7u8)), Step::Finish(7));
    assert_eq!(next_step::<u8>(None), Step::Park);
}

#[test]
fn ready_operation_never_parks() {
    let flag = WakeFlag::new();
    assert_eq!(run(0, 11, &flag), (11, 0));
}

#[test]
fn pending_operation_parks_once_per_report() {
    for n in [0usize, 1, 5, 100] {
        let flag = WakeFlag::new();
        let (v, parks) = run(n, 42, &flag);
        assert_eq!(v, 42);
        assert!(parks <= n);
        assert_eq!(parks, n);
    }
}

#[test]
fn nested_call_uses_fresh_pair() {
    let mut cache = PairCache::new();
    let outer = cache.checkout();
    assert_eq!(outer, PairSource::Cached);
    let inner = cache.checkout();
    assert_eq!(inner, PairSource::Fresh);

    let outer_flag = WakeFlag::new();
    let inner_flag = WakeFlag::new();
    assert_eq!(run(3, 1, &inner_flag), (1, 3));
    cache.give_back(inner);
    assert!(cache.checked_out);
    assert_eq!(run(2, 2, &outer_flag), (2, 2));
    cache.give_back(outer);
    assert!(!cache.checked_out);
    assert_eq!(cache.checkout(), PairSource::Cached);
}
