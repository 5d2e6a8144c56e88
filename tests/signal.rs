use std::sync::Arc;

use completion_util::signal::{park_returns, wake_resumes, WakeFlag, WakeState};

#[test]
fn wake_decisions() {
    assert!(wake_resumes(false));
    assert!(!wake_resumes(true));
    assert!(park_returns(true));
    assert!(!park_returns(false));
}

#[test]
fn wake_before_park_is_not_lost() {
    let mut s = WakeState::new();
    assert!(s.wake());
    assert!(s.try_park());

    let mut pending = WakeState { woken: true };
    assert!(!pending.wake());
    assert!(pending.try_park());
}

#[test]
fn park_without_wake_suspends() {
    let mut s = WakeState::new();
    assert!(!s.try_park());
    assert!(!s.woken);
}

#[test]
fn repeated_wakes_resume_once() {
    for k in [1usize, 2, 3, 10] {
        let mut s = WakeState::new();
        let mut resumes = 0;
        for _ in 0..k {
            if s.wake() {
                resumes += 1;
            }
        }
        assert_eq!(resumes, 1);
        assert!(s.try_park());
        assert!(!s.try_park());
    }
}

#[test]
fn shared_flag_follows_protocol() {
    let flag = Arc::new(WakeFlag::new());
    let other = Arc::clone(&flag);
    assert!(!flag.try_park());
    assert!(other.wake());
    assert!(!other.wake());
    assert!(!flag.wake());
    assert!(flag.try_park());
    assert!(!flag.try_park());
    assert!(other.wake());
    assert!(flag.try_park());
}
