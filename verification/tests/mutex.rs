use embassy_esp32c3::mutex::{Mutex, TryLockError};

#[test]
fn try_lock_on_a_locked_mutex_fails() {
    let mut m = Mutex::new(5u32);
    assert!(!m.is_locked());
    let g = m.try_lock().unwrap();
    assert_eq!(*g.get(), 5);
    assert!(m.is_locked());
    assert_eq!(m.try_lock().err(), Some(TryLockError));
    assert!(m.poll_lock().is_none());
    let wake = m.unlock(g);
    assert!(wake);
    assert!(!m.is_locked());
}

#[test]
fn unlock_puts_back_the_guarded_value() {
    let mut m = Mutex::new(String::from("a"));
    let mut g = m.try_lock().unwrap();
    g.set(String::from("b"));
    assert!(!m.unlock(g));
    let g = m.poll_lock().unwrap();
    assert_eq!(g.get(), "b");
}

#[test]
fn unlock_without_waiter_wakes_nobody() {
    let mut m = Mutex::new(1u8);
    let g = m.poll_lock().unwrap();
    assert!(!m.unlock(g));
    let g = m.try_lock().unwrap();
    assert!(m.poll_lock().is_none());
    assert!(m.poll_lock().is_none());
    assert!(m.unlock(g));
    let g = m.try_lock().unwrap();
    assert!(!m.unlock(g));
}

#[test]
fn guard_gives_mutable_access_to_the_contents() {
    let mut m = Mutex::new(vec![1u8, 2]);
    let mut g = m.try_lock().unwrap();
    g.get_mut().push(3);
    assert!(!m.unlock(g));
    let g = m.try_lock().unwrap();
    assert_eq!(g.get(), &vec![1u8, 2, 3]);
}

#[test]
fn mutex_is_locked_exactly_while_a_guard_lives() {
    let mut m = Mutex::new(0u32);
    for round in 0..3u32 {
        assert!(!m.is_locked());
        let mut g = if round % 2 == 0 { m.try_lock().unwrap() } else { m.poll_lock().unwrap() };
        assert!(m.is_locked());
        assert!(m.try_lock().is_err());
        assert!(m.poll_lock().is_none());
        *g.get_mut() += 1;
        assert!(m.unlock(g));
    }
    let g = m.try_lock().unwrap();
    assert_eq!(*g.get(), 3);
}
