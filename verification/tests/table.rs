//! The registry: lookups succeed exactly for registered windows, removal is
//! idempotent, and the cached index never changes an answer.

use tub::event::Event;
use tub::registry::{CallbackData, WindowId};

#[test]
fn lookup_finds_each_registered_window() {
    let mut t = CallbackData::new(WindowId(10), 0);
    let i2 = t.register(WindowId(20), 0);
    let i3 = t.register(WindowId(30), 0);
    assert_eq!(i2, 1);
    assert_eq!(i3, 2);

    assert_eq!(t.lookup(WindowId(10)), Some(0));
    assert_eq!(t.lookup(WindowId(20)), Some(1));
    assert_eq!(t.lookup(WindowId(30)), Some(2));
    assert_eq!(t.win_vec[1].window, WindowId(20));
}

#[test]
fn lookup_misses_unregistered_windows() {
    let mut t = CallbackData::new(WindowId(10), 0);
    t.register(WindowId(20), 0);
    assert_eq!(t.lookup(WindowId(99)), None);
    assert_eq!(t.get_window_index(WindowId(99)), -1);
    assert_eq!(t.get_window_index(WindowId(20)), 1);
}

#[test]
fn deregister_removes_and_closes() {
    let mut t = CallbackData::new(WindowId(10), 0);
    t.register(WindowId(20), 0);
    t.register(WindowId(30), 0);

    let q = t.deregister(WindowId(20)).expect("window 20 was registered");
    assert!(q.closed);
    assert_eq!(t.lookup(WindowId(20)), None);
    // The remaining windows shift down but stay resolvable.
    assert_eq!(t.lookup(WindowId(10)), Some(0));
    assert_eq!(t.lookup(WindowId(30)), Some(1));
}

#[test]
fn deregister_twice_is_a_noop() {
    let mut t = CallbackData::new(WindowId(10), 0);
    t.register(WindowId(20), 0);

    assert!(t.deregister(WindowId(20)).is_some());
    let len_after_first = t.win_vec.len();

    // The second call finds nothing, removes nothing, and does not panic.
    assert!(t.deregister(WindowId(20)).is_none());
    assert_eq!(t.win_vec.len(), len_after_first);
    assert_eq!(t.lookup(WindowId(10)), Some(0));
}

#[test]
fn stale_cache_never_changes_an_answer() {
    let mut t = CallbackData::new(WindowId(1), 0);
    t.register(WindowId(2), 0);
    t.register(WindowId(3), 0);

    // Warm the cache on the last entry, then invalidate it by removal:
    // the cached index now points past the end.
    assert_eq!(t.lookup(WindowId(3)), Some(2));
    t.deregister(WindowId(3));
    assert_eq!(t.lookup(WindowId(1)), Some(0));
    assert_eq!(t.lookup(WindowId(2)), Some(1));
    assert_eq!(t.lookup(WindowId(3)), None);

    // Point the cache at the wrong (but in-bounds) entry: answers are the
    // same as with any other cache value.
    t.win_index = 0;
    assert_eq!(t.lookup(WindowId(2)), Some(1));
    t.win_index = 1;
    assert_eq!(t.lookup(WindowId(1)), Some(0));
}

#[test]
fn dispatch_reaches_only_the_addressed_window() {
    let mut t = CallbackData::new(WindowId(1), 0);
    t.register(WindowId(2), 0);

    t.dispatch(WindowId(2), Event::MouseLeave);
    t.dispatch(WindowId(99), Event::MouseEnter);  // untracked: dropped, no panic

    assert_eq!(t.win_vec[0].sender.len(), 0);
    assert_eq!(t.win_vec[1].sender.len(), 1);
    assert_eq!(t.drain_events(WindowId(2)), Some(vec![Event::MouseLeave]));
    assert_eq!(t.drain_events(WindowId(99)), None);
}
