use pinned_sync::init_assert::InitState;
use pinned_sync::{Condvar, Mutex, TryLockError};
use std::sync::atomic::{AtomicUsize, Ordering};
use std::sync::Arc;

#[derive(Eq, PartialEq, Debug)]
struct NonCopy(i32);

/// One holder that fails while it holds the mutex.
fn poison<T>(m: &mut Mutex<T>) {
    let lock = m.lock(false).unwrap();
    lock.release(m, true);
}

#[test]
fn mutex_smoke() {
    let mut m = Mutex::boxed(());
    m.lock(false).unwrap().release(&mut m, false);
    m.lock(false).unwrap().release(&mut m, false);
}

#[test]
fn lots_and_lots() {
    const J: u32 = 1000;
    const K: u32 = 3;

    let mut m = Mutex::boxed(0u32);

    fn inc(m: &mut Mutex<u32>) {
        let lock = m.lock(false).unwrap();
        *lock.deref_mut(m) += 1;
        lock.release(m, false);
    }

    // 2 * K holders take turns, J times each.
    for _ in 0..J {
        for _ in 0..2 * K {
            inc(&mut m);
        }
    }
    let lock = m.lock(false).unwrap();
    assert_eq!(*lock.deref(&m), J * K * 2);
    assert_eq!(*lock.deref(&m), 6000);
    lock.release(&mut m, false);
}

#[test]
fn try_lock() {
    let mut m = Mutex::boxed(());
    let lock = m.try_lock(false).unwrap();
    *lock.deref_mut(&mut m) = ();
    lock.release(&mut m, false);
}

#[test]
fn try_lock_would_block_while_held() {
    let mut m = Mutex::boxed(5);
    let first = m.try_lock(false).unwrap();
    assert!(m.is_locked());
    assert!(matches!(m.try_lock(false), Err(TryLockError::WouldBlock)));
    assert!(m.is_locked());
    first.release(&mut m, false);
    assert!(!m.is_locked());
    let again = m.try_lock(false).unwrap();
    again.release(&mut m, false);
}

#[test]
fn try_lock_reports_poison_with_guard() {
    let mut m = Mutex::boxed(5);
    poison(&mut *m);
    match m.try_lock(false) {
        Err(TryLockError::Poisoned(e)) => {
            let lock = e.into_inner();
            assert_eq!(*lock.deref(&m), 5);
            lock.release(&mut m, false);
        }
        Ok(_) => panic!("try_lock of a poisoned mutex is Ok"),
        Err(TryLockError::WouldBlock) => panic!("try_lock of a free mutex would block"),
    }
    assert!(!m.is_locked());
}

#[test]
fn mutex_uninit_then_init() {
    let mut m = Mutex::uninit(3u8);
    assert_eq!(m.init_state(), InitState::Uninit);
    assert!(!m.is_locked());
    assert!(!m.is_poisoned());
    m.init();
    assert_eq!(m.init_state(), InitState::Init);
    let lock = m.lock(false).unwrap();
    assert_eq!(*lock.deref(&m), 3);
    lock.release(&mut m, false);
}

#[test]
fn mutex_arc_is_ready() {
    let m = Mutex::arc(7u8);
    assert_eq!(m.init_state(), InitState::Init);
    assert!(!m.is_locked());
    assert!(!m.is_poisoned());
}

#[test]
fn mutex_test_into_inner() {
    let m = Mutex::boxed(NonCopy(10));
    assert_eq!((*m).into_inner().unwrap(), NonCopy(10));
}

#[test]
fn mutex_test_into_inner_drop() {
    #[derive(Debug)]
    struct Foo(Arc<AtomicUsize>);
    impl Drop for Foo {
        fn drop(&mut self) {
            self.0.fetch_add(1, Ordering::SeqCst);
        }
    }
    let num_drops = Arc::new(AtomicUsize::new(0));
    let m = Mutex::boxed(Foo(num_drops.clone()));
    assert_eq!(num_drops.load(Ordering::SeqCst), 0);
    {
        let _inner = (*m).into_inner().unwrap();
        assert_eq!(num_drops.load(Ordering::SeqCst), 0);
    }
    assert_eq!(num_drops.load(Ordering::SeqCst), 1);
}

#[test]
fn mutex_test_into_inner_poison() {
    let mut m = Mutex::boxed(NonCopy(10));
    poison(&mut *m);

    assert!(m.is_poisoned());
    match (*m).into_inner() {
        Err(e) => assert_eq!(e.into_inner(), NonCopy(10)),
        Ok(x) => panic!("into_inner of poisoned Mutex is Ok: {:?}", x),
    }
}

#[test]
fn mutex_test_get_mut() {
    let mut m = Mutex::boxed(NonCopy(10));
    *m.get_mut().unwrap() = NonCopy(20);
    assert_eq!((*m).into_inner().unwrap(), NonCopy(20));
}

#[test]
fn mutex_test_get_mut_poison() {
    let mut m = Mutex::boxed(NonCopy(10));
    poison(&mut *m);

    assert!(m.is_poisoned());
    match m.get_mut() {
        Err(e) => assert_eq!(*e.into_inner(), NonCopy(10)),
        Ok(x) => panic!("get_mut of poisoned Mutex is Ok: {:?}", x),
    }
}

#[test]
fn test_mutex_arc_condvar() {
    let mut mutex = Mutex::uninit(false);
    let mut condvar = Condvar::uninit();
    mutex.init();
    condvar.init();

    let mut lock = mutex.lock(false).unwrap();
    assert!(!*lock.deref(&mutex));
    while !*lock.deref(&mutex) {
        // The parent sleeps; the child gets in, sets the flag and notifies.
        let waiter = condvar.park(&mut mutex, lock);
        {
            let child = mutex.lock(false).unwrap();
            *child.deref_mut(&mut mutex) = true;
            condvar.notify_one();
            child.release(&mut mutex, false);
        }
        lock = condvar.resume(&mut mutex, waiter).unwrap();
    }
    assert!(*lock.deref(&mutex));
    lock.release(&mut mutex, false);
}

#[test]
fn test_arc_condvar_poison() {
    let mut mutex = Mutex::uninit(1);
    let mut condvar = Condvar::uninit();
    mutex.init();
    condvar.init();

    let mut lock = mutex.lock(false).unwrap();
    let mut woke_poisoned = false;
    while *lock.deref(&mutex) == 1 {
        let waiter = condvar.park(&mut mutex, lock);
        {
            // The child notifies and fails with the mutex in its hands.
            let child = mutex.lock(false).unwrap();
            condvar.notify_one();
            child.release(&mut mutex, true);
        }
        // Parent should fail when it wakes up.
        match condvar.resume(&mut mutex, waiter) {
            Ok(l) => {
                lock = l;
                assert_eq!(*lock.deref(&mutex), 1);
            }
            Err(e) => {
                woke_poisoned = true;
                lock = e.into_inner();
                break;
            }
        }
    }
    assert!(woke_poisoned);
    lock.release(&mut mutex, false);
}

#[test]
fn test_mutex_arc_poison() {
    let mut arc = Mutex::boxed(1);
    assert!(!arc.is_poisoned());
    {
        // The holder finds 1 where it expects 2, and fails.
        let lock = arc.lock(false).unwrap();
        let failed = *lock.deref(&arc) != 2;
        lock.release(&mut arc, failed);
    }
    let again = arc.lock(false);
    assert!(again.is_err());
    again.unwrap_or_else(|e| e.into_inner()).release(&mut arc, false);
    assert!(arc.is_poisoned());
}

#[test]
fn test_mutex_arc_nested() {
    // Tests nested mutexes and access
    // to underlying data.
    let arc = Mutex::boxed(1);
    let mut arc2 = Mutex::boxed(arc);
    let lock = arc2.lock(false).unwrap();
    let inner: &mut Mutex<i32> = &mut **lock.deref_mut(&mut arc2);
    let lock2 = inner.lock(false).unwrap();
    assert_eq!(*lock2.deref(inner), 1);
    lock2.release(inner, false);
    lock.release(&mut arc2, false);
}

#[test]
fn test_mutex_arc_access_in_unwind() {
    let mut arc = Mutex::boxed(1);
    {
        // A thread that is failing already takes the mutex on its way out.
        let lock = arc.lock(true).unwrap();
        *lock.deref_mut(&mut arc) += 1;
        lock.release(&mut arc, true);
    }
    let lock = arc.lock(false).unwrap();
    assert_eq!(*lock.deref(&arc), 2);
    lock.release(&mut arc, false);
    assert!(!arc.is_poisoned());
}

#[test]
fn test_mutex_unsized() {
    let mut mutex: Box<Mutex<[i32; 3]>> = Mutex::boxed([1, 2, 3]);
    {
        let lock = mutex.lock(false).unwrap();
        let b = lock.deref_mut(&mut mutex);
        b[0] = 4;
        b[2] = 5;
        lock.release(&mut mutex, false);
    }
    let comp: &[i32] = &[4, 2, 5];
    let lock = mutex.lock(false).unwrap();
    assert_eq!(&lock.deref(&mutex)[..], comp);
    lock.release(&mut mutex, false);
}

#[test]
fn poison_is_never_cleared() {
    let mut m = Mutex::boxed(0);
    poison(&mut *m);
    for _ in 0..3 {
        let lock = m.lock(false).unwrap_or_else(|e| e.into_inner());
        lock.release(&mut m, false);
        assert!(m.is_poisoned());
    }
}

#[test]
fn guard_map_keeps_token_and_looks_at_poison() {
    let mut m = Mutex::boxed(0);
    let lock = m.lock(false).unwrap();
    let lock = lock.map(&m, |raw| raw).unwrap();
    lock.release(&mut m, true);
    let lock = m.lock(false).unwrap_or_else(|e| e.into_inner());
    assert!(lock.map(&m, |raw| raw).is_err());
}
