use pinned_sync::init_assert::{InitAssert, InitState};
use pinned_sync::poison::{map_result, Flag, Guard, LockResult, PoisonError, TryLockError, TryLockResult};
use pinned_sync::sys::condvar::Condvar as SysCondvar;
use pinned_sync::sys::mutex::Mutex as SysMutex;
use pinned_sync::sys::rwlock::{Attempt, Codes, ReadStatus, RwLock as SysRwLock, Verdict, WriteStatus};
use pinned_sync::sys::{cvt_nz, ignore_poison, try_ignore_poison, OsError};
use std::rc::Rc;

#[test]
fn flag_starts_clear() {
    let flag = Flag::new();
    assert!(!flag.get());
    assert_eq!(flag.borrow(false).unwrap(), Guard { panicking: false });
    assert_eq!(flag.borrow(true).unwrap(), Guard { panicking: true });
}

#[test]
fn flag_is_set_by_a_new_failure_only() {
    // sound at acquisition, sound at release
    let mut flag = Flag::new();
    let g = flag.borrow(false).unwrap();
    flag.done(&g, false);
    assert!(!flag.get());
    // failing at acquisition, failing at release
    let g = flag.borrow(true).unwrap();
    flag.done(&g, true);
    assert!(!flag.get());
    // failing at acquisition, sound at release
    let g = flag.borrow(true).unwrap();
    flag.done(&g, false);
    assert!(!flag.get());
    // sound at acquisition, failing at release
    let g = flag.borrow(false).unwrap();
    flag.done(&g, true);
    assert!(flag.get());
}

#[test]
fn flag_stays_set_and_still_hands_out_tokens() {
    let mut flag = Flag::new();
    let g = flag.borrow(false).unwrap();
    flag.done(&g, true);
    for panicking in [false, true] {
        let e = flag.borrow(panicking).unwrap_err();
        assert_eq!(*e.get_ref(), Guard { panicking });
        let g = e.into_inner();
        flag.done(&g, false);
        assert!(flag.get());
    }
}

#[test]
fn map_result_keeps_the_verdict() {
    let clean: LockResult<i32> = Ok(20);
    assert_eq!(map_result(clean, |x| x + 1).unwrap(), 21);
    let poisoned: LockResult<i32> = Err(PoisonError::new(20));
    assert_eq!(map_result(poisoned, |x| x + 1).unwrap_err().into_inner(), 21);
}

#[test]
fn ignore_poison_takes_the_payload() {
    let clean: LockResult<i32> = Ok(1);
    assert_eq!(ignore_poison(clean), 1);
    let poisoned: LockResult<i32> = Err(PoisonError::new(2));
    assert_eq!(ignore_poison(poisoned), 2);
}

#[test]
fn try_ignore_poison_takes_the_payload() {
    let clean: TryLockResult<i32> = Ok(1);
    assert_eq!(try_ignore_poison(clean), Some(1));
    let poisoned: TryLockResult<i32> = Err(TryLockError::Poisoned(PoisonError::new(2)));
    assert_eq!(try_ignore_poison(poisoned), Some(2));
    let busy: TryLockResult<i32> = Err(TryLockError::WouldBlock);
    assert_eq!(try_ignore_poison(busy), None);
}

#[test]
fn init_assert_moves_forward() {
    let mut cell: InitAssert<String> = InitAssert::new();
    assert_eq!(cell.current(), InitState::Uninit);
    cell.begin_init();
    assert_eq!(cell.current(), InitState::InProgress);
    cell.finish_init(String::from("ready"));
    assert_eq!(cell.current(), InitState::Init);
    assert_eq!(cell.get_ref(), "ready");
    cell.get().push('!');
    assert_eq!(cell.get_ref(), "ready!");
    assert_eq!(cell.current(), InitState::Init);
}

#[test]
fn init_assert_init_runs_the_factory_once() {
    let mut calls = 0;
    let mut cell: InitAssert<u32> = InitAssert::new();
    cell.init(|| {
        calls += 1;
        41 + 1
    });
    assert_eq!(calls, 1);
    assert_eq!(*cell.get_ref(), 42);
    *cell.get() = 7;
    assert_eq!(*cell.get_ref(), 7);
}

#[test]
fn init_assert_drops_what_it_holds() {
    let witness = Rc::new(());
    {
        let empty: InitAssert<Rc<()>> = InitAssert::new();
        assert_eq!(empty.current(), InitState::Uninit);
    }
    {
        let mut full: InitAssert<Rc<()>> = InitAssert::new();
        let clone = witness.clone();
        full.init(move || clone);
        assert_eq!(Rc::strong_count(&witness), 2);
    }
    assert_eq!(Rc::strong_count(&witness), 1);
}

#[test]
fn sys_mutex_record() {
    let mut m = SysMutex::uninit();
    assert_eq!(m.init_state(), InitState::Uninit);
    m.init();
    assert_eq!(m.init_state(), InitState::Init);
    assert!(!m.locked());
    let g = m.lock();
    assert!(m.locked());
    assert!(m.try_lock().is_none());
    assert!(m.locked());
    m.unlock(g);
    assert!(!m.locked());
    let g = m.try_lock().unwrap();
    assert!(m.locked());
    m.unlock(g);
}

#[test]
fn sys_rwlock_record() {
    let mut l = SysRwLock::uninit();
    assert_eq!(l.init_state(), InitState::Uninit);
    l.init();
    assert_eq!(l.init_state(), InitState::Init);
    assert_eq!(l.check_read(ReadStatus::Granted), Verdict::Proceed);
    let r1 = l.read(ReadStatus::Granted);
    let r2 = match l.try_read(true) {
        Attempt::Held(g) => g,
        other => panic!("a second reader was refused: {:?}", other),
    };
    assert_eq!(l.readers(), 2);
    assert!(matches!(l.try_write(true), Attempt::Revoked));
    assert!(matches!(l.try_write(false), Attempt::Busy));
    assert!(!l.is_write_locked());
    l.read_unlock(r1);
    l.read_unlock(r2);
    assert_eq!(l.readers(), 0);
    assert_eq!(l.check_write(WriteStatus::Granted), Verdict::Proceed);
    let w = l.write(WriteStatus::Granted);
    assert!(l.is_write_locked());
    assert!(matches!(l.try_read(true), Attempt::Revoked));
    assert!(matches!(l.try_read(false), Attempt::Busy));
    assert!(matches!(l.try_write(true), Attempt::Revoked));
    assert_eq!(l.readers(), 0);
    l.write_unlock(w);
    assert!(!l.is_write_locked());
    match l.try_write(true) {
        Attempt::Held(w) => l.write_unlock(w),
        other => panic!("a writer was refused on a free lock: {:?}", other),
    }
}

#[test]
fn sys_condvar_record() {
    let mut c = SysCondvar::uninit();
    assert_eq!(c.init_state(), InitState::Uninit);
    c.init();
    assert_eq!(c.init_state(), InitState::Init);
    c.notify_one();
    c.notify_all();
    let mut m = SysMutex::uninit();
    m.init();
    let g = m.lock();
    let g = c.wait(g);
    let (in_time, g) = c.wait_timeout(g, true);
    assert!(!in_time);
    let (in_time, g) = c.wait_timeout(g, false);
    assert!(in_time);
    m.unlock(g);
    assert!(!m.locked());
}

#[test]
fn cvt_nz_reads_return_codes() {
    assert_eq!(cvt_nz(0), Ok(()));
    assert_eq!(cvt_nz(16), Err(OsError { code: 16 }));
    assert_eq!(cvt_nz(-1), Err(OsError { code: -1 }));
}

#[test]
fn status_codes_are_read_by_the_platform_table() {
    let linux = Codes { again: 11, deadlock: 35 };
    assert_eq!(ReadStatus::decode(0, linux), Some(ReadStatus::Granted));
    assert_eq!(ReadStatus::decode(11, linux), Some(ReadStatus::Again));
    assert_eq!(ReadStatus::decode(35, linux), Some(ReadStatus::Deadlock));
    assert_eq!(ReadStatus::decode(16, linux), None);
    assert_eq!(WriteStatus::decode(0, linux), Some(WriteStatus::Granted));
    assert_eq!(WriteStatus::decode(35, linux), Some(WriteStatus::Deadlock));
    assert_eq!(WriteStatus::decode(11, linux), None);
    // The same numbers mean the opposite elsewhere.
    let other = Codes { again: 35, deadlock: 11 };
    assert_eq!(ReadStatus::decode(35, other), Some(ReadStatus::Again));
    assert_eq!(ReadStatus::decode(11, other), Some(ReadStatus::Deadlock));
    assert_eq!(WriteStatus::decode(11, other), Some(WriteStatus::Deadlock));
}
