use std::cell::Cell;

use bare_kernel::sync::LazyMutex;
use bare_kernel::sync::Mutex;
use bare_kernel::sync::MutexOnLock;

#[test]
fn fresh_mutex_grants_a_handle() {
    let mut mutex = Mutex::new(5u32);
    let handle = mutex.try_lock();
    assert!(handle.is_some());
    assert_eq!(*handle.unwrap(), 5);
}

#[test]
fn handle_reads_and_writes_payload() {
    let mut mutex = Mutex::new(vec![1u8, 2, 3]);
    {
        let mut handle = mutex.try_lock().unwrap();
        assert_eq!(handle.len(), 3);
        handle.push(4);
        handle[0] = 9;
    }
    let handle = mutex.try_lock().unwrap();
    assert_eq!(*handle, vec![9u8, 2, 3, 4]);
}

#[test]
fn at_most_one_handle_is_out() {
    let mut mutex = Mutex::new(0u32);
    let mut granted = 0;
    for _ in 0..10 {
        if let Some(handle) = mutex.try_lock() {
            granted += 1;
            // The holder keeps its handle: it is never destroyed.
            core::mem::forget(handle);
        }
    }
    assert_eq!(granted, 1);
}

#[test]
fn second_attempt_while_held_fails() {
    let mut mutex = Mutex::new(7u32);
    let handle = mutex.try_lock().unwrap();
    core::mem::forget(handle);
    assert!(mutex.try_lock().is_none());
    assert!(mutex.try_lock().is_none());
}

#[test]
fn lock_is_available_after_every_handle_is_destroyed() {
    let mut mutex = Mutex::new(0u32);
    for round in 0..100u32 {
        let mut handle = mutex.try_lock().expect("the lock is free between rounds");
        assert_eq!(*handle, round);
        *handle += 1;
    }
    assert_eq!(*mutex.try_lock().unwrap(), 100);
}

#[test]
fn unlock_frees_the_lock() {
    let mut mutex = Mutex::new(1u32);
    let mut handle = mutex.try_lock().unwrap();
    *handle = 2;
    handle.unlock();
    let handle = mutex.try_lock().unwrap();
    assert_eq!(*handle, 2);
}

fn bump_unless_odd(mutex: &mut Mutex<u32>) -> bool {
    let mut handle = match mutex.try_lock() {
        Some(handle) => handle,
        None => return false,
    };
    if *handle % 2 == 1 {
        return false;
    }
    *handle += 1;
    true
}

#[test]
fn early_return_releases_the_lock() {
    let mut mutex = Mutex::new(1u32);
    assert!(!bump_unless_odd(&mut mutex));
    let handle = mutex.try_lock();
    assert!(handle.is_some());
    assert_eq!(*handle.unwrap(), 1);
}

#[test]
fn normal_scope_exit_releases_the_lock() {
    let mut mutex = Mutex::new(2u32);
    assert!(bump_unless_odd(&mut mutex));
    let handle = mutex.try_lock();
    assert!(handle.is_some());
    assert_eq!(*handle.unwrap(), 3);
}

fn parse_into(mutex: &mut Mutex<u32>, text: &str) -> Result<(), std::num::ParseIntError> {
    let mut handle = mutex.try_lock().expect("the lock is free");
    *handle = text.parse::<u32>()?;
    Ok(())
}

#[test]
fn nested_failure_releases_the_lock() {
    let mut mutex = Mutex::new(0u32);
    assert!(parse_into(&mut mutex, "not a number").is_err());
    assert!(mutex.try_lock().is_some());
    assert!(parse_into(&mut mutex, "42").is_ok());
    assert_eq!(*mutex.try_lock().unwrap(), 42);
}

#[test]
fn default_mutex_is_free_and_guards_the_default() {
    let mut mutex: Mutex<u32> = Mutex::default();
    assert_eq!(*mutex.try_lock().unwrap(), 0);
}

#[test]
fn lazy_mutex_runs_callback_on_first_lock_only() {
    let runs = Cell::new(0u32);
    let mut mutex = LazyMutex::new(5u32, || runs.set(runs.get() + 1));
    assert_eq!(runs.get(), 0);
    for _ in 0..5 {
        let handle = mutex.try_lock().unwrap();
        assert_eq!(*handle, 5);
        assert_eq!(runs.get(), 1);
    }
    assert_eq!(runs.get(), 1);
}

#[test]
fn lazy_mutex_does_not_run_callback_on_failed_attempt() {
    let runs = Cell::new(0u32);
    let mut mutex = LazyMutex::new((), || runs.set(runs.get() + 1));
    core::mem::forget(mutex.try_lock().unwrap());
    assert_eq!(runs.get(), 1);
    assert!(mutex.try_lock().is_none());
    assert_eq!(runs.get(), 1);
}

#[test]
fn mutex_on_lock_grants_when_predicate_holds() {
    let mut mutex = MutexOnLock::new(4u32, |value: &u32| *value % 2 == 0);
    let mut handle = mutex.try_lock().unwrap();
    assert_eq!(*handle, 4);
    *handle = 5;
    drop(handle);
    // The payload is odd now: the lock is free, and still nobody gets in.
    assert!(mutex.try_lock().is_none());
    assert!(mutex.try_lock().is_none());
}

#[test]
fn mutex_on_lock_frees_the_lock_after_a_refusal() {
    let open = Cell::new(false);
    let mut mutex = MutexOnLock::new(1u32, |_: &u32| open.get());
    assert!(mutex.try_lock().is_none());
    open.set(true);
    let handle = mutex.try_lock();
    assert!(handle.is_some());
    assert_eq!(*handle.unwrap(), 1);
}

#[test]
fn mutex_on_lock_does_not_ask_while_held() {
    let asked = Cell::new(0u32);
    let mut mutex = MutexOnLock::new(1u32, |_: &u32| {
        asked.set(asked.get() + 1);
        true
    });
    core::mem::forget(mutex.try_lock().unwrap());
    assert_eq!(asked.get(), 1);
    assert!(mutex.try_lock().is_none());
    assert_eq!(asked.get(), 1);
}
