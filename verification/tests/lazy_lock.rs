use std::cell::Cell;

use bare_kernel::sync::LazyLock;
use bare_kernel::sync::Mutex;

#[test]
fn constructor_does_not_run_before_first_use() {
    let runs = Cell::new(0u32);
    let _cell = LazyLock::new(|| {
        runs.set(runs.get() + 1);
        runs.get()
    });
    assert_eq!(runs.get(), 0);
}

#[test]
fn init_runs_exactly_once() {
    let counter = Cell::new(0u32);
    let mut cell = LazyLock::new(|| {
        counter.set(counter.get() + 1);
        counter.get()
    });
    let mut wins = 0;
    let mut seen = Vec::new();
    for _ in 0..8 {
        if cell.try_init() {
            wins += 1;
        }
        seen.push(*cell.force());
    }
    assert_eq!(wins, 1);
    assert_eq!(counter.get(), 1);
    assert_eq!(seen, vec![1u32; 8]);
}

#[test]
fn first_try_init_wins_and_later_ones_lose() {
    let mut cell = LazyLock::new(|| 42u32);
    assert!(cell.try_init());
    assert!(!cell.try_init());
    assert!(!cell.try_init());
    assert_eq!(*cell.force(), 42);
}

#[test]
fn force_constructs_on_first_access() {
    let mut cell = LazyLock::new(|| String::from("built"));
    assert_eq!(cell.force(), "built");
    assert!(!cell.try_init());
}

#[test]
fn force_mut_gives_the_value_for_writing() {
    let mut cell = LazyLock::new(|| 1u32);
    *cell.force_mut() += 10;
    assert_eq!(*cell.force(), 11);
    assert!(!cell.try_init());
    assert_eq!(*cell.force(), 11);
}

#[test]
fn lazy_cell_in_mutex_is_built_by_first_holder() {
    let counter = Cell::new(0u32);
    let mut shared = Mutex::new(LazyLock::new(|| {
        counter.set(counter.get() + 1);
        vec![counter.get(); 3]
    }));
    for _ in 0..4 {
        let mut handle = shared.try_lock().expect("the lock is free between holders");
        assert_eq!(*handle.force(), vec![1u32; 3]);
    }
    assert_eq!(counter.get(), 1);
}

#[test]
fn lazy_cell_in_held_mutex_is_not_built() {
    let counter = Cell::new(0u32);
    let mut shared = Mutex::new(LazyLock::new(|| {
        counter.set(counter.get() + 1);
        counter.get()
    }));
    core::mem::forget(shared.try_lock().unwrap());
    assert!(shared.try_lock().is_none());
    assert_eq!(counter.get(), 0);
}

fn forty_two() -> u32 {
    42
}

#[test]
fn plain_function_is_the_default_constructor_type() {
    let mut cell: LazyLock<u32> = LazyLock::new(forty_two);
    assert!(cell.try_init());
    assert_eq!(*cell.force(), 42);
}
