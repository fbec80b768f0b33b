use skirt::lazy_lock::LazyLock;
use std::cell::Cell;

#[test]
fn get_is_empty_before_the_first_force() {
    let lazy = LazyLock::new(|| 42);
    assert_eq!(LazyLock::get(&lazy), None);
}

#[test]
fn force_computes_and_caches_the_value() {
    let mut lazy = LazyLock::new(|| 42);
    assert_eq!(*LazyLock::force(&mut lazy), 42);
    assert_eq!(LazyLock::get(&lazy), Some(&42));
}

#[test]
fn initializer_runs_exactly_once_across_many_forces() {
    let runs = Cell::new(0u32);
    let mut lazy = LazyLock::new(|| {
        runs.set(runs.get() + 1);
        42
    });
    for _ in 0..100 {
        assert_eq!(*LazyLock::force(&mut lazy), 42);
    }
    assert_eq!(runs.get(), 1);
    assert_eq!(LazyLock::get(&lazy), Some(&42));
}

#[test]
fn forced_value_survives_for_the_rest_of_life() {
    let mut lazy = LazyLock::new(|| "ready".to_string());
    assert_eq!(LazyLock::get(&lazy), None);
    assert_eq!(LazyLock::force(&mut lazy), "ready");
    assert_eq!(LazyLock::get(&lazy), Some(&"ready".to_string()));
    assert_eq!(LazyLock::force(&mut lazy), "ready");
}
