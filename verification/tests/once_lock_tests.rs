use skirt::once_lock::OnceLock;

#[test]
fn new_cell_is_empty() {
    let cell: OnceLock<u32> = OnceLock::new();
    assert!(!cell.is_initialized());
    assert_eq!(cell.get(), None);
}

#[test]
fn set_then_get_round_trips() {
    let mut cell = OnceLock::new();
    assert_eq!(cell.set(5), Ok(()));
    assert_eq!(cell.get(), Some(&5));
    assert!(cell.is_initialized());
}

#[test]
fn second_set_is_refused_and_hands_the_value_back() {
    let mut cell = OnceLock::new();
    assert_eq!(cell.set(5), Ok(()));
    assert_eq!(cell.set(6), Err(6));
    assert_eq!(cell.get(), Some(&5));
}

#[test]
fn take_after_set_resets_to_a_fresh_cell() {
    let mut cell = OnceLock::new();
    assert_eq!(cell.set(5), Ok(()));
    assert_eq!(cell.take(), Some(5));
    assert!(!cell.is_initialized());
    assert_eq!(cell.get(), None);
    assert_eq!(cell.set(7), Ok(()));
    assert_eq!(cell.get(), Some(&7));
}

#[test]
fn take_on_an_empty_cell_returns_nothing() {
    let mut cell: OnceLock<u32> = OnceLock::new();
    assert_eq!(cell.take(), None);
}

#[test]
fn get_or_init_runs_only_the_first_initializer() {
    let mut cell = OnceLock::new();
    let mut runs: u32 = 0;
    let first = *cell.get_or_init(|| {
        runs += 1;
        21
    });
    assert_eq!(first, 21);
    let second = *cell.get_or_init(|| {
        runs += 1;
        99
    });
    assert_eq!(second, 21);
    assert_eq!(runs, 1);
    assert_eq!(cell.get(), Some(&21));
}

#[test]
fn get_mut_edits_the_stored_value() {
    let mut cell = OnceLock::new();
    assert!(cell.get_mut().is_none());
    assert_eq!(cell.set(1), Ok(()));
    if let Some(v) = cell.get_mut() {
        *v = 2;
    }
    assert_eq!(cell.get(), Some(&2));
}

#[test]
fn into_inner_returns_the_stored_value() {
    let mut cell = OnceLock::new();
    assert_eq!(cell.set(9), Ok(()));
    assert_eq!(cell.into_inner(), Some(9));
    let empty: OnceLock<u32> = OnceLock::new();
    assert_eq!(empty.into_inner(), None);
}

#[test]
fn clone_copies_the_value_into_an_independent_cell() {
    let mut cell = OnceLock::new();
    assert_eq!(cell.set(5), Ok(()));
    let mut copy = cell.clone();
    assert_eq!(copy.get(), Some(&5));
    assert_eq!(copy.take(), Some(5));
    assert_eq!(cell.get(), Some(&5));

    let empty: OnceLock<u32> = OnceLock::new();
    let empty_copy = empty.clone();
    assert_eq!(empty_copy.get(), None);
}

#[test]
fn default_cell_is_empty() {
    let cell: OnceLock<u32> = OnceLock::default();
    assert_eq!(cell.get(), None);
}

#[test]
fn cells_compare_by_their_stored_values() {
    let empty_a: OnceLock<u32> = OnceLock::new();
    let empty_b: OnceLock<u32> = OnceLock::new();
    assert!(empty_a == empty_b);

    let mut full_a = OnceLock::new();
    let mut full_b = OnceLock::new();
    assert_eq!(full_a.set(5), Ok(()));
    assert_eq!(full_b.set(5), Ok(()));
    assert!(full_a == full_b);

    let mut full_c = OnceLock::new();
    assert_eq!(full_c.set(6), Ok(()));
    assert!(full_a != full_c);
    assert!(full_a != empty_a);
}
