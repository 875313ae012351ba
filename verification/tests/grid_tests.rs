use game_of_life::grid::GridState;
use game_of_life::grid::OutOfBounds;

#[test]
fn new_grid_is_all_dead() {
    let g = GridState::new(4, 3);
    assert_eq!(g.width(), 4);
    assert_eq!(g.height(), 3);
    for y in 0..3 {
        for x in 0..4 {
            assert_eq!(g.get(x, y), Ok(false));
        }
    }
}

#[test]
fn get_out_of_bounds_is_rejected() {
    let g = GridState::new(4, 3);
    assert_eq!(g.get(4, 0), Err(OutOfBounds));
    assert_eq!(g.get(0, 3), Err(OutOfBounds));
    assert_eq!(g.get(100, 100), Err(OutOfBounds));
}

#[test]
fn set_then_get_roundtrip() {
    let mut g = GridState::new(5, 5);
    assert_eq!(g.set(2, 3, true), Ok(()));
    assert_eq!(g.get(2, 3), Ok(true));
    assert_eq!(g.get(3, 2), Ok(false));
    assert_eq!(g.set(2, 3, false), Ok(()));
    assert_eq!(g.get(2, 3), Ok(false));
}

#[test]
fn set_out_of_bounds_changes_nothing() {
    let mut g = GridState::new(2, 2);
    assert_eq!(g.set(0, 0, true), Ok(()));
    assert_eq!(g.set(2, 0, true), Err(OutOfBounds));
    assert_eq!(g.set(0, 2, true), Err(OutOfBounds));
    assert_eq!(g.get(0, 0), Ok(true));
    assert_eq!(g.get(1, 0), Ok(false));
    assert_eq!(g.get(0, 1), Ok(false));
    assert_eq!(g.get(1, 1), Ok(false));
}

#[test]
fn snapshot_is_an_independent_copy() {
    let mut g = GridState::new(3, 3);
    assert_eq!(g.set(1, 1, true), Ok(()));
    let snap = g.snapshot();
    assert_eq!(snap.get(1, 1), Ok(true));
    assert_eq!(g.set(1, 1, false), Ok(()));
    assert_eq!(snap.get(1, 1), Ok(true));
    assert_eq!(g.get(1, 1), Ok(false));
}

#[test]
fn zero_sized_grid_rejects_every_access() {
    let g = GridState::new(0, 5);
    assert_eq!(g.get(0, 0), Err(OutOfBounds));
    let g2 = GridState::new(5, 0);
    assert_eq!(g2.get(0, 0), Err(OutOfBounds));
}
