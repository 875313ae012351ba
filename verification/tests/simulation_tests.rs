use game_of_life::grid::GridState;
use game_of_life::simulation::randomize;
use game_of_life::simulation::simulate;
use game_of_life::simulation::switch_game_state;
use game_of_life::simulation::toggle_cell;
use game_of_life::simulation::CurrentGameState;
use game_of_life::simulation::SimulationTimer;

const TILE: i64 = 50;

#[test]
fn switch_game_state_flips_once_per_event() {
    let mut state = CurrentGameState::Paused;
    switch_game_state(&mut state);
    assert_eq!(state, CurrentGameState::Playing);
    switch_game_state(&mut state);
    assert_eq!(state, CurrentGameState::Paused);
}

#[test]
fn toggle_twice_restores_the_cell() {
    let mut g = GridState::new(4, 4);
    let paused = CurrentGameState::Paused;
    // Position inside cell (2, 1).
    let pos = (2 * TILE + 7, TILE + 13);
    assert!(toggle_cell(&mut g, &paused, pos, TILE));
    assert_eq!(g.get(2, 1), Ok(true));
    assert!(toggle_cell(&mut g, &paused, pos, TILE));
    assert_eq!(g.get(2, 1), Ok(false));
    for y in 0..4 {
        for x in 0..4 {
            assert_eq!(g.get(x, y), Ok(false));
        }
    }
}

#[test]
fn toggle_while_playing_is_a_no_op() {
    let mut g = GridState::new(4, 4);
    g.set(1, 1, true).unwrap();
    let playing = CurrentGameState::Playing;
    assert!(!toggle_cell(&mut g, &playing, (TILE + 1, TILE + 1), TILE));
    assert_eq!(g.get(1, 1), Ok(true));
    for y in 0..4 {
        for x in 0..4 {
            let expected = x == 1 && y == 1;
            assert_eq!(g.get(x, y), Ok(expected));
        }
    }
}

#[test]
fn toggle_outside_the_grid_is_dropped() {
    let mut g = GridState::new(4, 4);
    let paused = CurrentGameState::Paused;
    assert!(!toggle_cell(&mut g, &paused, (4 * TILE, 0), TILE));
    assert!(!toggle_cell(&mut g, &paused, (-1, 0), TILE));
    for y in 0..4 {
        for x in 0..4 {
            assert_eq!(g.get(x, y), Ok(false));
        }
    }
}

#[test]
fn timer_fires_on_expiry_and_carries_the_remainder() {
    let mut t = SimulationTimer::from_interval(10);
    assert!(!t.tick(9));
    assert_eq!(t.current_elapsed(), 9);
    assert!(t.tick(1));
    assert_eq!(t.current_elapsed(), 0);
    assert!(t.tick(13));
    assert_eq!(t.current_elapsed(), 3);
    assert!(!t.tick(6));
    assert_eq!(t.current_elapsed(), 9);
    assert_eq!(t.current_interval(), 10);
}

#[test]
fn default_timer_uses_the_configured_interval() {
    let t = SimulationTimer::default();
    assert_eq!(
        t.current_interval(),
        game_of_life::constants::SIMULATION_TICK_TIME
    );
    assert_eq!(t.current_elapsed(), 0);
}

#[test]
fn simulate_steps_the_grid_when_playing() {
    let mut g = GridState::new(5, 5);
    for &(x, y) in &[(1usize, 2usize), (2, 2), (3, 2)] {
        g.set(x, y, true).unwrap();
    }
    let mut t = SimulationTimer::from_interval(10);
    let playing = CurrentGameState::Playing;
    assert!(simulate(&mut g, &mut t, &playing, 10));
    // The horizontal blinker is now vertical.
    assert_eq!(g.get(2, 1), Ok(true));
    assert_eq!(g.get(2, 2), Ok(true));
    assert_eq!(g.get(2, 3), Ok(true));
    assert_eq!(g.get(1, 2), Ok(false));
    assert_eq!(g.get(3, 2), Ok(false));
}

#[test]
fn simulate_before_expiry_changes_nothing() {
    let mut g = GridState::new(5, 5);
    g.set(2, 2, true).unwrap();
    let mut t = SimulationTimer::from_interval(10);
    let playing = CurrentGameState::Playing;
    assert!(!simulate(&mut g, &mut t, &playing, 9));
    assert_eq!(g.get(2, 2), Ok(true));
}

#[test]
fn paused_simulation_accumulates_time_but_never_steps() {
    let mut g = GridState::new(5, 5);
    g.set(2, 2, true).unwrap();
    let mut t = SimulationTimer::from_interval(10);
    let paused = CurrentGameState::Paused;
    // The timer keeps accumulating (and firing) while paused, but the
    // grid is never stepped.
    assert!(!simulate(&mut g, &mut t, &paused, 25));
    assert_eq!(t.current_elapsed(), 15);
    assert_eq!(g.get(2, 2), Ok(true));
    // Once playing, the accrued time counts toward the next tick.
    let playing = CurrentGameState::Playing;
    assert!(simulate(&mut g, &mut t, &playing, 0));
    assert_eq!(t.current_elapsed(), 5);
    assert_eq!(g.get(2, 2), Ok(false));
}

#[test]
fn randomize_while_playing_is_a_no_op() {
    let mut g = GridState::new(8, 8);
    g.set(3, 3, true).unwrap();
    let playing = CurrentGameState::Playing;
    randomize(&mut g, &playing);
    for y in 0..8 {
        for x in 0..8 {
            let expected = x == 3 && y == 3;
            assert_eq!(g.get(x, y), Ok(expected));
        }
    }
}

#[test]
fn randomize_overwrites_the_whole_grid() {
    // Start from an all-alive grid; afterwards some cells are dead with
    // overwhelming probability, since each stays alive with chance 1/3.
    let mut g = GridState::new(50, 50);
    let paused = CurrentGameState::Paused;
    for y in 0..50 {
        for x in 0..50 {
            g.set(x, y, true).unwrap();
        }
    }
    randomize(&mut g, &paused);
    let alive = (0..50)
        .flat_map(|y| (0..50).map(move |x| (x, y)))
        .filter(|&(x, y)| g.get(x, y).unwrap())
        .count();
    assert!(alive < 2500);
    assert_eq!(g.width(), 50);
    assert_eq!(g.height(), 50);
}

#[test]
fn randomize_alive_fraction_is_near_one_third() {
    let paused = CurrentGameState::Paused;
    let trials = 30usize;
    let side = 100usize;
    let mut alive_total = 0usize;
    let mut pair_total = 0usize;
    let mut pairs_both_alive = 0usize;
    for _ in 0..trials {
        let mut g = GridState::new(side, side);
        randomize(&mut g, &paused);
        for y in 0..side {
            for x in 0..side {
                if g.get(x, y).unwrap() {
                    alive_total += 1;
                }
                if x + 1 < side {
                    pair_total += 1;
                    if g.get(x, y).unwrap() && g.get(x + 1, y).unwrap() {
                        pairs_both_alive += 1;
                    }
                }
            }
        }
    }
    let samples = (trials * side * side) as f64;
    let fraction = alive_total as f64 / samples;
    assert!(
        (fraction - 1.0 / 3.0).abs() < 0.02,
        "alive fraction {fraction} too far from 1/3"
    );
    // Neighboring cells are drawn independently, so both are alive about
    // one time in nine.
    let pair_fraction = pairs_both_alive as f64 / pair_total as f64;
    assert!(
        (pair_fraction - 1.0 / 9.0).abs() < 0.02,
        "adjacent pair fraction {pair_fraction} too far from 1/9"
    );
}
