//! The frame-driven simulation core: the play/pause mode, the repeating
//! tick timer, the editing operations that run while paused, and the
//! tick that replaces the grid with its next generation while playing.

use vstd::prelude::*;

use rand::Rng;

use crate::grid::GridState;
use crate::step::step;
use crate::step::step_spec;
use crate::utils::get_cell_from_position;

verus! {

/// The two-valued play mode. While `Paused` the grid is edited by hand;
/// while `Playing` the timer drives the step rule.
#[derive(Clone, Copy, Debug, PartialEq, Eq, Structural)]
pub enum CurrentGameState {
    Playing,
    Paused,
}

/// The mode after one explicit toggle request.
pub open spec fn switched(s: CurrentGameState) -> CurrentGameState {
    match s {
        CurrentGameState::Playing => CurrentGameState::Paused,
        CurrentGameState::Paused => CurrentGameState::Playing,
    }
}

/// Flips the play mode: exactly one transition per discrete request.
/// The caller debounces held input and calls this once per event.
pub fn switch_game_state(game_state: &mut CurrentGameState)
    ensures
        *final(game_state) == switched(*old(game_state)),
{
    *game_state = match *game_state {
        CurrentGameState::Playing => CurrentGameState::Paused,
        CurrentGameState::Paused => CurrentGameState::Playing,
    };
}

/// The repeating timer that gates simulation ticks. Time is counted in
/// the caller's unit (the crate's constants use milliseconds).
pub struct SimulationTimer {
    elapsed: u64,
    tick_interval: u64,
}

impl SimulationTimer {
    /// Accumulated time not yet consumed by a tick.
    pub closed spec fn elapsed(&self) -> nat {
        self.elapsed as nat
    }

    /// Time between ticks.
    pub closed spec fn interval(&self) -> nat {
        self.tick_interval as nat
    }

    /// Well-formedness: the interval is positive.
    pub open spec fn wf(&self) -> bool {
        self.interval() >= 1
    }

    /// A fresh timer with the given interval and nothing accumulated.
    pub fn from_interval(tick_interval: u64) -> (t: SimulationTimer)
        requires
            tick_interval >= 1,
        ensures
            t.wf(),
            t.elapsed() == 0,
            t.interval() == tick_interval,
    {
        SimulationTimer { elapsed: 0, tick_interval }
    }

    /// A fresh timer with the default tick interval.
    pub fn new() -> (t: SimulationTimer)
        ensures
            t.wf(),
            t.elapsed() == 0,
            t.interval() == crate::constants::SIMULATION_TICK_TIME,
    {
        SimulationTimer::from_interval(crate::constants::SIMULATION_TICK_TIME)
    }

    /// The accumulated time, as an executable value.
    pub fn current_elapsed(&self) -> (r: u64)
        ensures
            r == self.elapsed(),
    {
        self.elapsed
    }

    /// The tick interval, as an executable value.
    pub fn current_interval(&self) -> (r: u64)
        ensures
            r == self.interval(),
    {
        self.tick_interval
    }

    /// Advances the timer by the frame time `dt`. A tick fires when the
    /// accumulated time reaches the interval; the interval is then
    /// subtracted, not zeroed, so the remainder carries forward and
    /// timing stays accurate under frame jitter.
    pub fn tick(&mut self, dt: u64) -> (fired: bool)
        requires
            old(self).wf(),
            old(self).elapsed() + dt <= u64::MAX,
        ensures
            final(self).wf(),
            final(self).interval() == old(self).interval(),
            fired <==> old(self).elapsed() + dt >= old(self).interval(),
            fired ==> final(self).elapsed() == old(self).elapsed() + dt - old(self).interval(),
            !fired ==> final(self).elapsed() == old(self).elapsed() + dt,
    {
        self.elapsed = self.elapsed + dt;
        if self.elapsed >= self.tick_interval {
            self.elapsed = self.elapsed - self.tick_interval;
            true
        } else {
            false
        }
    }
}

impl Default for SimulationTimer {
    /// Same as `SimulationTimer::new`.
    fn default() -> (t: SimulationTimer)
        ensures
            t.wf(),
            t.elapsed() == 0,
            t.interval() == crate::constants::SIMULATION_TICK_TIME,
    {
        SimulationTimer::new()
    }
}

/// The cells after the cell at index `i` is toggled.
pub open spec fn toggled(s: Seq<bool>, i: int) -> Seq<bool> {
    s.update(i, !s[i])
}

/// Toggling the same cell twice restores the original cells: by the
/// contract of `toggle_cell`, two paused toggles of one in-bounds
/// position leave the grid exactly as it was.
pub proof fn lemma_toggle_twice(s: Seq<bool>, i: int)
    requires
        0 <= i < s.len(),
    ensures
        toggled(toggled(s, i), i) =~= s,
{
}

/// Flips the cell under a continuous position, but only while `Paused`
/// and only when the position maps into the grid; while `Playing`, and
/// for positions outside the grid, the grid is left untouched.
pub fn toggle_cell(
    grid: &mut GridState,
    game_state: &CurrentGameState,
    position: (i64, i64),
    tile_size: i64,
) -> (applied: bool)
    requires
        old(grid).wf(),
        tile_size >= 1,
    ensures
        final(grid).wf(),
        final(grid).w() == old(grid).w(),
        final(grid).h() == old(grid).h(),
        ({
            let cx = position.0 as int / tile_size as int;
            let cy = position.1 as int / tile_size as int;
            let hit = *game_state is Paused && 0 <= cx < old(grid).w() && 0 <= cy < old(
                grid,
            ).h();
            &&& applied == hit
            &&& hit ==> final(grid).view() =~= toggled(
                old(grid).view(),
                cy * old(grid).w() + cx,
            )
            &&& !hit ==> final(grid).view() =~= old(grid).view()
        }),
{
    match *game_state {
        CurrentGameState::Playing => false,
        CurrentGameState::Paused => {
            let (cx, cy) = get_cell_from_position(position, tile_size);
            let w: usize = grid.width();
            let h: usize = grid.height();
            if cx >= 0 && cy >= 0 && (cx as u64) < (w as u64) && (cy as u64) < (h as u64) {
                let x: usize = cx as usize;
                let y: usize = cy as usize;
                let cur = grid.cell_at(x, y);
                let r = grid.set(x, y, !cur);
                proof {
                    assert(r is Ok);
                }
                true
            } else {
                false
            }
        },
    }
}

/// Relies on `rand::Rng::gen_range` over `0..n` on the thread rng: a
/// draw in `[0, n)`; it panics only on an empty range, which the
/// precondition rules out. Nothing is promised about which value comes
/// back.
#[verifier::external_body]
fn rand_below(n: u32) -> (r: u32)
    requires
        n >= 1,
    ensures
        r < n,
{
    rand::thread_rng().gen_range(0..n)
}

/// Overwrites every cell with an independent random draw that is alive
/// with probability one in `RANDOMIZE_ONE_IN` (a third), but only while
/// `Paused`; while `Playing` the grid is left untouched. The dimensions
/// never change.
pub fn randomize(grid: &mut GridState, game_state: &CurrentGameState)
    requires
        old(grid).wf(),
    ensures
        final(grid).wf(),
        final(grid).w() == old(grid).w(),
        final(grid).h() == old(grid).h(),
        *game_state is Playing ==> final(grid).view() =~= old(grid).view(),
{
    match *game_state {
        CurrentGameState::Playing => {},
        CurrentGameState::Paused => {
            let total: usize = grid.cell_count();
            let mut bits: Vec<bool> = Vec::new();
            let mut i: usize = 0;
            while i < total
                invariant
                    i <= total,
                    bits@.len() == i,
                decreases total - i,
            {
                bits.push(rand_below(crate::constants::RANDOMIZE_ONE_IN) == 0);
                i = i + 1;
            }
            grid.overwrite(&bits);
        },
    }
}

/// One frame of the simulation: the timer always accumulates the frame
/// time `dt` (also while paused), and when a tick fires while `Playing`
/// the grid is replaced wholesale by its next generation; otherwise the
/// grid is left exactly as it was.
pub fn simulate(
    grid: &mut GridState,
    timer: &mut SimulationTimer,
    game_state: &CurrentGameState,
    dt: u64,
) -> (stepped: bool)
    requires
        old(grid).wf(),
        old(timer).wf(),
        old(timer).elapsed() + dt <= u64::MAX,
    ensures
        final(grid).wf(),
        final(grid).w() == old(grid).w(),
        final(grid).h() == old(grid).h(),
        final(timer).wf(),
        final(timer).interval() == old(timer).interval(),
        ({
            let fired = old(timer).elapsed() + dt >= old(timer).interval();
            &&& fired ==> final(timer).elapsed() == old(timer).elapsed() + dt - old(
                timer,
            ).interval()
            &&& !fired ==> final(timer).elapsed() == old(timer).elapsed() + dt
            &&& stepped == (fired && *game_state is Playing)
            &&& stepped ==> final(grid).view() =~= step_spec(
                old(grid).view(),
                old(grid).w(),
                old(grid).h(),
            )
            &&& !stepped ==> final(grid).view() =~= old(grid).view()
        }),
{
    let fired = timer.tick(dt);
    match *game_state {
        CurrentGameState::Playing => {
            if fired {
                let next = step(grid);
                *grid = next;
                true
            } else {
                false
            }
        },
        CurrentGameState::Paused => false,
    }
}

} // verus!
