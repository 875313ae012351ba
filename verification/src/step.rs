//! The step rule: one synchronous generation of Conway's Game of Life.
//!
//! Every cell's next state is computed from one fixed snapshot of the
//! previous generation. A neighbor coordinate outside the grid counts as
//! dead: the grid is finite, with no wraparound.

use vstd::prelude::*;

use crate::grid::GridState;
use crate::grid::lemma_row_major_index_bound;

verus! {

/// Whether `(x, y)` lies inside a `w`-by-`h` grid.
pub open spec fn in_bounds(w: nat, h: nat, x: int, y: int) -> bool {
    0 <= x < w && 0 <= y < h
}

/// Whether the cell at `(x, y)` is alive in the row-major sequence `s`;
/// out-of-bounds coordinates are dead.
pub open spec fn alive_at(s: Seq<bool>, w: nat, h: nat, x: int, y: int) -> bool {
    in_bounds(w, h, x, y) && s[y * w + x]
}

/// 1 if the cell at `(x, y)` is alive, else 0.
pub open spec fn alive_one(s: Seq<bool>, w: nat, h: nat, x: int, y: int) -> int {
    if alive_at(s, w, h, x, y) {
        1
    } else {
        0
    }
}

/// The number of live cells among the eight neighbors of `(x, y)`;
/// neighbors outside the grid contribute zero.
pub open spec fn neighbor_count(s: Seq<bool>, w: nat, h: nat, x: int, y: int) -> int {
    alive_one(s, w, h, x - 1, y - 1) + alive_one(s, w, h, x, y - 1) + alive_one(
        s,
        w,
        h,
        x + 1,
        y - 1,
    ) + alive_one(s, w, h, x - 1, y) + alive_one(s, w, h, x + 1, y) + alive_one(
        s,
        w,
        h,
        x - 1,
        y + 1,
    ) + alive_one(s, w, h, x, y + 1) + alive_one(s, w, h, x + 1, y + 1)
}

/// Conway's transition for one cell: a live cell survives with two or
/// three live neighbors and otherwise dies; a dead cell is born with
/// exactly three; everything else is unchanged (dead).
pub open spec fn next_cell(s: Seq<bool>, w: nat, h: nat, x: int, y: int) -> bool {
    let n = neighbor_count(s, w, h, x, y);
    if alive_at(s, w, h, x, y) {
        n == 2 || n == 3
    } else {
        n == 3
    }
}

/// The whole next generation of a `w`-by-`h` grid held row-major in `s`.
pub open spec fn step_spec(s: Seq<bool>, w: nat, h: nat) -> Seq<bool> {
    Seq::new(w * h, |i: int| next_cell(s, w, h, i % (w as int), i / (w as int)))
}

/// Counts the live neighbors of an in-bounds cell.
pub fn count_live_neighbors(grid: &GridState, x: usize, y: usize) -> (n: u8)
    requires
        grid.wf(),
        x < grid.w(),
        y < grid.h(),
    ensures
        n as int == neighbor_count(grid.view(), grid.w(), grid.h(), x as int, y as int),
{
    let w: usize = grid.width();
    let h: usize = grid.height();
    let mut n: u8 = 0;
    if x > 0 && y > 0 && grid.cell_at(x - 1, y - 1) {
        n = n + 1;
    }
    if y > 0 && grid.cell_at(x, y - 1) {
        n = n + 1;
    }
    if x + 1 < w && y > 0 && grid.cell_at(x + 1, y - 1) {
        n = n + 1;
    }
    if x > 0 && grid.cell_at(x - 1, y) {
        n = n + 1;
    }
    if x + 1 < w && grid.cell_at(x + 1, y) {
        n = n + 1;
    }
    if x > 0 && y + 1 < h && grid.cell_at(x - 1, y + 1) {
        n = n + 1;
    }
    if y + 1 < h && grid.cell_at(x, y + 1) {
        n = n + 1;
    }
    if x + 1 < w && y + 1 < h && grid.cell_at(x + 1, y + 1) {
        n = n + 1;
    }
    n
}

/// Computes the next generation from an immutable snapshot: a new grid of
/// the same dimensions whose every cell follows Conway's transition. The
/// input grid is never written, so the update is synchronous by
/// construction. A zero-width or zero-height grid yields an empty grid.
pub fn step(grid: &GridState) -> (next: GridState)
    requires
        grid.wf(),
    ensures
        next.wf(),
        next.w() == grid.w(),
        next.h() == grid.h(),
        next.view() =~= step_spec(grid.view(), grid.w(), grid.h()),
{
    let w: usize = grid.width();
    let h: usize = grid.height();
    let total: usize = grid.cell_count();
    let mut out = GridState::new(w, h);
    let mut y: usize = 0;
    while y < h
        invariant
            out.wf(),
            out.w() == grid.w(),
            out.h() == grid.h(),
            grid.wf(),
            w == grid.w(),
            h == grid.h(),
            y <= h,
            forall|yy: int, xx: int|
                0 <= yy < y && 0 <= xx < w ==> out.cell(xx, yy) == next_cell(
                    grid.view(),
                    grid.w(),
                    grid.h(),
                    xx,
                    yy,
                ),
        decreases h - y,
    {
        let mut x: usize = 0;
        while x < w
            invariant
                out.wf(),
                out.w() == grid.w(),
                out.h() == grid.h(),
                grid.wf(),
                w == grid.w(),
                h == grid.h(),
                y < h,
                x <= w,
                forall|yy: int, xx: int|
                    0 <= yy < y && 0 <= xx < w ==> out.cell(xx, yy) == next_cell(
                        grid.view(),
                        grid.w(),
                        grid.h(),
                        xx,
                        yy,
                    ),
                forall|xx: int|
                    0 <= xx < x ==> out.cell(xx, y as int) == next_cell(
                        grid.view(),
                        grid.w(),
                        grid.h(),
                        xx,
                        y as int,
                    ),
            decreases w - x,
        {
            let n = count_live_neighbors(grid, x, y);
            let here = grid.cell_at(x, y);
            let alive = if here {
                n == 2 || n == 3
            } else {
                n == 3
            };
            let ghost prev = out;
            let r = out.set(x, y, alive);
            proof {
                assert(r is Ok);
                assert forall|yy: int, xx: int|
                    0 <= yy < h && 0 <= xx < w && (yy != y || xx != x) implies out.cell(xx, yy)
                    == prev.cell(xx, yy) by {
                    lemma_row_major_index_bound(grid.w(), grid.h(), xx as nat, yy as nat);
                    lemma_row_major_index_bound(grid.w(), grid.h(), x as nat, y as nat);
                    crate::grid::lemma_row_major_index_distinct(
                        grid.w(),
                        xx,
                        yy,
                        x as int,
                        y as int,
                    );
                    assert(out.view()[yy * grid.w() + xx] == prev.view()[yy * grid.w() + xx]);
                }
                lemma_row_major_index_bound(grid.w(), grid.h(), x as nat, y as nat);
                assert(out.cell(x as int, y as int) == alive);
            }
            x = x + 1;
        }
        y = y + 1;
    }
    proof {
        lemma_cellwise_matches_step_spec(out, grid);
    }
    out
}

/// A grid whose every cell follows the transition from `src` equals the
/// specified next generation, element for element.
proof fn lemma_cellwise_matches_step_spec(out: GridState, src: &GridState)
    requires
        out.wf(),
        src.wf(),
        out.w() == src.w(),
        out.h() == src.h(),
        forall|yy: int, xx: int|
            0 <= yy < out.h() && 0 <= xx < out.w() ==> out.cell(xx, yy) == next_cell(
                src.view(),
                src.w(),
                src.h(),
                xx,
                yy,
            ),
    ensures
        out.view() =~= step_spec(src.view(), src.w(), src.h()),
{
    let w = src.w();
    let h = src.h();
    let target = step_spec(src.view(), w, h);
    assert forall|i: int| 0 <= i < out.view().len() implies out.view()[i] == target[i] by {
        let x = i % (w as int);
        let y = i / (w as int);
        vstd::arithmetic::div_mod::lemma_fundamental_div_mod(i, w as int);
        vstd::arithmetic::div_mod::lemma_mod_division_less_than_divisor(i, w as int);
        assert(0 <= x < w);
        assert(i == y * w + x);
        lemma_div_below_product(i, w as int, h as int, y);
        assert(0 <= y < h);
        assert(out.cell(x, y) == next_cell(src.view(), w, h, x, y));
        assert(out.view()[i] == out.cell(x, y));
    }
}

/// If `0 <= i < w * h` with `i == y * w + x` and `0 <= x < w`, the row
/// `y` lies below `h`.
proof fn lemma_div_below_product(i: int, w: int, h: int, y: int)
    by (nonlinear_arith)
    requires
        w > 0,
        0 <= i < w * h,
        y * w <= i,
        i < y * w + w,
    ensures
        0 <= y < h,
{
}

/// The step rule is deterministic: identical input grids always produce
/// identical output grids.
pub proof fn lemma_step_deterministic(s1: Seq<bool>, s2: Seq<bool>, w: nat, h: nat)
    requires
        s1 == s2,
    ensures
        step_spec(s1, w, h) == step_spec(s2, w, h),
{
}

/// The generation reached from `s` after `n` steps.
pub open spec fn iterate_step(s: Seq<bool>, w: nat, h: nat, n: nat) -> Seq<bool>
    decreases n,
{
    if n == 0 {
        s
    } else {
        step_spec(iterate_step(s, w, h, (n - 1) as nat), w, h)
    }
}

/// A still life is a stable fixed point: a generation that the step rule
/// maps to itself is unchanged by any number of steps.
pub proof fn lemma_still_life_forever(s: Seq<bool>, w: nat, h: nat, n: nat)
    requires
        step_spec(s, w, h) == s,
    ensures
        iterate_step(s, w, h, n) == s,
    decreases n,
{
    if n > 0 {
        lemma_still_life_forever(s, w, h, (n - 1) as nat);
    }
}

/// Whether `s` holds exactly one live cell, the one at index `i`.
pub open spec fn exactly_one_live(s: Seq<bool>, i: int) -> bool {
    &&& 0 <= i < s.len()
    &&& s[i]
    &&& forall|j: int| 0 <= j < s.len() && j != i ==> !s[j]
}

/// When index `i` holds the only live cell, any live coordinate must be
/// the one that maps to `i`.
proof fn lemma_live_cell_pins_coords(s: Seq<bool>, w: nat, h: nat, i: int, xn: int, yn: int)
    requires
        s.len() == w * h,
        exactly_one_live(s, i),
        alive_at(s, w, h, xn, yn),
    ensures
        xn == i % (w as int),
        yn == i / (w as int),
{
    lemma_row_major_index_bound(w, h, xn as nat, yn as nat);
    assert(yn * w + xn == i);
    vstd::arithmetic::div_mod::lemma_fundamental_div_mod_converse(i, w as int, yn, xn);
}

/// A lone live cell dies of underpopulation and wakes no neighbor: one
/// step of a grid with a single live cell yields the all-dead grid.
pub proof fn lemma_single_live_cell_dies(s: Seq<bool>, w: nat, h: nat, i: int)
    requires
        s.len() == w * h,
        exactly_one_live(s, i),
    ensures
        forall|j: int| 0 <= j < w * h ==> !step_spec(s, w, h)[j],
{
    let wi = w as int;
    assert forall|j: int| 0 <= j < w * h implies !step_spec(s, w, h)[j] by {
        let x = j % wi;
        let y = j / wi;
        vstd::arithmetic::div_mod::lemma_fundamental_div_mod(j, wi);
        vstd::arithmetic::div_mod::lemma_mod_division_less_than_divisor(j, wi);
        lemma_div_below_product(j, wi, h as int, y);
        if alive_at(s, w, h, x - 1, y - 1) {
            lemma_live_cell_pins_coords(s, w, h, i, x - 1, y - 1);
        }
        if alive_at(s, w, h, x, y - 1) {
            lemma_live_cell_pins_coords(s, w, h, i, x, y - 1);
        }
        if alive_at(s, w, h, x + 1, y - 1) {
            lemma_live_cell_pins_coords(s, w, h, i, x + 1, y - 1);
        }
        if alive_at(s, w, h, x - 1, y) {
            lemma_live_cell_pins_coords(s, w, h, i, x - 1, y);
        }
        if alive_at(s, w, h, x + 1, y) {
            lemma_live_cell_pins_coords(s, w, h, i, x + 1, y);
        }
        if alive_at(s, w, h, x - 1, y + 1) {
            lemma_live_cell_pins_coords(s, w, h, i, x - 1, y + 1);
        }
        if alive_at(s, w, h, x, y + 1) {
            lemma_live_cell_pins_coords(s, w, h, i, x, y + 1);
        }
        if alive_at(s, w, h, x + 1, y + 1) {
            lemma_live_cell_pins_coords(s, w, h, i, x + 1, y + 1);
        }
        assert(neighbor_count(s, w, h, x, y) <= 1);
        assert(!next_cell(s, w, h, x, y));
    }
}

/// A live corner cell with no in-bounds live neighbor dies after one
/// step: coordinates beyond the edges contribute nothing, so there is no
/// wraparound to keep it alive.
pub proof fn lemma_isolated_corner_dies(s: Seq<bool>, w: nat, h: nat)
    requires
        s.len() == w * h,
        w >= 1,
        h >= 1,
        alive_at(s, w, h, 0, 0),
        !alive_at(s, w, h, 1, 0),
        !alive_at(s, w, h, 0, 1),
        !alive_at(s, w, h, 1, 1),
    ensures
        !step_spec(s, w, h)[0],
{
    lemma_row_major_index_bound(w, h, 0, 0);
    vstd::arithmetic::div_mod::lemma_small_mod(0, w);
    vstd::arithmetic::div_mod::lemma_basic_div(0, w as int);
    assert(neighbor_count(s, w, h, 0, 0) == 0);
    assert(step_spec(s, w, h)[0] == next_cell(s, w, h, 0, 0));
}

} // verus!
