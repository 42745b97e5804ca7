//! Food placement: rejection sampling of a random free cell.

use vstd::prelude::*;
use crate::grid::{Cell, in_grid, cell_in_grid};

verus! {

/// Whether `c` is a cell of the grid on which no segment of `snake_pos` lies.
pub open spec fn is_free(snake_pos: Seq<Cell>, grid: (i32, i32), c: Cell) -> bool {
    in_grid(c, grid) && !snake_pos.contains(c)
}

/// Calls `macroquad::rand::gen_range` on `i32` bounds. It scales the next
/// draw of the process-wide pseudo-random generator from `[0, 1)` into the
/// range and truncates the result towards zero. Which number comes back
/// depends on the generator's state, so the contract only bounds it: it lies
/// between `low` and `high`, and when `low` is zero and `high` is positive it
/// stays below `high`.
#[verifier::external_body]
fn gen_range(low: i32, high: i32) -> (r: i32)
    requires
        low <= high,
    ensures
        low <= r <= high,
        low == 0 && high > 0 ==> r < high,
{
    macroquad::rand::gen_range(low, high)
}

/// Whether `cell` is a cell of the grid on which no segment of `snake_pos`
/// lies.
pub fn cell_is_free(snake_pos: &Vec<Cell>, game_map_size: (i32, i32), cell: Cell) -> (free: bool)
    ensures
        free == is_free(snake_pos@, game_map_size, cell),
{
    if !cell_in_grid(cell, game_map_size) {
        return false;
    }
    let mut i: usize = 0;
    while i < snake_pos.len()
        invariant
            i <= snake_pos@.len(),
            forall|j: int| 0 <= j < i ==> snake_pos@[j] != cell,
        decreases snake_pos@.len() - i,
    {
        if snake_pos[i].x == cell.x && snake_pos[i].y == cell.y {
            assert(snake_pos@[i as int] == cell);
            return false;
        }
        i += 1;
    }
    true
}

/// Judges one sampled cell `(x, y)`: it becomes the food if it lies inside
/// the grid and on no segment of `snake_pos`, and is rejected otherwise.
pub fn food_candidate(snake_pos: &Vec<Cell>, game_map_size: (i32, i32), x: i32, y: i32) -> (food:
    Option<Cell>)
    ensures
        food == if is_free(snake_pos@, game_map_size, Cell { x: x as i64, y: y as i64 }) {
            Some(Cell { x: x as i64, y: y as i64 })
        } else {
            None
        },
{
    let res = Cell { x: x as i64, y: y as i64 };
    if cell_is_free(snake_pos, game_map_size, res) {
        Some(res)
    } else {
        None
    }
}

/// Looks for a place for the food: samples uniformly random cells of the
/// grid until one is free of the snake, giving up after `attempts` samples.
///
/// The food, if there is one, is a cell of the grid on which no segment
/// lies. On a grid clear of the snake the first sample is taken, whichever
/// it is; on a grid that the snake covers none is found; in between, the
/// draws decide. None is found without a cell or without an attempt.
pub fn spawn_food(snake_pos: &Vec<Cell>, game_map_size: (i32, i32), attempts: u32) -> (food:
    Option<Cell>)
    ensures
        food matches Some(c) ==> is_free(snake_pos@, game_map_size, c),
        attempts == 0 || game_map_size.0 < 1 || game_map_size.1 < 1 ==> food is None,
        grid_is_covered(snake_pos@, game_map_size) ==> food is None,
        attempts > 0 && game_map_size.0 >= 1 && game_map_size.1 >= 1 && grid_is_clear(
            snake_pos@,
            game_map_size,
        ) ==> food is Some,
{
    let mut found: Option<Cell> = None;
    if game_map_size.0 < 1 || game_map_size.1 < 1 {
        return found;
    }
    let mut left: u32 = attempts;
    while left > 0 && found.is_none()
        invariant
            game_map_size.0 >= 1,
            game_map_size.1 >= 1,
            found matches Some(c) ==> is_free(snake_pos@, game_map_size, c),
            left <= attempts,
            attempts == 0 ==> found is None,
            grid_is_clear(snake_pos@, game_map_size) ==> found is Some || left == attempts,
        decreases left,
    {
        let x = gen_range(0, game_map_size.0);
        let y = gen_range(0, game_map_size.1);
        assert(in_grid(Cell { x: x as i64, y: y as i64 }, game_map_size));
        found = food_candidate(snake_pos, game_map_size, x, y);
        left -= 1;
    }
    found
}

/// Whether no segment of `snake_pos` lies on a cell of the grid, so that
/// every cell of the grid is free.
pub open spec fn grid_is_clear(snake_pos: Seq<Cell>, grid: (i32, i32)) -> bool {
    forall|c: Cell| #[trigger] in_grid(c, grid) ==> !snake_pos.contains(c)
}

/// Whether a segment of `snake_pos` lies on every cell of the grid, so that
/// no cell of the grid is free.
pub open spec fn grid_is_covered(snake_pos: Seq<Cell>, grid: (i32, i32)) -> bool {
    forall|c: Cell| #[trigger] in_grid(c, grid) ==> snake_pos.contains(c)
}

} // verus!
