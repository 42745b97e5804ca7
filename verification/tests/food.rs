use not_snake::food::{cell_is_free, food_candidate, spawn_food};
use not_snake::grid::Cell;

const GRID: (i32, i32) = (16, 9);

fn cell(x: i64, y: i64) -> Cell {
    Cell { x, y }
}

#[test]
fn cell_is_free_tells_free_from_occupied() {
    let snake = vec![cell(2, 0), cell(1, 0), cell(0, 0)];
    assert!(cell_is_free(&snake, GRID, cell(3, 0)));
    assert!(cell_is_free(&snake, GRID, cell(15, 8)));
    assert!(!cell_is_free(&snake, GRID, cell(2, 0)));
    assert!(!cell_is_free(&snake, GRID, cell(1, 0)));
    assert!(!cell_is_free(&snake, GRID, cell(0, 0)));
}

#[test]
fn cell_is_free_rejects_cells_outside_the_grid() {
    let snake = vec![cell(0, 0)];
    assert!(!cell_is_free(&snake, GRID, cell(16, 0)));
    assert!(!cell_is_free(&snake, GRID, cell(0, 9)));
    assert!(!cell_is_free(&snake, GRID, cell(-1, 3)));
    assert!(!cell_is_free(&snake, GRID, cell(3, -1)));
}

#[test]
fn cell_is_free_without_a_snake_is_the_grid() {
    let nothing: Vec<Cell> = Vec::new();
    assert!(cell_is_free(&nothing, GRID, cell(0, 0)));
    assert!(!cell_is_free(&nothing, GRID, cell(16, 9)));
}

#[test]
fn food_candidate_accepts_a_free_cell() {
    let snake = vec![cell(2, 0), cell(1, 0), cell(0, 0)];
    assert_eq!(food_candidate(&snake, GRID, 3, 0), Some(cell(3, 0)));
    assert_eq!(food_candidate(&snake, GRID, 15, 8), Some(cell(15, 8)));
    assert_eq!(food_candidate(&snake, GRID, 0, 1), Some(cell(0, 1)));
}

#[test]
fn food_candidate_rejects_every_occupied_cell() {
    let snake = vec![cell(2, 0), cell(1, 0), cell(0, 0), cell(0, 0)];
    assert_eq!(food_candidate(&snake, GRID, 2, 0), None);
    assert_eq!(food_candidate(&snake, GRID, 1, 0), None);
    assert_eq!(food_candidate(&snake, GRID, 0, 0), None);
}

#[test]
fn food_candidate_rejects_cells_outside_the_grid() {
    let snake = vec![cell(0, 0)];
    assert_eq!(food_candidate(&snake, GRID, 16, 0), None);
    assert_eq!(food_candidate(&snake, GRID, 0, 9), None);
    assert_eq!(food_candidate(&snake, GRID, -1, 0), None);
    assert_eq!(food_candidate(&snake, GRID, 0, i32::MIN), None);
}

#[test]
fn spawn_food_never_lands_on_the_snake() {
    let snake = vec![cell(2, 0), cell(1, 0), cell(0, 0)];
    for _ in 0..500 {
        let food = spawn_food(&snake, GRID, 10_000).expect("the grid has free cells");
        assert!(!snake.contains(&food));
        assert!(0 <= food.x && food.x < 16);
        assert!(0 <= food.y && food.y < 9);
    }
}

#[test]
fn spawn_food_finds_the_only_free_cell() {
    let snake = vec![cell(0, 0), cell(1, 0), cell(3, 0)];
    for _ in 0..50 {
        assert_eq!(spawn_food(&snake, (4, 1), 10_000), Some(cell(2, 0)));
    }
}

#[test]
fn spawn_food_leaves_the_origin_to_a_new_snake() {
    let snake = vec![cell(0, 0)];
    for _ in 0..200 {
        let food = spawn_food(&snake, GRID, 10_000).expect("the grid has free cells");
        assert_ne!(food, cell(0, 0));
    }
}

#[test]
fn spawn_food_reaches_more_than_one_cell() {
    let snake = vec![cell(0, 0)];
    let first = spawn_food(&snake, GRID, 10_000).expect("the grid has free cells");
    let mut other = false;
    for _ in 0..1_000 {
        let food = spawn_food(&snake, GRID, 10_000).expect("the grid has free cells");
        if food != first {
            other = true;
        }
    }
    assert!(other);
}

#[test]
fn spawn_food_gives_up_on_a_full_grid() {
    let snake = vec![cell(0, 0)];
    assert_eq!(spawn_food(&snake, (1, 1), 10_000), None);
    let snake = vec![cell(0, 0), cell(1, 0), cell(1, 1), cell(0, 1)];
    assert_eq!(spawn_food(&snake, (2, 2), 10_000), None);
}

#[test]
fn spawn_food_without_attempts_finds_nothing() {
    let nothing: Vec<Cell> = Vec::new();
    assert_eq!(spawn_food(&nothing, GRID, 0), None);
}

#[test]
fn spawn_food_on_a_grid_without_cells_finds_nothing() {
    let nothing: Vec<Cell> = Vec::new();
    assert_eq!(spawn_food(&nothing, (0, 9), 100), None);
    assert_eq!(spawn_food(&nothing, (16, 0), 100), None);
    assert_eq!(spawn_food(&nothing, (-3, 9), 100), None);
}

#[test]
fn spawn_food_takes_the_first_sample_on_a_clear_grid() {
    let nothing: Vec<Cell> = Vec::new();
    for _ in 0..200 {
        let food = spawn_food(&nothing, GRID, 1).expect("every cell is free");
        assert!(0 <= food.x && food.x < 16 && 0 <= food.y && food.y < 9);
    }
    let outside = vec![cell(16, 0), cell(0, 9), cell(-1, -1)];
    for _ in 0..200 {
        let food = spawn_food(&outside, GRID, 1).expect("every cell is free");
        assert!(0 <= food.x && food.x < 16 && 0 <= food.y && food.y < 9);
    }
}

#[test]
fn spawn_food_on_a_clear_one_cell_grid_is_that_cell() {
    let nothing: Vec<Cell> = Vec::new();
    assert_eq!(spawn_food(&nothing, (1, 1), 1), Some(cell(0, 0)));
}

#[test]
fn spawn_food_ignores_segments_outside_the_grid() {
    let snake = vec![cell(-1, 0), cell(40, 40)];
    assert_eq!(spawn_food(&snake, (1, 1), 10_000), Some(cell(0, 0)));
}
