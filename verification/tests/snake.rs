use not_snake::grid::Cell;
use not_snake::snake::{Direction, Snake, SNAKE_DEFAULT_SPEED};

const GRID: (i32, i32) = (16, 9);
const ONE_CELL: i64 = 100_000;

fn cell(x: i64, y: i64) -> Cell {
    Cell { x, y }
}

/// A snake on `[(2,0), (1,0), (0,0)]`, heading right at one cell per frame.
fn three_segments_heading_right() -> Snake {
    let mut snake = Snake::new();
    snake.append();
    snake.append();
    snake.set_dir(Direction::Right);
    snake.set_speed(ONE_CELL);
    snake.update(GRID);
    snake.update(GRID);
    snake
}

#[test]
fn new_snake_is_one_segment_at_the_origin() {
    let snake = Snake::new();
    assert_eq!(snake.pos(), &vec![cell(0, 0)]);
    assert_eq!(snake.len(), 1);
    assert_eq!(snake.head(), cell(0, 0));
    assert_eq!(snake.head_raw(), (0, 0));
    assert_eq!(snake.dir(), Direction::Stopped);
    assert_eq!(snake.speed(), 13_000);
    assert_eq!(SNAKE_DEFAULT_SPEED, 13_000);
    assert!(snake.alive());
    assert!(snake.is_well_formed());
}

#[test]
fn reset_restores_the_initial_state() {
    let mut snake = three_segments_heading_right();
    snake.set_dir(Direction::Up);
    snake.update(GRID);
    assert!(!snake.alive());
    snake.reset();
    assert_eq!(snake.pos(), &vec![cell(0, 0)]);
    assert_eq!(snake.head_raw(), (0, 0));
    assert_eq!(snake.dir(), Direction::Stopped);
    assert_eq!(snake.speed(), 13_000);
    assert!(snake.alive());
    assert!(snake.is_well_formed());
}

#[test]
fn reset_snake_does_not_jump_on_its_next_update() {
    let mut snake = three_segments_heading_right();
    snake.reset();
    snake.set_dir(Direction::Right);
    snake.update(GRID);
    assert_eq!(snake.head(), cell(0, 0));
    assert_eq!(snake.head_raw(), (13_000, 0));
}

#[test]
fn append_adds_one_segment_on_the_tail() {
    let mut snake = three_segments_heading_right();
    assert_eq!(snake.pos(), &vec![cell(2, 0), cell(1, 0), cell(0, 0)]);
    snake.append();
    assert_eq!(snake.len(), 4);
    assert_eq!(snake.pos(), &vec![cell(2, 0), cell(1, 0), cell(0, 0), cell(0, 0)]);
    assert!(snake.is_well_formed());
}

#[test]
fn appended_segment_separates_once_the_snake_moves() {
    let mut snake = three_segments_heading_right();
    snake.append();
    snake.update(GRID);
    assert_eq!(snake.pos(), &vec![cell(3, 0), cell(2, 0), cell(1, 0), cell(0, 0)]);
    assert!(snake.alive());
}

#[test]
fn append_leaves_everything_but_the_body_alone() {
    let mut snake = three_segments_heading_right();
    snake.append();
    assert_eq!(snake.dir(), Direction::Right);
    assert_eq!(snake.speed(), ONE_CELL);
    assert_eq!(snake.head_raw(), (200_000, 0));
    assert!(snake.alive());
}

#[test]
fn pop_on_a_single_segment_changes_nothing() {
    let mut snake = Snake::new();
    snake.pop();
    assert_eq!(snake.pos(), &vec![cell(0, 0)]);
    snake.pop();
    assert_eq!(snake.len(), 1);
    assert!(snake.is_well_formed());
}

#[test]
fn pop_removes_exactly_the_last_segment() {
    let mut snake = three_segments_heading_right();
    snake.pop();
    assert_eq!(snake.pos(), &vec![cell(2, 0), cell(1, 0)]);
    snake.pop();
    assert_eq!(snake.pos(), &vec![cell(2, 0)]);
    snake.pop();
    assert_eq!(snake.pos(), &vec![cell(2, 0)]);
}

#[test]
fn update_right_at_full_speed_moves_one_cell() {
    let mut snake = Snake::new();
    snake.set_dir(Direction::Right);
    snake.set_speed(ONE_CELL);
    snake.update(GRID);
    assert_eq!(snake.head(), cell(1, 0));
    assert_eq!(snake.pos(), &vec![cell(1, 0)]);
    assert!(snake.alive());
}

#[test]
fn update_moves_along_each_direction() {
    let mut snake = Snake::new();
    snake.set_speed(ONE_CELL);
    snake.set_dir(Direction::Down);
    snake.update(GRID);
    assert_eq!(snake.head(), cell(0, 1));
    snake.set_dir(Direction::Right);
    snake.update(GRID);
    assert_eq!(snake.head(), cell(1, 1));
    snake.set_dir(Direction::Up);
    snake.update(GRID);
    assert_eq!(snake.head(), cell(1, 0));
    snake.set_dir(Direction::Left);
    snake.update(GRID);
    assert_eq!(snake.head(), cell(0, 0));
    assert!(snake.alive());
}

#[test]
fn stopped_snake_stays_where_it_is() {
    let mut snake = three_segments_heading_right();
    snake.set_dir(Direction::Stopped);
    snake.update(GRID);
    snake.update(GRID);
    assert_eq!(snake.pos(), &vec![cell(2, 0), cell(1, 0), cell(0, 0)]);
    assert_eq!(snake.head_raw(), (200_000, 0));
    assert!(snake.alive());
}

#[test]
fn fractional_speed_accumulates_until_a_cell_is_crossed() {
    let mut snake = Snake::new();
    snake.set_dir(Direction::Right);
    let mut heads = Vec::new();
    for _ in 0..12 {
        snake.update(GRID);
        heads.push(snake.head().x);
    }
    // 0.13 cells per frame: 0.52 after four frames, 1.56 after twelve.
    assert_eq!(heads, vec![0, 0, 0, 1, 1, 1, 1, 1, 1, 1, 1, 2]);
    assert_eq!(snake.head_raw(), (156_000, 0));
}

#[test]
fn body_only_follows_when_the_head_enters_a_new_cell() {
    let mut snake = three_segments_heading_right();
    snake.set_speed(40_000);
    snake.update(GRID);
    assert_eq!(snake.pos(), &vec![cell(2, 0), cell(1, 0), cell(0, 0)]);
    snake.update(GRID);
    assert_eq!(snake.pos(), &vec![cell(3, 0), cell(2, 0), cell(1, 0)]);
}

#[test]
fn repeated_updates_never_move_the_head_backwards() {
    let directions = [Direction::Up, Direction::Down, Direction::Left, Direction::Right];
    for dir in directions {
        let mut snake = Snake::new();
        snake.set_dir(dir);
        snake.set_speed(37_000);
        let mut before = snake.head();
        for _ in 0..40 {
            snake.update(GRID);
            let after = snake.head();
            match dir {
                Direction::Up => assert!(after.x == before.x && after.y <= before.y),
                Direction::Down => assert!(after.x == before.x && after.y >= before.y),
                Direction::Left => assert!(after.y == before.y && after.x <= before.x),
                Direction::Right => assert!(after.y == before.y && after.x >= before.x),
                Direction::Stopped => unreachable!(),
            }
            before = after;
        }
        assert_ne!(snake.head(), cell(0, 0));
    }
}

#[test]
fn negative_speed_moves_against_the_direction() {
    let mut snake = three_segments_heading_right();
    snake.pop();
    snake.pop();
    snake.set_speed(-ONE_CELL);
    snake.update(GRID);
    assert_eq!(snake.head(), cell(1, 0));
    assert!(snake.alive());
}

#[test]
fn reversing_into_the_body_kills_a_three_segment_snake() {
    let mut snake = three_segments_heading_right();
    assert_eq!(snake.pos(), &vec![cell(2, 0), cell(1, 0), cell(0, 0)]);
    assert!(snake.alive());
    snake.set_dir(Direction::Left);
    snake.update(GRID);
    assert!(!snake.alive());
    assert_eq!(snake.head(), cell(1, 0));
    assert_eq!(snake.pos(), &vec![cell(1, 0), cell(2, 0), cell(1, 0)]);
}

#[test]
fn reversing_left_then_right_leaves_the_snake_dead() {
    let mut snake = three_segments_heading_right();
    snake.set_dir(Direction::Left);
    snake.update(GRID);
    snake.set_dir(Direction::Right);
    snake.update(GRID);
    assert!(!snake.alive());
    assert_eq!(snake.pos(), &vec![cell(2, 0), cell(1, 0), cell(2, 0)]);
}

#[test]
fn reversing_never_kills_a_two_segment_snake() {
    let mut snake = three_segments_heading_right();
    snake.pop();
    snake.set_dir(Direction::Left);
    snake.update(GRID);
    assert!(snake.alive());
    assert_eq!(snake.pos(), &vec![cell(1, 0), cell(2, 0)]);
    snake.update(GRID);
    assert!(snake.alive());
    assert_eq!(snake.pos(), &vec![cell(0, 0), cell(1, 0)]);
}

#[test]
fn two_overlapping_segments_do_not_collide() {
    let mut snake = Snake::new();
    snake.append();
    snake.update(GRID);
    assert_eq!(snake.pos(), &vec![cell(0, 0), cell(0, 0)]);
    assert!(snake.alive());
}

#[test]
fn three_overlapping_segments_collide_even_at_rest() {
    let mut snake = Snake::new();
    snake.append();
    snake.append();
    snake.update(GRID);
    assert_eq!(snake.pos(), &vec![cell(0, 0), cell(0, 0), cell(0, 0)]);
    assert!(!snake.alive());
}

#[test]
fn running_into_a_body_segment_kills() {
    // A snake of five segments turning in a tight circle bites its own tail.
    let mut snake = Snake::new();
    for _ in 0..4 {
        snake.append();
    }
    snake.set_speed(ONE_CELL);
    snake.set_dir(Direction::Right);
    for _ in 0..4 {
        snake.update(GRID);
    }
    assert_eq!(snake.pos(), &vec![cell(4, 0), cell(3, 0), cell(2, 0), cell(1, 0), cell(0, 0)]);
    snake.set_dir(Direction::Down);
    snake.update(GRID);
    snake.set_dir(Direction::Left);
    snake.update(GRID);
    assert!(snake.alive());
    assert_eq!(snake.pos(), &vec![cell(3, 1), cell(4, 1), cell(4, 0), cell(3, 0), cell(2, 0)]);
    snake.set_dir(Direction::Up);
    snake.update(GRID);
    assert!(!snake.alive());
    assert_eq!(snake.pos(), &vec![cell(3, 0), cell(3, 1), cell(4, 1), cell(4, 0), cell(3, 0)]);
}

#[test]
fn following_the_own_tail_is_safe() {
    // The cell the tail leaves in this frame is free for the head.
    let mut snake = Snake::new();
    for _ in 0..3 {
        snake.append();
    }
    snake.set_speed(ONE_CELL);
    snake.set_dir(Direction::Right);
    for _ in 0..3 {
        snake.update(GRID);
    }
    snake.set_dir(Direction::Down);
    snake.update(GRID);
    snake.set_dir(Direction::Left);
    snake.update(GRID);
    assert_eq!(snake.pos(), &vec![cell(2, 1), cell(3, 1), cell(3, 0), cell(2, 0)]);
    snake.set_dir(Direction::Up);
    snake.update(GRID);
    assert!(snake.alive());
    assert_eq!(snake.pos(), &vec![cell(2, 0), cell(2, 1), cell(3, 1), cell(3, 0)]);
}

#[test]
fn leaving_the_grid_kills_and_still_commits_the_head() {
    let mut snake = Snake::new();
    snake.set_speed(ONE_CELL);
    snake.set_dir(Direction::Up);
    snake.update(GRID);
    assert!(!snake.alive());
    assert_eq!(snake.head(), cell(0, -1));

    let mut snake = Snake::new();
    snake.set_speed(ONE_CELL);
    snake.set_dir(Direction::Left);
    snake.update(GRID);
    assert!(!snake.alive());
    assert_eq!(snake.head(), cell(-1, 0));
}

#[test]
fn the_last_column_and_row_are_inside_the_grid() {
    let mut snake = Snake::new();
    snake.set_speed(ONE_CELL);
    snake.set_dir(Direction::Right);
    for _ in 0..15 {
        snake.update(GRID);
    }
    assert_eq!(snake.head(), cell(15, 0));
    assert!(snake.alive());
    snake.update(GRID);
    assert_eq!(snake.head(), cell(16, 0));
    assert!(!snake.alive());

    let mut snake = Snake::new();
    snake.set_speed(ONE_CELL);
    snake.set_dir(Direction::Down);
    for _ in 0..8 {
        snake.update(GRID);
    }
    assert_eq!(snake.head(), cell(0, 8));
    assert!(snake.alive());
    snake.update(GRID);
    assert_eq!(snake.head(), cell(0, 9));
    assert!(!snake.alive());
}

#[test]
fn a_shrunken_grid_kills_a_snake_at_rest() {
    let mut snake = three_segments_heading_right();
    snake.set_dir(Direction::Stopped);
    snake.update((2, 9));
    assert!(!snake.alive());
    assert_eq!(snake.head(), cell(2, 0));
}

#[test]
fn a_dead_snake_stays_dead_and_keeps_moving() {
    let mut snake = Snake::new();
    snake.set_speed(ONE_CELL);
    snake.set_dir(Direction::Up);
    snake.update(GRID);
    assert!(!snake.alive());
    snake.set_dir(Direction::Down);
    snake.update(GRID);
    assert_eq!(snake.head(), cell(0, 0));
    assert!(!snake.alive());
}

#[test]
fn set_alive_revives_the_snake_in_place() {
    let mut snake = Snake::new();
    snake.set_speed(ONE_CELL);
    snake.set_dir(Direction::Up);
    snake.update(GRID);
    snake.set_alive(true);
    assert!(snake.alive());
    assert_eq!(snake.head(), cell(0, -1));
    snake.set_dir(Direction::Down);
    snake.update(GRID);
    assert!(snake.alive());
    assert_eq!(snake.head(), cell(0, 0));
}

#[test]
fn motion_stops_at_the_end_of_the_number_range() {
    let mut snake = Snake::new();
    snake.set_dir(Direction::Right);
    snake.set_speed(i64::MAX);
    snake.update((i32::MAX, 9));
    assert_eq!(snake.head_raw(), (i64::MAX, 0));
    assert_eq!(snake.head(), cell(92_233_720_368_548, 0));
    snake.update((i32::MAX, 9));
    assert_eq!(snake.head_raw(), (i64::MAX, 0));
    assert_eq!(snake.head(), cell(92_233_720_368_548, 0));
    assert!(!snake.alive());

    let mut snake = Snake::new();
    snake.set_dir(Direction::Up);
    snake.set_speed(i64::MIN);
    snake.update(GRID);
    assert_eq!(snake.head_raw(), (0, i64::MAX));
    snake.set_dir(Direction::Down);
    snake.update(GRID);
    assert_eq!(snake.head_raw(), (0, -1));
    snake.update(GRID);
    assert_eq!(snake.head_raw(), (0, i64::MIN));
    assert!(snake.is_well_formed());
}

#[test]
fn setters_change_only_their_own_field() {
    let mut snake = three_segments_heading_right();
    snake.set_dir(Direction::Down);
    snake.set_speed(-7);
    snake.set_alive(false);
    assert_eq!(snake.dir(), Direction::Down);
    assert_eq!(snake.speed(), -7);
    assert!(!snake.alive());
    assert_eq!(snake.pos(), &vec![cell(2, 0), cell(1, 0), cell(0, 0)]);
    assert_eq!(snake.head_raw(), (200_000, 0));
    assert!(snake.is_well_formed());
}
