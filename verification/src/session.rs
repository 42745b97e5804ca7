//! The game loop controller: the session's state and the rules that carry it
//! from one frame to the next.
//!
//! The host polls the keyboard and the clock once per frame and hands both to
//! [`Session::tick`], then draws what the session holds. A tick applies the
//! input, runs the game-over timer, advances the snake, and lets it eat.

use vstd::prelude::*;
use crate::food::{is_free, grid_is_clear, grid_is_covered, cell_is_free, spawn_food};
use crate::grid::{Cell, in_grid, saturate, saturating_sum, saturating_difference,
    lemma_nearest_cell_is_near};
use crate::snake::{Direction, Snake, SnakeView, SNAKE_DEFAULT_SPEED, lemma_update_keeps_invariant};

verus! {

/// Columns of the grid at the start of a session and after a game-over.
pub const DEFAULT_MAP_WIDTH: i32 = 16;

/// Rows of the grid at the start of a session and after a game-over.
pub const DEFAULT_MAP_HEIGHT: i32 = 9;

/// Milliseconds between the latch of the game-over timer and the restart.
pub const GAME_OVER_TIMER_DURATION: u64 = 1_500;

/// Sub-cell units of speed gained per unit of `length * (length - 1)` when
/// the snake eats: 0.00001 cells per frame.
pub const SNAKE_ACCELERATION_MULTIPLIER: i64 = 1;

/// Sub-cell units by which one frame of the slower or faster key changes the
/// speed: 0.001 cells per frame.
pub const SPEED_STEP: i64 = 100;

/// The grid is enlarged whenever the score, the length minus one, reaches a
/// multiple of this.
pub const GRID_GROWTH_INTERVAL: usize = 10;

/// Columns added when the grid is enlarged.
pub const GRID_GROWTH_WIDTH: i32 = 10;

/// Rows added when the grid is enlarged.
pub const GRID_GROWTH_HEIGHT: i32 = 6;

/// Random cells sampled per food placement before it is given up.
pub const FOOD_SPAWN_ATTEMPTS: u32 = 10_000;

/// Where the session stands between play and restart.
#[derive(Clone, Copy, PartialEq, Eq, Debug, Structural)]
pub enum Phase {
    /// The snake is alive, or god mode keeps the game going.
    Playing,
    /// The snake died in the latest frame; the timer is not yet running.
    GameOverPending,
    /// The game-over timer was latched at `since`, in milliseconds.
    GameOverRecovering { since: u64 },
}

/// The keys of one frame. The direction, resize, length and toggle keys are
/// set in the frame in which the key goes down; `slower` and `faster` are set
/// in every frame in which the key is held.
#[derive(Clone, Copy, PartialEq, Eq, Debug, Structural)]
pub struct FrameInput {
    pub up: bool,
    pub down: bool,
    pub left: bool,
    pub right: bool,
    /// Puts the snake back to its start.
    pub reset: bool,
    /// Adds a segment.
    pub grow: bool,
    /// Removes a segment.
    pub shrink: bool,
    /// Adds a row to the grid.
    pub taller: bool,
    /// Removes a row from the grid.
    pub shorter: bool,
    /// Removes a column from the grid.
    pub narrower: bool,
    /// Adds a column to the grid.
    pub wider: bool,
    pub slower: bool,
    pub faster: bool,
    pub toggle_god_mode: bool,
    pub toggle_help: bool,
    pub toggle_pause: bool,
}

/// The session: the snake, the grid it lives on, the food, and the flags the
/// player toggles.
pub struct Session {
    snake: Snake,
    game_map_size: (i32, i32),
    food_position: Option<Cell>,
    phase: Phase,
    god_mode: bool,
    help_text: bool,
    snake_dir: Direction,
    snake_dir_before_pause: Direction,
}

/// What a [`Session`] is, as plain mathematical data.
pub ghost struct SessionView {
    pub snake: SnakeView,
    /// Columns and rows of the grid.
    pub grid: (i32, i32),
    /// The cell the food lies on; `None` while no place was found for it.
    pub food: Option<Cell>,
    pub phase: Phase,
    pub god_mode: bool,
    pub help_text: bool,
    /// The direction the player asked for; the snake takes it over in the
    /// next update.
    pub snake_dir: Direction,
    /// The direction to go back to when a pause ends.
    pub snake_dir_before_pause: Direction,
}

/// The direction after the frame's direction keys: the key pressed wins, and
/// of several keys pressed in one frame right wins over left, left over down,
/// down over up.
pub open spec fn steered(dir: Direction, input: FrameInput) -> Direction {
    if input.right {
        Direction::Right
    } else if input.left {
        Direction::Left
    } else if input.down {
        Direction::Down
    } else if input.up {
        Direction::Up
    } else {
        dir
    }
}

/// The pair of direction and remembered direction after the pause key: a
/// stopped snake goes back to the remembered direction, a moving snake stops
/// and its direction is remembered.
pub open spec fn pause_toggled(dir: Direction, before_pause: Direction) -> (Direction, Direction) {
    if dir == Direction::Stopped {
        (before_pause, before_pause)
    } else {
        (Direction::Stopped, dir)
    }
}

/// A grid dimension `by` cells larger, held within the range of `i32`.
pub open spec fn enlarged_dimension(cells: i32, by: i32) -> i32 {
    if cells + by > i32::MAX {
        i32::MAX
    } else if cells + by < i32::MIN {
        i32::MIN
    } else {
        (cells + by) as i32
    }
}

/// The grid after the frame's resize keys. A dimension never drops below one
/// cell.
pub open spec fn resized(grid: (i32, i32), input: FrameInput) -> (i32, i32) {
    let rows = if input.taller {
        enlarged_dimension(grid.1, 1)
    } else {
        grid.1
    };
    let rows = if input.shorter && rows > 1 {
        (rows - 1) as i32
    } else {
        rows
    };
    let columns = if input.narrower && grid.0 > 1 {
        (grid.0 - 1) as i32
    } else {
        grid.0
    };
    let columns = if input.wider {
        enlarged_dimension(columns, 1)
    } else {
        columns
    };
    (columns, rows)
}

/// The grid after a growth milestone.
pub open spec fn enlarged(grid: (i32, i32)) -> (i32, i32) {
    (enlarged_dimension(grid.0, GRID_GROWTH_WIDTH), enlarged_dimension(grid.1, GRID_GROWTH_HEIGHT))
}

/// The speed after the frame's speed keys; it has no floor and no ceiling
/// but the range of `i64`.
pub open spec fn tuned(speed: i64, input: FrameInput) -> i64 {
    let speed = if input.slower {
        saturate(speed - SPEED_STEP) as i64
    } else {
        speed
    };
    if input.faster {
        saturate(speed + SPEED_STEP) as i64
    } else {
        speed
    }
}

/// The snake after the frame's snake keys, in this order: reset, grow,
/// shrink, speed.
pub open spec fn edited(snake: SnakeView, input: FrameInput) -> SnakeView {
    let snake = if input.reset {
        SnakeView::initial()
    } else {
        snake
    };
    let snake = if input.grow {
        snake.appended()
    } else {
        snake
    };
    let snake = if input.shrink {
        snake.popped()
    } else {
        snake
    };
    SnakeView { speed: tuned(snake.speed, input), ..snake }
}

/// The pair of direction and remembered direction after the frame's
/// direction keys and then its pause key.
pub open spec fn redirected(dir: Direction, before_pause: Direction, input: FrameInput) -> (
    Direction,
    Direction,
) {
    if input.toggle_pause {
        pause_toggled(steered(dir, input), before_pause)
    } else {
        (steered(dir, input), before_pause)
    }
}

/// The speed after the snake has grown to `length` segments by eating: it
/// gains `length * (length - 1)` times the acceleration multiplier.
pub open spec fn accelerated(speed: i64, length: nat) -> i64 {
    saturate(speed + length * (length - 1) * SNAKE_ACCELERATION_MULTIPLIER) as i64
}

/// Whether growing to `length` segments is a milestone that enlarges the grid.
pub open spec fn is_growth_milestone(length: nat) -> bool {
    length >= 1 && (length - 1) % (GRID_GROWTH_INTERVAL as int) == 0
}

impl SessionView {
    /// The invariant of every session: the snake is well formed and the grid
    /// has at least one column and one row.
    pub open spec fn wf(self) -> bool {
        &&& self.snake.wf()
        &&& self.grid.0 >= 1
        &&& self.grid.1 >= 1
    }

    /// A session at its start, with `food` as the outcome of the first food
    /// placement.
    pub open spec fn initial(food: Option<Cell>) -> SessionView {
        SessionView {
            snake: SnakeView::initial(),
            grid: (DEFAULT_MAP_WIDTH, DEFAULT_MAP_HEIGHT),
            food,
            phase: Phase::Playing,
            god_mode: false,
            help_text: true,
            snake_dir: Direction::Stopped,
            snake_dir_before_pause: Direction::Stopped,
        }
    }

    /// The session after the frame's keys were applied: the snake keys, the
    /// grid keys, the god mode and help toggles, and the direction and pause
    /// keys each act on their own part of the session.
    pub open spec fn with_input(self, input: FrameInput) -> SessionView {
        let (dir, before_pause) = redirected(self.snake_dir, self.snake_dir_before_pause, input);
        SessionView {
            snake: edited(self.snake, input),
            grid: resized(self.grid, input),
            god_mode: self.god_mode != input.toggle_god_mode,
            help_text: self.help_text != input.toggle_help,
            snake_dir: dir,
            snake_dir_before_pause: before_pause,
            ..self
        }
    }

    /// Whether the game-over timer has run out at time `now`: it was latched,
    /// and at least [`GAME_OVER_TIMER_DURATION`] milliseconds have passed.
    pub open spec fn recovery_due(self, now: u64) -> bool {
        self.phase matches Phase::GameOverRecovering { since } && now - since
            >= GAME_OVER_TIMER_DURATION
    }

    /// The session restarted after a game-over: default grid, a fresh snake
    /// at the default speed, and `spawned` as the outcome of the food
    /// placement. God mode, the help text and the player's direction stay.
    pub open spec fn restarted(self, spawned: Option<Cell>) -> SessionView {
        SessionView {
            snake: SnakeView::initial(),
            grid: (DEFAULT_MAP_WIDTH, DEFAULT_MAP_HEIGHT),
            food: spawned,
            phase: Phase::Playing,
            ..self
        }
    }

    /// The session after the game-over timer had its turn at time `now`: a
    /// pending game-over latches the timer, a timer that has run out restarts
    /// the session, and anything else changes nothing.
    pub open spec fn recovered(self, now: u64, spawned: Option<Cell>) -> SessionView {
        match self.phase {
            Phase::Playing => self,
            Phase::GameOverPending => SessionView {
                phase: Phase::GameOverRecovering { since: now },
                ..self
            },
            Phase::GameOverRecovering { since } => if self.recovery_due(now) {
                self.restarted(spawned)
            } else {
                self
            },
        }
    }

    /// The session after the snake's update: a game-over forces the direction
    /// to `Stopped`, the snake updates on the current grid, a dead snake ends
    /// play, and god mode revives the snake and returns to play.
    pub open spec fn advanced(self) -> SessionView {
        let dir = if self.phase == Phase::Playing {
            self.snake_dir
        } else {
            Direction::Stopped
        };
        let snake = (SnakeView { dir, ..self.snake }).updated(self.grid);
        if self.god_mode {
            SessionView {
                snake: SnakeView { alive: true, ..snake },
                phase: Phase::Playing,
                snake_dir: dir,
                ..self
            }
        } else {
            SessionView {
                snake,
                phase: if !snake.alive && self.phase == Phase::Playing {
                    Phase::GameOverPending
                } else {
                    self.phase
                },
                snake_dir: dir,
                ..self
            }
        }
    }

    /// Whether the snake eats in this frame: the game is on and the head lies
    /// on the food.
    pub open spec fn eats(self) -> bool {
        self.phase == Phase::Playing && self.food == Some(self.snake.head())
    }

    /// The session after a growth event, with `spawned` as the outcome of the
    /// food placement: the snake grows by one segment and gains speed by its
    /// new length, and on a milestone the grid is enlarged.
    pub open spec fn grown(self, spawned: Option<Cell>) -> SessionView {
        let snake = self.snake.appended();
        SessionView {
            snake: SnakeView { speed: accelerated(snake.speed, snake.segments.len()), ..snake },
            grid: if is_growth_milestone(snake.segments.len()) {
                enlarged(self.grid)
            } else {
                self.grid
            },
            food: spawned,
            ..self
        }
    }

    /// The session after the snake had its chance to eat.
    pub open spec fn fed(self, spawned: Option<Cell>) -> SessionView {
        if self.eats() {
            self.grown(spawned)
        } else {
            self
        }
    }

    /// Whether no segment lies on a cell of the grid. A food placement then
    /// finds food with its first sample.
    pub open spec fn grid_clear(self) -> bool {
        grid_is_clear(self.snake.segments, self.grid)
    }

    /// Whether a segment lies on every cell of the grid. No food placement
    /// can then find food.
    pub open spec fn grid_covered(self) -> bool {
        grid_is_covered(self.snake.segments, self.grid)
    }

    /// The session as the frame at time `now` with keys `input` has it when
    /// the snake gets its chance to eat, in a frame that does not restart.
    pub open spec fn at_feeding(self, input: FrameInput, now: u64) -> SessionView {
        self.with_input(input).recovered(now, self.food).advanced()
    }

    /// Whether the snake eats in the frame at time `now` with keys `input`.
    /// A frame that restarts the session never lets the snake eat.
    pub open spec fn eats_in_frame(self, input: FrameInput, now: u64) -> bool {
        !self.with_input(input).recovery_due(now) && self.at_feeding(input, now).eats()
    }

    /// Whether the frame at time `now` with keys `input` places new food:
    /// it restarts the session, or the snake eats.
    pub open spec fn spawns_food(self, input: FrameInput, now: u64) -> bool {
        self.with_input(input).recovery_due(now) || self.eats_in_frame(input, now)
    }

    /// The session after the frame at time `now` with keys `input`, with
    /// `spawned` as the outcome of the frame's food placement, if it makes one.
    pub open spec fn ticked(self, input: FrameInput, now: u64, spawned: Option<Cell>) -> SessionView {
        self.with_input(input).recovered(now, spawned).advanced().fed(spawned)
    }
}

/// Whatever keys are pressed, the snake stays well formed and the grid keeps
/// at least one column and one row.
pub proof fn lemma_input_keeps_invariant(s: SessionView, input: FrameInput)
    requires
        s.wf(),
    ensures
        s.with_input(input).wf(),
{
}

/// The snake's update keeps the invariant and never changes the grid or the
/// food.
pub proof fn lemma_advance_keeps_invariant(s: SessionView)
    requires
        s.wf(),
    ensures
        s.advanced().wf(),
        s.advanced().grid == s.grid,
        s.advanced().food == s.food,
{
    let dir = if s.phase == Phase::Playing {
        s.snake_dir
    } else {
        Direction::Stopped
    };
    lemma_update_keeps_invariant(SnakeView { dir, ..s.snake }, s.grid);
}

/// While the game is over the snake lies still: the update changes neither
/// its sub-cell position nor any segment, and the direction is `Stopped`.
pub proof fn lemma_game_over_holds_the_snake_still(s: SessionView)
    requires
        s.wf(),
        s.phase != Phase::Playing,
    ensures
        s.advanced().snake.head_raw == s.snake.head_raw,
        s.advanced().snake.segments == s.snake.segments,
        s.advanced().snake_dir == Direction::Stopped,
{
    let snake = SnakeView { dir: Direction::Stopped, ..s.snake };
    assert(snake.updated(s.grid).segments =~= s.snake.segments);
}

/// A whole frame keeps the invariant, whatever the keys, the time and the
/// outcome of the food placement.
pub proof fn lemma_tick_keeps_invariant(
    s: SessionView,
    input: FrameInput,
    now: u64,
    spawned: Option<Cell>,
)
    requires
        s.wf(),
    ensures
        s.ticked(input, now, spawned).wf(),
{
    lemma_input_keeps_invariant(s, input);
    lemma_advance_keeps_invariant(s.with_input(input).recovered(now, spawned));
}

/// A restart and a growth event never fall into the same frame: right after
/// a restart the snake is a single segment that stays on the origin for this
/// frame, and the new food lies elsewhere.
pub proof fn lemma_restart_does_not_eat(s: SessionView, now: u64, spawned: Option<Cell>)
    requires
        s.wf(),
        s.recovery_due(now),
        spawned matches Some(c) ==> is_free(
            SnakeView::initial().segments,
            (DEFAULT_MAP_WIDTH, DEFAULT_MAP_HEIGHT),
            c,
        ),
    ensures
        !s.recovered(now, spawned).advanced().eats(),
        s.recovered(now, spawned).advanced().food == spawned,
        s.recovered(now, spawned).advanced().grid == (DEFAULT_MAP_WIDTH, DEFAULT_MAP_HEIGHT),
        s.recovered(now, spawned).advanced().snake.segments == SnakeView::initial().segments,
{
    let restarted = s.recovered(now, spawned);
    let origin = Cell { x: 0, y: 0 };
    let snake = SnakeView { dir: restarted.snake_dir, ..restarted.snake };
    lemma_nearest_cell_is_near(snake.advanced_raw().0 as int);
    lemma_nearest_cell_is_near(snake.advanced_raw().1 as int);
    assert(snake.candidate() == origin);
    assert(snake.updated(restarted.grid).segments =~= seq![origin]);
    assert(SnakeView::initial().segments[0] == origin);
}

/// Food that is free of the snake before a growth event is still inside the
/// grid and free of the snake after it: the new segment lies on the old tail,
/// and the grid only gets larger.
pub proof fn lemma_growth_keeps_food_free(s: SessionView, spawned: Option<Cell>)
    requires
        s.wf(),
        spawned matches Some(c) ==> is_free(s.snake.segments, s.grid, c),
    ensures
        spawned matches Some(c) ==> in_grid(c, s.grown(spawned).grid) && !s.grown(
            spawned,
        ).snake.occupies(c),
{
    if let Some(c) = spawned {
        let after = s.grown(spawned).snake.segments;
        assert forall|i: int| 0 <= i < after.len() implies after[i] != c by {
            if i < s.snake.segments.len() {
                assert(s.snake.segments.contains(s.snake.segments[i]));
            } else {
                assert(s.snake.segments.contains(s.snake.tail()));
            }
        }
    }
}

/// The direction after the frame's direction keys.
pub fn steer(dir: Direction, input: &FrameInput) -> (steered_dir: Direction)
    ensures
        steered_dir == steered(dir, *input),
{
    let mut snake_dir = dir;
    if input.up {
        snake_dir = Direction::Up;
    }
    if input.down {
        snake_dir = Direction::Down;
    }
    if input.left {
        snake_dir = Direction::Left;
    }
    if input.right {
        snake_dir = Direction::Right;
    }
    snake_dir
}

/// A grid dimension `by` cells larger, held within the range of `i32`.
pub fn enlarge_dimension(cells: i32, by: i32) -> (larger: i32)
    ensures
        larger == enlarged_dimension(cells, by),
{
    let wide: i64 = cells as i64 + by as i64;
    if wide > i32::MAX as i64 {
        i32::MAX
    } else if wide < i32::MIN as i64 {
        i32::MIN
    } else {
        wide as i32
    }
}

/// The grid after the frame's resize keys.
pub fn resize(game_map_size: (i32, i32), input: &FrameInput) -> (size: (i32, i32))
    ensures
        size == resized(game_map_size, *input),
{
    let mut size = game_map_size;
    if input.taller {
        size.1 = enlarge_dimension(size.1, 1);
    }
    if input.shorter {
        if size.1 > 1 {
            size.1 -= 1;
        }
    }
    if input.narrower {
        if size.0 > 1 {
            size.0 -= 1;
        }
    }
    if input.wider {
        size.0 = enlarge_dimension(size.0, 1);
    }
    size
}

/// The speed after the frame's speed keys.
pub fn tune_speed(speed: i64, input: &FrameInput) -> (new_speed: i64)
    ensures
        new_speed == tuned(speed, *input),
{
    let mut new_speed = speed;
    if input.slower {
        new_speed = saturating_difference(new_speed, SPEED_STEP);
    }
    if input.faster {
        new_speed = saturating_sum(new_speed, SPEED_STEP);
    }
    new_speed
}

/// Applies the frame's snake keys to `snake`.
pub fn edit_snake(snake: &mut Snake, input: &FrameInput)
    requires
        old(snake).wf(),
    ensures
        final(snake).wf(),
        final(snake)@ == edited(old(snake)@, *input),
{
    if input.reset {
        snake.reset();
    }
    if input.grow {
        snake.append();
    }
    if input.shrink {
        snake.pop();
    }
    let speed = tune_speed(snake.speed(), input);
    snake.set_speed(speed);
}

/// The direction and the remembered direction after the frame's direction
/// keys and then its pause key.
pub fn redirect(dir: Direction, before_pause: Direction, input: &FrameInput) -> (dirs: (
    Direction,
    Direction,
))
    ensures
        dirs == redirected(dir, before_pause, *input),
{
    let mut snake_dir = steer(dir, input);
    let mut snake_dir_before_pause = before_pause;
    if input.toggle_pause {
        match snake_dir {
            Direction::Stopped => {
                snake_dir = snake_dir_before_pause;
            },
            _ => {
                snake_dir_before_pause = snake_dir;
                snake_dir = Direction::Stopped;
            },
        }
    }
    (snake_dir, snake_dir_before_pause)
}

/// The speed after the snake has grown to `length` segments by eating.
pub fn accelerate(speed: i64, length: usize) -> (new_speed: i64)
    ensures
        new_speed == accelerated(speed, length as nat),
{
    if length == 0 {
        return speed;
    }
    let count: u128 = length as u128;
    assert(count * (count - 1) * SNAKE_ACCELERATION_MULTIPLIER <= 0xffff_ffff_ffff_ffff
        * 0xffff_ffff_ffff_ffff) by (nonlinear_arith)
        requires
            1 <= count <= 0xffff_ffff_ffff_ffff,
    ;
    let gain: u128 = count * (count - 1) * (SNAKE_ACCELERATION_MULTIPLIER as u128);
    let room: u128 = (i64::MAX as i128 - speed as i128) as u128;
    if gain > room {
        i64::MAX
    } else {
        (speed as i128 + gain as i128) as i64
    }
}

/// Whether growing to `length` segments is a milestone that enlarges the grid.
pub fn growth_milestone(length: usize) -> (milestone: bool)
    ensures
        milestone == is_growth_milestone(length as nat),
{
    length >= 1 && (length - 1) % GRID_GROWTH_INTERVAL == 0
}

impl FrameInput {
    /// A frame in which no key is pressed or held.
    pub fn none() -> (input: FrameInput)
        ensures
            input == (FrameInput {
                up: false,
                down: false,
                left: false,
                right: false,
                reset: false,
                grow: false,
                shrink: false,
                taller: false,
                shorter: false,
                narrower: false,
                wider: false,
                slower: false,
                faster: false,
                toggle_god_mode: false,
                toggle_help: false,
                toggle_pause: false,
            }),
    {
        FrameInput {
            up: false,
            down: false,
            left: false,
            right: false,
            reset: false,
            grow: false,
            shrink: false,
            taller: false,
            shorter: false,
            narrower: false,
            wider: false,
            slower: false,
            faster: false,
            toggle_god_mode: false,
            toggle_help: false,
            toggle_pause: false,
        }
    }
}

impl View for Session {
    type V = SessionView;

    closed spec fn view(&self) -> SessionView {
        SessionView {
            snake: self.snake@,
            grid: self.game_map_size,
            food: self.food_position,
            phase: self.phase,
            god_mode: self.god_mode,
            help_text: self.help_text,
            snake_dir: self.snake_dir,
            snake_dir_before_pause: self.snake_dir_before_pause,
        }
    }
}

impl Session {
    /// The invariant that every method keeps; see [`SessionView::wf`].
    pub open spec fn wf(&self) -> bool {
        self@.wf()
    }

    /// A session at its start: a fresh snake on the default grid, and food on
    /// a random free cell if the placement found one.
    pub fn new() -> (session: Session)
        ensures
            session.wf(),
            session@ == SessionView::initial(session@.food),
            session@.food matches Some(c) ==> is_free(session@.snake.segments, session@.grid, c),
    {
        let mut snake = Snake::new();
        snake.set_speed(SNAKE_DEFAULT_SPEED);
        let game_map_size = (DEFAULT_MAP_WIDTH, DEFAULT_MAP_HEIGHT);
        let food_position = spawn_food(snake.pos(), game_map_size, FOOD_SPAWN_ATTEMPTS);
        Session {
            snake,
            game_map_size,
            food_position,
            phase: Phase::Playing,
            god_mode: false,
            help_text: true,
            snake_dir: Direction::Stopped,
            snake_dir_before_pause: Direction::Stopped,
        }
    }

    /// Applies the keys of one frame.
    pub fn apply_input(&mut self, input: &FrameInput)
        requires
            old(self).wf(),
        ensures
            final(self).wf(),
            final(self)@ == old(self)@.with_input(*input),
    {
        edit_snake(&mut self.snake, input);
        self.game_map_size = resize(self.game_map_size, input);
        if input.toggle_god_mode {
            self.god_mode = !self.god_mode;
        }
        if input.toggle_help {
            self.help_text = !self.help_text;
        }
        let (snake_dir, snake_dir_before_pause) = redirect(
            self.snake_dir,
            self.snake_dir_before_pause,
            input,
        );
        self.snake_dir = snake_dir;
        self.snake_dir_before_pause = snake_dir_before_pause;
    }

    /// Gives the game-over timer its turn at time `now`, in milliseconds: a
    /// pending game-over latches the timer, and a timer latched at least
    /// [`GAME_OVER_TIMER_DURATION`] ago restarts the session. A clock that
    /// went backwards counts as no time passed.
    pub fn recover_if_due(&mut self, now: u64)
        requires
            old(self).wf(),
        ensures
            final(self).wf(),
            final(self)@ == old(self)@.recovered(now, final(self)@.food),
            old(self)@.recovery_due(now) ==> (final(self)@.food matches Some(c) ==> is_free(
                final(self)@.snake.segments,
                final(self)@.grid,
                c,
            )),
    {
        match self.phase {
            Phase::GameOverRecovering { since } => {
                if now >= since && now - since >= GAME_OVER_TIMER_DURATION {
                    self.phase = Phase::Playing;
                    self.game_map_size = (DEFAULT_MAP_WIDTH, DEFAULT_MAP_HEIGHT);
                    self.snake.reset();
                    self.snake.set_speed(SNAKE_DEFAULT_SPEED);
                    self.food_position = spawn_food(
                        self.snake.pos(),
                        self.game_map_size,
                        FOOD_SPAWN_ATTEMPTS,
                    );
                }
            },
            Phase::GameOverPending => {
                self.phase = Phase::GameOverRecovering { since: now };
            },
            Phase::Playing => {},
        }
    }

    /// Updates the snake for one frame and settles whether the game goes on.
    pub fn advance(&mut self)
        requires
            old(self).wf(),
        ensures
            final(self).wf(),
            final(self)@ == old(self)@.advanced(),
    {
        proof {
            lemma_advance_keeps_invariant(self@);
        }
        match self.phase {
            Phase::Playing => {},
            _ => {
                self.snake_dir = Direction::Stopped;
            },
        }
        self.snake.set_dir(self.snake_dir);
        self.snake.update(self.game_map_size);
        if !self.snake.alive() {
            match self.phase {
                Phase::Playing => {
                    self.phase = Phase::GameOverPending;
                },
                _ => {},
            }
        }
        if self.god_mode {
            self.phase = Phase::Playing;
            self.snake.set_alive(true);
        }
    }

    /// Lets the snake eat if the game is on and its head lies on the food:
    /// new food is placed, the snake grows and speeds up, and on a milestone
    /// the grid is enlarged.
    ///
    /// The new food is placed before the snake grows. It is found for sure
    /// where no segment lies on the grid, and not at all where the snake
    /// covers the grid; in between, the random draws decide.
    pub fn feed(&mut self)
        requires
            old(self).wf(),
        ensures
            final(self).wf(),
            final(self)@ == old(self)@.fed(final(self)@.food),
            old(self)@.eats() ==> (final(self)@.food matches Some(c) ==> is_free(
                old(self)@.snake.segments,
                old(self)@.grid,
                c,
            )),
            old(self)@.eats() && old(self)@.grid_clear() ==> final(self)@.food is Some,
            old(self)@.eats() && old(self)@.grid_covered() ==> final(self)@.food is None,
    {
        let head = self.snake.head();
        let on_food = match self.food_position {
            Some(food) => food.x == head.x && food.y == head.y,
            None => false,
        };
        let playing = match self.phase {
            Phase::Playing => true,
            _ => false,
        };
        if on_food && playing {
            self.food_position = spawn_food(
                self.snake.pos(),
                self.game_map_size,
                FOOD_SPAWN_ATTEMPTS,
            );
            self.snake.append();
            let snake_len = self.snake.len();
            let speed = accelerate(self.snake.speed(), snake_len);
            self.snake.set_speed(speed);
            if growth_milestone(snake_len) {
                self.game_map_size.0 = enlarge_dimension(self.game_map_size.0, GRID_GROWTH_WIDTH);
                self.game_map_size.1 = enlarge_dimension(self.game_map_size.1, GRID_GROWTH_HEIGHT);
            }
        }
    }

    /// Runs one frame: applies the keys, gives the game-over timer its turn
    /// at time `now` (in milliseconds), updates the snake, and lets it eat.
    ///
    /// A frame places food at most once. Food placed in the frame lies inside
    /// the grid and on no segment of the snake as the frame leaves it. When
    /// the snake eats, new food is found for sure where no segment lies on
    /// the grid, and not at all where the snake covers the grid.
    pub fn tick(&mut self, input: &FrameInput, now: u64)
        requires
            old(self).wf(),
        ensures
            final(self).wf(),
            final(self)@ == old(self)@.ticked(*input, now, final(self)@.food),
            !old(self)@.spawns_food(*input, now) ==> final(self)@.food == old(self)@.food,
            old(self)@.spawns_food(*input, now) ==> (final(self)@.food matches Some(c) ==> in_grid(
                c,
                final(self)@.grid,
            ) && !final(self)@.snake.occupies(c)),
            old(self)@.eats_in_frame(*input, now) && old(self)@.at_feeding(
                *input,
                now,
            ).grid_clear() ==> final(self)@.food is Some,
            old(self)@.eats_in_frame(*input, now) && old(self)@.at_feeding(
                *input,
                now,
            ).grid_covered() ==> final(self)@.food is None,
    {
        self.apply_input(input);
        let ghost keyed = self@;
        self.recover_if_due(now);
        let ghost recovered = self@;
        self.advance();
        let ghost advanced = self@;
        self.feed();
        proof {
            if keyed.recovery_due(now) {
                lemma_restart_does_not_eat(keyed, now, recovered.food);
            } else if advanced.eats() {
                lemma_growth_keeps_food_free(advanced, self@.food);
            }
        }
    }

    /// Puts the food on `cell` if that is a cell of the grid on which no
    /// segment of the snake lies; otherwise the food stays where it is.
    pub fn place_food(&mut self, cell: Cell) -> (placed: bool)
        ensures
            placed == is_free(old(self)@.snake.segments, old(self)@.grid, cell),
            final(self)@ == (SessionView {
                food: if placed {
                    Some(cell)
                } else {
                    old(self)@.food
                },
                ..old(self)@
            }),
    {
        let placed = cell_is_free(self.snake.pos(), self.game_map_size, cell);
        if placed {
            self.food_position = Some(cell);
        }
        placed
    }

    /// Places the food anew on a random free cell, and says whether one was
    /// found. If none was found there is no food until the next placement.
    ///
    /// One is found for sure where no segment lies on the grid, and none
    /// where the snake covers the grid; in between, the random draws decide.
    pub fn respawn_food(&mut self) -> (found: bool)
        ensures
            final(self)@ == (SessionView { food: final(self)@.food, ..old(self)@ }),
            found == final(self)@.food is Some,
            final(self)@.food matches Some(c) ==> is_free(
                old(self)@.snake.segments,
                old(self)@.grid,
                c,
            ),
            old(self)@.grid.0 >= 1 && old(self)@.grid.1 >= 1 && old(self)@.grid_clear() ==> found,
            old(self)@.grid.0 < 1 || old(self)@.grid.1 < 1 || old(self)@.grid_covered() ==> !found,
    {
        self.food_position = spawn_food(
            self.snake.pos(),
            self.game_map_size,
            FOOD_SPAWN_ATTEMPTS,
        );
        self.food_position.is_some()
    }

    /// Checks the invariant at run time, for callers that Verus does not see.
    pub fn is_well_formed(&self) -> (ok: bool)
        ensures
            ok == self.wf(),
    {
        self.snake.is_well_formed() && self.game_map_size.0 >= 1 && self.game_map_size.1 >= 1
    }

    /// The snake.
    pub fn snake(&self) -> (snake: &Snake)
        ensures
            snake@ == self@.snake,
    {
        &self.snake
    }

    /// Columns and rows of the grid.
    pub fn game_map_size(&self) -> (size: (i32, i32))
        ensures
            size == self@.grid,
    {
        self.game_map_size
    }

    /// The cell the food lies on, if there is food.
    pub fn food_position(&self) -> (food: Option<Cell>)
        ensures
            food == self@.food,
    {
        self.food_position
    }

    /// Where the session stands between play and restart.
    pub fn phase(&self) -> (phase: Phase)
        ensures
            phase == self@.phase,
    {
        self.phase
    }

    /// Whether god mode is on.
    pub fn god_mode(&self) -> (on: bool)
        ensures
            on == self@.god_mode,
    {
        self.god_mode
    }

    /// Whether the help text is to be shown.
    pub fn help_text(&self) -> (shown: bool)
        ensures
            shown == self@.help_text,
    {
        self.help_text
    }

    /// The direction the player asked for.
    pub fn snake_dir(&self) -> (dir: Direction)
        ensures
            dir == self@.snake_dir,
    {
        self.snake_dir
    }

    /// The score: the snake's length without its head.
    pub fn score(&self) -> (score: usize)
        requires
            self.wf(),
        ensures
            score == self@.snake.segments.len() - 1,
    {
        self.snake.len() - 1
    }
}

} // verus!
