//! The snake: its body of cells, its sub-cell head position, and the
//! per-frame update that moves it and decides whether it survives.

use vstd::prelude::*;
use crate::grid::{Cell, cell_at, in_grid, quantize_position, cell_in_grid, saturate,
    saturating_sum, saturating_difference, lemma_nearest_cell_is_near,
    lemma_nearest_cell_monotonic};

verus! {

/// Speed of a new or reset snake, in sub-cell units per frame: 0.13 cells.
pub const SNAKE_DEFAULT_SPEED: i64 = 13_000;

/// The way the snake is heading. `Stopped` integrates no motion.
#[derive(Clone, Copy, PartialEq, Eq, Debug, Structural)]
pub enum Direction {
    Up,
    Down,
    Left,
    Right,
    Stopped,
}

/// The snake. Segment 0 is the head, the last segment is the tail.
pub struct Snake {
    pos: Vec<Cell>,
    dir: Direction,
    speed: i64,
    alive: bool,
    head_raw: (i64, i64),
    head_last_frame: Cell,
}

/// What a [`Snake`] is, as plain mathematical data.
pub ghost struct SnakeView {
    /// The occupied cells in body order, head first.
    pub segments: Seq<Cell>,
    pub dir: Direction,
    /// Sub-cell units added to the head position per frame.
    pub speed: i64,
    pub alive: bool,
    /// The head's position in sub-cell units, before rounding to a cell.
    pub head_raw: (i64, i64),
    /// The cell the head was rounded to by the latest update.
    pub head_last_frame: Cell,
}

impl SnakeView {
    /// The invariant of every snake: it has a head, and the head segment, the
    /// last rounded head and the rounding of the sub-cell position agree.
    pub open spec fn wf(self) -> bool {
        &&& self.segments.len() >= 1
        &&& self.segments[0] == self.head_last_frame
        &&& self.head_last_frame == cell_at(self.head_raw.0 as int, self.head_raw.1 as int)
    }

    /// A snake at the start of its life: one segment at the origin, alive,
    /// not moving, at the default speed.
    pub open spec fn initial() -> SnakeView {
        SnakeView {
            segments: seq![Cell { x: 0, y: 0 }],
            dir: Direction::Stopped,
            speed: SNAKE_DEFAULT_SPEED,
            alive: true,
            head_raw: (0, 0),
            head_last_frame: Cell { x: 0, y: 0 },
        }
    }

    /// The head cell.
    pub open spec fn head(self) -> Cell {
        self.segments[0]
    }

    /// The tail cell.
    pub open spec fn tail(self) -> Cell {
        self.segments.last()
    }

    /// Whether some segment lies on `c`.
    pub open spec fn occupies(self, c: Cell) -> bool {
        self.segments.contains(c)
    }

    /// The snake grown by one segment that starts on top of the old tail.
    pub open spec fn appended(self) -> SnakeView {
        SnakeView { segments: self.segments.push(self.tail()), ..self }
    }

    /// The snake without its tail segment; a snake of one segment stays as it is.
    pub open spec fn popped(self) -> SnakeView {
        if self.segments.len() > 1 {
            SnakeView { segments: self.segments.drop_last(), ..self }
        } else {
            self
        }
    }

    /// The sub-cell head position after one frame of motion along `dir`.
    /// Motion that would leave the `i64` range stops at its end.
    pub open spec fn advanced_raw(self) -> (i64, i64) {
        let (x, y) = self.head_raw;
        match self.dir {
            Direction::Up => (x, saturate(y - self.speed) as i64),
            Direction::Down => (x, saturate(y + self.speed) as i64),
            Direction::Left => (saturate(x - self.speed) as i64, y),
            Direction::Right => (saturate(x + self.speed) as i64, y),
            Direction::Stopped => (x, y),
        }
    }

    /// The cell the head is rounded to after one frame of motion.
    pub open spec fn candidate(self) -> Cell {
        cell_at(self.advanced_raw().0 as int, self.advanced_raw().1 as int)
    }

    /// Whether one frame of motion takes the head into another cell.
    pub open spec fn moving(self) -> bool {
        self.candidate() != self.head_last_frame
    }

    /// The segments after body propagation and before the head is committed:
    /// if the head enters another cell, every body segment takes the place of
    /// the segment before it; otherwise nothing moves.
    pub open spec fn shifted(self) -> Seq<Cell> {
        if self.moving() {
            Seq::new(
                self.segments.len(),
                |i: int| if i == 0 { self.segments[0] } else { self.segments[i - 1] },
            )
        } else {
            self.segments
        }
    }

    /// Whether the frame ends with the head on its own body: the snake has
    /// more than two segments, and after propagation some body segment lies
    /// on the cell the head is rounded to.
    pub open spec fn self_collides(self) -> bool {
        &&& self.segments.len() > 2
        &&& exists|i: int|
            #![trigger self.shifted()[i]]
            1 <= i < self.segments.len() && self.shifted()[i] == self.candidate()
    }

    /// The snake after one frame on a grid of `grid.0` columns and `grid.1`
    /// rows. The head is committed to its new cell even when the frame kills
    /// the snake; `alive` never turns back to true.
    pub open spec fn updated(self, grid: (i32, i32)) -> SnakeView {
        SnakeView {
            segments: self.shifted().update(0, self.candidate()),
            alive: self.alive && !self.self_collides() && in_grid(self.candidate(), grid),
            head_raw: self.advanced_raw(),
            head_last_frame: self.candidate(),
            ..self
        }
    }
}

impl SnakeView {
    /// The snake after `n` frames in a row on the same grid.
    pub open spec fn updated_times(self, grid: (i32, i32), n: nat) -> SnakeView
        decreases n,
    {
        if n == 0 {
            self
        } else {
            self.updated_times(grid, (n - 1) as nat).updated(grid)
        }
    }

    /// Whether the step from head cell `from` to head cell `to` goes along
    /// `dir`, or stays in place: the coordinate across the direction is kept,
    /// and the coordinate along it does not go backwards.
    pub open spec fn heads_along(dir: Direction, from: Cell, to: Cell) -> bool {
        match dir {
            Direction::Up => to.x == from.x && to.y <= from.y,
            Direction::Down => to.x == from.x && to.y >= from.y,
            Direction::Left => to.y == from.y && to.x <= from.x,
            Direction::Right => to.y == from.y && to.x >= from.x,
            Direction::Stopped => to == from,
        }
    }
}

/// An update keeps the invariant, the direction and the speed.
pub proof fn lemma_update_keeps_invariant(s: SnakeView, grid: (i32, i32))
    requires
        s.wf(),
    ensures
        s.updated(grid).wf(),
        s.updated(grid).dir == s.dir,
        s.updated(grid).speed == s.speed,
        s.updated(grid).segments.len() == s.segments.len(),
{
}

/// With a positive speed, one update moves the head cell along the snake's
/// direction or leaves it where it is; it never moves it backwards or sideways.
pub proof fn lemma_update_moves_head_along_direction(s: SnakeView, grid: (i32, i32))
    requires
        s.wf(),
        s.speed > 0,
    ensures
        SnakeView::heads_along(s.dir, s.head(), s.updated(grid).head()),
{
    let (x, y) = s.head_raw;
    let (nx, ny) = s.advanced_raw();
    lemma_nearest_cell_is_near(x as int);
    lemma_nearest_cell_is_near(y as int);
    lemma_nearest_cell_is_near(nx as int);
    lemma_nearest_cell_is_near(ny as int);
    match s.dir {
        Direction::Up => lemma_nearest_cell_monotonic(ny as int, y as int),
        Direction::Down => lemma_nearest_cell_monotonic(y as int, ny as int),
        Direction::Left => lemma_nearest_cell_monotonic(nx as int, x as int),
        Direction::Right => lemma_nearest_cell_monotonic(x as int, nx as int),
        Direction::Stopped => {},
    }
}

/// With a positive speed, repeated updates move the head cell monotonically
/// along the snake's direction: the head after `m` frames lies along the
/// direction from the head after any `n <= m` frames. This holds whether or
/// not a frame on the way kills the snake.
pub proof fn lemma_repeated_updates_are_monotonic(s: SnakeView, grid: (i32, i32), n: nat, m: nat)
    requires
        s.wf(),
        s.speed > 0,
        n <= m,
    ensures
        s.updated_times(grid, m).wf(),
        s.updated_times(grid, m).dir == s.dir,
        s.updated_times(grid, m).speed == s.speed,
        SnakeView::heads_along(
            s.dir,
            s.updated_times(grid, n).head(),
            s.updated_times(grid, m).head(),
        ),
    decreases m,
{
    if m == 0 {
    } else {
        let earlier = s.updated_times(grid, (m - 1) as nat);
        if n == m {
            lemma_repeated_updates_are_monotonic(s, grid, (m - 1) as nat, (m - 1) as nat);
        } else {
            lemma_repeated_updates_are_monotonic(s, grid, n, (m - 1) as nat);
        }
        lemma_update_keeps_invariant(earlier, grid);
        lemma_update_moves_head_along_direction(earlier, grid);
    }
}

/// A snake that an update kills although its head stays inside the grid has
/// more than two segments, and one of its body segments ends the frame on the
/// head's cell. A snake of one or two segments never collides with itself.
pub proof fn lemma_death_inside_grid_is_self_collision(s: SnakeView, grid: (i32, i32))
    requires
        s.wf(),
        s.alive,
        !s.updated(grid).alive,
        in_grid(s.updated(grid).head(), grid),
    ensures
        s.segments.len() > 2,
        exists|i: int|
            #![trigger s.updated(grid).segments[i]]
            1 <= i < s.updated(grid).segments.len() && s.updated(grid).segments[i]
                == s.updated(grid).head(),
{
    assert(s.self_collides());
    let i = choose|i: int|
        #![trigger s.shifted()[i]]
        1 <= i < s.segments.len() && s.shifted()[i] == s.candidate();
    assert(s.updated(grid).segments[i] == s.shifted()[i]);
}

/// An update that leaves the head outside the grid leaves the snake dead.
pub proof fn lemma_leaving_grid_kills(s: SnakeView, grid: (i32, i32))
    requires
        s.wf(),
        !in_grid(s.updated(grid).head(), grid),
    ensures
        !s.updated(grid).alive,
{
}

impl View for Snake {
    type V = SnakeView;

    closed spec fn view(&self) -> SnakeView {
        SnakeView {
            segments: self.pos@,
            dir: self.dir,
            speed: self.speed,
            alive: self.alive,
            head_raw: self.head_raw,
            head_last_frame: self.head_last_frame,
        }
    }
}

impl Snake {
    /// The invariant that every method keeps; see [`SnakeView::wf`].
    pub open spec fn wf(&self) -> bool {
        self@.wf()
    }

    /// Grows the snake by one segment, placed on the current tail. The new
    /// segment only separates from the old tail once the snake moves.
    pub fn append(&mut self)
        requires
            old(self).wf(),
        ensures
            final(self).wf(),
            final(self)@ == old(self)@.appended(),
            final(self)@.segments.len() == old(self)@.segments.len() + 1,
            final(self)@.tail() == old(self)@.tail(),
    {
        let tail = self.pos[self.pos.len() - 1];
        self.pos.push(Cell { x: tail.x, y: tail.y });
    }

    /// Removes the tail segment, unless it is the only segment.
    pub fn pop(&mut self)
        requires
            old(self).wf(),
        ensures
            final(self).wf(),
            final(self)@ == old(self)@.popped(),
            old(self)@.segments.len() == 1 ==> final(self)@ == old(self)@,
            old(self)@.segments.len() > 1 ==> final(self)@.segments
                == old(self)@.segments.drop_last(),
    {
        if self.pos.len() > 1 {
            self.pos.pop();
        }
    }

    /// Advances the snake by one frame on a grid of `game_map_size.0` columns
    /// and `game_map_size.1` rows: integrates the speed into the sub-cell head
    /// position, rounds it to a cell, lets the body follow if the head entered
    /// another cell, and marks the snake dead if the head lies on its body or
    /// outside the grid.
    pub fn update(&mut self, game_map_size: (i32, i32))
        requires
            old(self).wf(),
        ensures
            final(self).wf(),
            final(self)@ == old(self)@.updated(game_map_size),
            !old(self)@.alive ==> !final(self)@.alive,
            !in_grid(final(self)@.head(), game_map_size) ==> !final(self)@.alive,
            old(self)@.alive && !final(self)@.alive && in_grid(final(self)@.head(), game_map_size)
                ==> old(self)@.segments.len() > 2 && exists|i: int|
                    #![trigger final(self)@.segments[i]]
                    1 <= i < final(self)@.segments.len() && final(self)@.segments[i]
                        == final(self)@.head(),
    {
        let ghost before = self@;
        match self.dir {
            Direction::Up => {
                self.head_raw.1 = saturating_difference(self.head_raw.1, self.speed);
            },
            Direction::Down => {
                self.head_raw.1 = saturating_sum(self.head_raw.1, self.speed);
            },
            Direction::Left => {
                self.head_raw.0 = saturating_difference(self.head_raw.0, self.speed);
            },
            Direction::Right => {
                self.head_raw.0 = saturating_sum(self.head_raw.0, self.speed);
            },
            Direction::Stopped => {},
        }
        let snake_rounded_pos = quantize_position(self.head_raw.0, self.head_raw.1);
        let mut moving = true;
        if self.head_last_frame.x == snake_rounded_pos.x
            && self.head_last_frame.y == snake_rounded_pos.y {
            moving = false;
        }
        self.head_last_frame = snake_rounded_pos;

        let count = self.pos.len();
        let mut i = count - 1;
        while i > 0
            invariant
                before.wf(),
                before.segments.len() == count,
                self.pos@.len() == count,
                i < count,
                self.dir == before.dir,
                self.speed == before.speed,
                self.head_raw == before.advanced_raw(),
                self.head_last_frame == before.candidate(),
                moving == before.moving(),
                snake_rounded_pos == before.candidate(),
                forall|j: int| 0 <= j <= i ==> self.pos@[j] == before.segments[j],
                forall|j: int| i < j < count ==> self.pos@[j] == before.shifted()[j],
                self.alive == (before.alive && !(count > 2 && exists|j: int|
                    #![trigger before.shifted()[j]]
                    i < j < count && before.shifted()[j] == before.candidate())),
            decreases i,
        {
            if moving {
                let ahead = self.pos[i - 1];
                self.pos[i] = ahead;
            }
            assert(self.pos@[i as int] == before.shifted()[i as int]);
            if self.pos[i].x == snake_rounded_pos.x && self.pos[i].y == snake_rounded_pos.y
                && count > 2 {
                self.alive = false;
            }
            i -= 1;
        }
        if !cell_in_grid(snake_rounded_pos, game_map_size) {
            self.alive = false;
        }
        self.pos[0] = snake_rounded_pos;
        assert(self.pos@ =~= before.updated(game_map_size).segments);
        proof {
            if before.alive && !self.alive && in_grid(snake_rounded_pos, game_map_size) {
                lemma_death_inside_grid_is_self_collision(before, game_map_size);
            }
        }
    }

    /// Puts the snake back to the start of its life.
    pub fn reset(&mut self)
        ensures
            final(self).wf(),
            final(self)@ == SnakeView::initial(),
    {
        self.alive = true;
        self.head_raw = (0, 0);
        self.head_last_frame = Cell { x: 0, y: 0 };
        self.pos = vec![Cell { x: 0, y: 0 }];
        self.dir = Direction::Stopped;
        self.speed = SNAKE_DEFAULT_SPEED;
        assert(self.pos@ =~= SnakeView::initial().segments);
    }

    /// A snake at the start of its life.
    pub fn new() -> (snake: Snake)
        ensures
            snake.wf(),
            snake@ == SnakeView::initial(),
    {
        let snake = Snake {
            pos: vec![Cell { x: 0, y: 0 }],
            dir: Direction::Stopped,
            speed: SNAKE_DEFAULT_SPEED,
            alive: true,
            head_raw: (0, 0),
            head_last_frame: Cell { x: 0, y: 0 },
        };
        assert(snake.pos@ =~= SnakeView::initial().segments);
        snake
    }

    /// The occupied cells in body order, head first.
    pub fn pos(&self) -> (segments: &Vec<Cell>)
        ensures
            segments@ == self@.segments,
    {
        &self.pos
    }

    /// The number of segments, head included.
    pub fn len(&self) -> (count: usize)
        ensures
            count == self@.segments.len(),
    {
        self.pos.len()
    }

    /// The head cell.
    pub fn head(&self) -> (cell: Cell)
        requires
            self.wf(),
        ensures
            cell == self@.head(),
    {
        self.pos[0]
    }

    /// Checks the invariant at run time, for callers that Verus does not see.
    pub fn is_well_formed(&self) -> (ok: bool)
        ensures
            ok == self.wf(),
    {
        if self.pos.len() < 1 {
            return false;
        }
        let rounded = quantize_position(self.head_raw.0, self.head_raw.1);
        let head = self.pos[0];
        head.x == self.head_last_frame.x && head.y == self.head_last_frame.y
            && self.head_last_frame.x == rounded.x && self.head_last_frame.y == rounded.y
    }

    /// The direction the snake is heading.
    pub fn dir(&self) -> (dir: Direction)
        ensures
            dir == self@.dir,
    {
        self.dir
    }

    /// The speed in sub-cell units per frame.
    pub fn speed(&self) -> (speed: i64)
        ensures
            speed == self@.speed,
    {
        self.speed
    }

    /// Whether the snake has survived every update since it was last revived.
    pub fn alive(&self) -> (alive: bool)
        ensures
            alive == self@.alive,
    {
        self.alive
    }

    /// The head's position in sub-cell units, before rounding to a cell.
    pub fn head_raw(&self) -> (raw: (i64, i64))
        ensures
            raw == self@.head_raw,
    {
        self.head_raw
    }

    /// Turns the snake to head along `dir` from the next update on.
    pub fn set_dir(&mut self, dir: Direction)
        ensures
            final(self)@ == (SnakeView { dir, ..old(self)@ }),
    {
        self.dir = dir;
    }

    /// Sets the speed in sub-cell units per frame. Any value is accepted; a
    /// negative speed moves the snake against its direction.
    pub fn set_speed(&mut self, speed: i64)
        ensures
            final(self)@ == (SnakeView { speed, ..old(self)@ }),
    {
        self.speed = speed;
    }

    /// Overrides the alive flag; `true` revives a dead snake where it lies.
    pub fn set_alive(&mut self, alive: bool)
        ensures
            final(self)@ == (SnakeView { alive, ..old(self)@ }),
    {
        self.alive = alive;
    }
}

} // verus!
