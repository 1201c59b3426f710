//! The game: the snake, the food, the score and the steps that change them.
//!
//! A tick runs the steps in a fixed order: movement, eating, growth and the
//! end of the round. Steering, the spawning of food and the score board run
//! between ticks. A step that has something to ask of a later one raises a
//! request, which the later step takes up once.

use crate::chance::random_draw;
use crate::grid::{Arena, Direction, Position};
use crate::keys::{requested, requested_direction, steer, steered, Key};
use crate::score::Score;
use vstd::prelude::*;

verus! {

/// Milliseconds from one movement of the snake to the next.
pub const MOVEMENT_PERIOD_MS: u64 = 100;

/// Milliseconds from one spawning of food to the next.
pub const FOOD_PERIOD_MS: u64 = 5000;

/// The test that a cell is another one than `cell`.
pub open spec fn off(cell: Position) -> spec_fn(Position) -> bool {
    |c: Position| c != cell
}

/// The game as a mathematical value.
#[verifier::ext_equal]
pub struct GameView {
    /// The grid that is played on.
    pub arena: Arena,
    /// The cells of the snake, head first.
    pub segments: Seq<Position>,
    /// Where the head goes next.
    pub heading: Direction,
    /// Where the tail lay before the last movement.
    pub last_tail: Position,
    /// The cells that hold food, oldest first.
    pub food: Seq<Position>,
    /// The meals counted in this round.
    pub score: nat,
    /// Whether a meal waits to lengthen the snake.
    pub growth_pending: bool,
    /// Whether a meal waits to be counted.
    pub score_pending: bool,
    /// Whether a collision waits to end the round.
    pub game_over_pending: bool,
}

impl GameView {
    /// The game at the start of a round: a snake of two segments, both on
    /// the start cell, heading up; no food, no score, nothing requested.
    pub open spec fn initial(arena: Arena) -> GameView {
        GameView {
            arena,
            segments: seq![Position::start_cell(), Position::start_cell()],
            heading: Direction::Up,
            last_tail: Position::start_cell(),
            food: Seq::empty(),
            score: 0,
            growth_pending: false,
            score_pending: false,
            game_over_pending: false,
        }
    }

    /// The cell of the head.
    pub open spec fn head(self) -> Position {
        self.segments[0]
    }

    /// Whether the snake and the remembered tail cell lie in the arena.
    pub open spec fn in_play(self) -> bool {
        &&& forall|i: int|
            0 <= i < self.segments.len() ==> self.arena.holds(#[trigger] self.segments[i])
        &&& self.arena.holds(self.last_tail)
    }

    /// What holds of every game: the snake has a head and a tail, and it
    /// lies in the arena unless a collision waits to end the round.
    pub open spec fn wf(self) -> bool {
        &&& self.arena.valid()
        &&& self.segments.len() >= 2
        &&& self.game_over_pending || self.in_play()
    }

    /// Whether the cell ahead of the head still has `i32` coordinates.
    pub open spec fn can_move(self) -> bool {
        self.head().can_step(self.heading)
    }

    /// The game after a request for the heading `wanted`.
    pub open spec fn turned(self, wanted: Direction) -> GameView {
        GameView { heading: steered(self.heading, wanted), ..self }
    }

    /// Whether the cell ahead of the head lies outside the arena or under
    /// the snake as it lies now.
    pub open spec fn hits(self) -> bool {
        let ahead = self.head().stepped(self.heading);
        !self.arena.holds(ahead) || self.segments.contains(ahead)
    }

    /// The game after one movement: the head goes one cell ahead, each other
    /// segment takes the cell of the one before it, the cell that the tail
    /// leaves is remembered, and a collision is held over for the end of the
    /// tick. The snake moves whether it collides or not.
    pub open spec fn moved(self) -> GameView {
        GameView {
            segments: seq![self.head().stepped(self.heading)] + self.segments.drop_last(),
            last_tail: self.segments.last(),
            game_over_pending: self.game_over_pending || self.hits(),
            ..self
        }
    }

    /// Whether food lies on the head's cell.
    pub open spec fn finds_food(self) -> bool {
        self.food.contains(self.head())
    }

    /// The game after the eating check: the food on the head's cell is gone,
    /// and if there was any, growth and a point are requested.
    pub open spec fn fed(self) -> GameView {
        GameView {
            food: self.food.filter(off(self.head())),
            growth_pending: self.growth_pending || self.finds_food(),
            score_pending: self.score_pending || self.finds_food(),
            ..self
        }
    }

    /// The game after the growth step: a requested growth adds one segment
    /// on the cell that the tail left last, and is thereby done.
    pub open spec fn grown(self) -> GameView {
        if self.growth_pending {
            GameView {
                segments: self.segments.push(self.last_tail),
                growth_pending: false,
                ..self
            }
        } else {
            self
        }
    }

    /// The game with a fresh snake in place of the old one.
    pub open spec fn respawned(self) -> GameView {
        GameView {
            segments: seq![Position::start_cell(), Position::start_cell()],
            heading: Direction::Up,
            last_tail: Position::start_cell(),
            ..self
        }
    }

    /// The game after the end-of-round step: a collision held over starts
    /// the round again from the beginning.
    pub open spec fn settled(self) -> GameView {
        if self.game_over_pending {
            GameView::initial(self.arena)
        } else {
            self
        }
    }

    /// The game after the score board's turn: a requested point is counted.
    pub open spec fn tallied(self) -> GameView {
        if self.score_pending {
            GameView { score: self.score + 1, score_pending: false, ..self }
        } else {
            self
        }
    }

    /// The game with one more food, on `cell`.
    pub open spec fn with_food(self, cell: Position) -> GameView {
        GameView { food: self.food.push(cell), ..self }
    }

    /// The game after a tick: movement if it is due, then the eating check,
    /// growth and the end-of-round step.
    pub open spec fn ticked(self, move_due: bool) -> GameView {
        let after_move = if move_due {
            self.moved()
        } else {
            self
        };
        after_move.fed().grown().settled()
    }
}

/// A snake that lies in the arena has room to move, whatever its heading.
pub proof fn lemma_in_play_can_move(v: GameView)
    requires
        v.wf(),
        !v.game_over_pending,
    ensures
        v.can_move(),
{
    assert(v.arena.holds(v.segments[0]));
}

/// Movement keeps a game well formed.
pub proof fn lemma_moved_wf(v: GameView)
    requires
        v.wf(),
    ensures
        v.moved().wf(),
        v.moved().segments.len() == v.segments.len(),
{
    let w = v.moved();
    if !w.game_over_pending {
        let ahead = v.head().stepped(v.heading);
        assert forall|i: int| 0 <= i < w.segments.len() implies v.arena.holds(
            #[trigger] w.segments[i],
        ) by {
            if i > 0 {
                assert(w.segments[i] == v.segments[i - 1]);
            }
        }
        assert(v.arena.holds(v.segments[v.segments.len() - 1]));
    }
}

/// Tells whether `cell` is one of `cells`.
pub fn occupies(cells: &Vec<Position>, cell: Position) -> (b: bool)
    ensures
        b == cells@.contains(cell),
{
    let n: usize = cells.len();
    let mut i: usize = 0;
    while i < n
        invariant
            n == cells@.len(),
            i <= n,
            forall|j: int| 0 <= j < i ==> cells@[j] != cell,
        decreases n - i,
    {
        if cells[i] == cell {
            return true;
        }
        i += 1;
    }
    false
}

/// Moves a chain of cells one place on: `head` comes first, each cell after
/// it is the one that stood one place before, and the last cell is dropped.
pub fn follow(cells: &mut Vec<Position>, head: Position)
    requires
        old(cells)@.len() >= 1,
    ensures
        final(cells)@ == seq![head] + old(cells)@.drop_last(),
        final(cells)@.len() == old(cells)@.len(),
{
    let n: usize = cells.len();
    let mut i: usize = n - 1;
    while i > 0
        invariant
            cells@.len() == n,
            n == old(cells)@.len(),
            i < n,
            forall|j: int| 0 <= j <= i ==> cells@[j] == old(cells)@[j],
            forall|j: int| i < j < n ==> cells@[j] == old(cells)@[j - 1],
        decreases i,
    {
        let ahead: Position = cells[i - 1];
        cells.set(i, ahead);
        i -= 1;
    }
    cells.set(0, head);
}

/// Takes `cell` out of `cells`: returns the other cells in their order, and
/// whether `cell` was among them.
pub fn clear_cell(cells: &Vec<Position>, cell: Position) -> (r: (Vec<Position>, bool))
    ensures
        r.0@ == cells@.filter(off(cell)),
        r.1 == cells@.contains(cell),
        !r.0@.contains(cell),
{
    let n: usize = cells.len();
    let mut kept: Vec<Position> = Vec::new();
    let mut found: bool = false;
    let mut i: usize = 0;
    proof {
        reveal(Seq::filter);
        assert(cells@.take(0).filter(off(cell)) =~= Seq::<Position>::empty());
    }
    while i < n
        invariant
            n == cells@.len(),
            i <= n,
            kept@ == cells@.take(i as int).filter(off(cell)),
            found == cells@.take(i as int).contains(cell),
        decreases n - i,
    {
        let c: Position = cells[i];
        proof {
            let before = cells@.take(i as int);
            let after = cells@.take(i + 1);
            assert(after =~= before.push(c));
            before.lemma_filter_push(c, off(cell));
            if before.contains(cell) {
                let k = choose|k: int| 0 <= k < before.len() && before[k] == cell;
                assert(after[k] == cell);
            }
            if c == cell {
                assert(after[i as int] == cell);
            }
        }
        if c == cell {
            found = true;
        } else {
            kept.push(c);
        }
        i += 1;
    }
    proof {
        assert(cells@.take(n as int) =~= cells@);
        lemma_cleared(cells@, cell);
    }
    (kept, found)
}

/// Once a cell is taken out of a sequence it is not in it, and the sequence
/// has not grown; where the cell was not in it, the sequence is as before.
pub proof fn lemma_cleared(cells: Seq<Position>, cell: Position)
    ensures
        !cells.filter(off(cell)).contains(cell),
        cells.filter(off(cell)).len() <= cells.len(),
        !cells.contains(cell) ==> cells.filter(off(cell)) == cells,
    decreases cells.len(),
{
    reveal(Seq::filter);
    let kept = cells.filter(off(cell));
    if cells.len() > 0 {
        let front = cells.drop_last();
        lemma_cleared(front, cell);
        if kept.contains(cell) {
            let k = choose|k: int| 0 <= k < kept.len() && kept[k] == cell;
            if k < front.filter(off(cell)).len() {
                assert(front.filter(off(cell))[k] == cell);
            }
        }
        if !cells.contains(cell) {
            assert(cells.last() == cells[cells.len() - 1]);
            assert forall|k: int| 0 <= k < front.len() implies front[k] != cell by {
                assert(cells[k] == front[k]);
            }
            assert(front.filter(off(cell)) == front);
            assert(kept =~= cells);
        }
    }
}

/// The game as it runs: the state that the steps work on.
pub struct Game {
    arena: Arena,
    segments: Vec<Position>,
    heading: Direction,
    last_tail: Position,
    food: Vec<Position>,
    score: Score,
    growth_pending: bool,
    score_pending: bool,
    game_over_pending: bool,
}

impl View for Game {
    type V = GameView;

    closed spec fn view(&self) -> GameView {
        GameView {
            arena: self.arena,
            segments: self.segments@,
            heading: self.heading,
            last_tail: self.last_tail,
            food: self.food@,
            score: self.score@,
            growth_pending: self.growth_pending,
            score_pending: self.score_pending,
            game_over_pending: self.game_over_pending,
        }
    }
}

impl Game {
    /// What holds of every game; see [`GameView::wf`].
    pub open spec fn wf(&self) -> bool {
        self@.wf()
    }

    /// Starts a game on `arena`.
    pub fn new(arena: Arena) -> (g: Game)
        requires
            arena.valid(),
        ensures
            g@ == GameView::initial(arena),
            g.wf(),
    {
        let mut segments: Vec<Position> = Vec::new();
        segments.push(Position::start());
        segments.push(Position::start());
        Game {
            arena,
            segments,
            heading: Direction::Up,
            last_tail: Position::start(),
            food: Vec::new(),
            score: Score::new(),
            growth_pending: false,
            score_pending: false,
            game_over_pending: false,
        }
    }

    /// Returns the arena that is played on.
    pub fn arena(&self) -> (a: Arena)
        ensures
            a == self@.arena,
    {
        self.arena
    }

    /// Returns the cells of the snake, head first.
    pub fn segments(&self) -> (cells: &Vec<Position>)
        ensures
            cells@ == self@.segments,
    {
        &self.segments
    }

    /// Returns the number of segments.
    pub fn len(&self) -> (n: usize)
        ensures
            n == self@.segments.len(),
    {
        self.segments.len()
    }

    /// Returns the cell of the head.
    pub fn head(&self) -> (p: Position)
        requires
            self.wf(),
        ensures
            p == self@.head(),
    {
        self.segments[0]
    }

    /// Returns the heading.
    pub fn heading(&self) -> (d: Direction)
        ensures
            d == self@.heading,
    {
        self.heading
    }

    /// Returns the cell that the tail left with the last movement.
    pub fn last_tail(&self) -> (p: Position)
        ensures
            p == self@.last_tail,
    {
        self.last_tail
    }

    /// Returns the cells that hold food, oldest first.
    pub fn food(&self) -> (cells: &Vec<Position>)
        ensures
            cells@ == self@.food,
    {
        &self.food
    }

    /// Returns the score.
    pub fn score(&self) -> (n: u32)
        ensures
            n == self@.score,
    {
        self.score.get()
    }

    /// Tells whether a meal waits to lengthen the snake.
    pub fn growth_pending(&self) -> (b: bool)
        ensures
            b == self@.growth_pending,
    {
        self.growth_pending
    }

    /// Tells whether a meal waits to be counted.
    pub fn score_pending(&self) -> (b: bool)
        ensures
            b == self@.score_pending,
    {
        self.score_pending
    }

    /// Tells whether a collision waits to end the round.
    pub fn game_over_pending(&self) -> (b: bool)
        ensures
            b == self@.game_over_pending,
    {
        self.game_over_pending
    }

    /// Tells whether the cell ahead of the head still has `i32` coordinates,
    /// which movement needs. It always has while the snake lies in the
    /// arena.
    pub fn can_move(&self) -> (b: bool)
        requires
            self.wf(),
        ensures
            b == self@.can_move(),
            !self@.game_over_pending ==> b,
    {
        proof {
            if !self@.game_over_pending {
                lemma_in_play_can_move(self@);
            }
        }
        let head: Position = self.segments[0];
        match self.heading {
            Direction::Left => head.x > i32::MIN,
            Direction::Right => head.x < i32::MAX,
            Direction::Up => head.y < i32::MAX,
            Direction::Down => head.y > i32::MIN,
        }
    }

    /// Moves the snake one cell ahead. Each segment behind the head takes
    /// the cell of the one before it, and the cell that the tail leaves is
    /// remembered for the growth step. Running into a wall or into the
    /// snake as it lay before the movement asks for the end of the round;
    /// the result says whether that happened.
    pub fn snake_movement(&mut self) -> (collided: bool)
        requires
            old(self).wf(),
            old(self)@.can_move(),
        ensures
            final(self).wf(),
            final(self)@ == old(self)@.moved(),
            collided == old(self)@.hits(),
            final(self)@.segments.len() == old(self)@.segments.len(),
            final(self)@.head() == old(self)@.head().stepped(old(self)@.heading),
            forall|i: int|
                1 <= i < old(self)@.segments.len() ==> #[trigger] final(self)@.segments[i] == old(
                    self,
                )@.segments[i - 1],
            final(self)@.last_tail == old(self)@.segments.last(),
    {
        proof {
            lemma_moved_wf(self@);
        }
        let n: usize = self.segments.len();
        let ahead: Position = self.segments[0].step(self.heading);
        let hit_wall: bool = !self.arena.contains(ahead);
        let hit_self: bool = occupies(&self.segments, ahead);
        self.last_tail = self.segments[n - 1];
        follow(&mut self.segments, ahead);
        if hit_wall || hit_self {
            self.game_over_pending = true;
        }
        hit_wall || hit_self
    }

    /// Looks for food under the head. Every food on the head's cell is
    /// eaten; if there was any, growth and a point are requested, once each.
    /// The result says whether the snake ate.
    pub fn snake_eating(&mut self) -> (ate: bool)
        requires
            old(self).wf(),
        ensures
            final(self).wf(),
            final(self)@ == old(self)@.fed(),
            ate == old(self)@.finds_food(),
            !final(self)@.finds_food(),
            ate ==> final(self)@.growth_pending && final(self)@.score_pending,
    {
        let head: Position = self.segments[0];
        let (left, ate) = clear_cell(&self.food, head);
        self.food = left;
        if ate {
            self.growth_pending = true;
            self.score_pending = true;
        }
        ate
    }

    /// Lengthens the snake if growth is requested: one segment is added on
    /// the cell that the tail left last, and the request is done. The result
    /// says whether the snake grew.
    pub fn snake_growth(&mut self) -> (grew: bool)
        requires
            old(self).wf(),
        ensures
            final(self).wf(),
            final(self)@ == old(self)@.grown(),
            grew == old(self)@.growth_pending,
            !final(self)@.growth_pending,
            final(self)@.segments.len() == old(self)@.segments.len() + if grew {
                1int
            } else {
                0int
            },
    {
        if self.growth_pending {
            self.segments.push(self.last_tail);
            self.growth_pending = false;
            true
        } else {
            false
        }
    }

    /// Puts a fresh snake in place of the old one: two segments, both on the
    /// start cell, heading up.
    pub fn spawn_snake(&mut self)
        requires
            old(self).wf(),
        ensures
            final(self).wf(),
            final(self)@ == old(self)@.respawned(),
    {
        let mut segments: Vec<Position> = Vec::new();
        segments.push(Position::start());
        segments.push(Position::start());
        self.segments = segments;
        self.heading = Direction::Up;
        self.last_tail = Position::start();
    }

    /// Ends the round if a collision asks for it: the food is cleared away,
    /// the score goes back to zero, a fresh snake is spawned and what was
    /// requested is forgotten. The result says whether the round ended.
    pub fn game_over(&mut self) -> (ended: bool)
        requires
            old(self).wf(),
        ensures
            final(self).wf(),
            final(self)@ == old(self)@.settled(),
            ended == old(self)@.game_over_pending,
            !final(self)@.game_over_pending,
            ended ==> final(self)@.segments.len() == 2 && final(self)@.score == 0
                && final(self)@.food.len() == 0,
    {
        if self.game_over_pending {
            self.food.clear();
            self.score.reset();
            self.spawn_snake();
            self.growth_pending = false;
            self.score_pending = false;
            self.game_over_pending = false;
            true
        } else {
            false
        }
    }

    /// Counts a requested point and returns the score for the board.
    pub fn update_board(&mut self) -> (shown: u32)
        requires
            old(self).wf(),
            old(self)@.score_pending ==> old(self)@.score < u32::MAX,
        ensures
            final(self).wf(),
            final(self)@ == old(self)@.tallied(),
            shown == final(self)@.score,
    {
        if self.score_pending {
            self.score.increment();
            self.score_pending = false;
        }
        self.score.get()
    }

    /// Asks for the heading `wanted`. A request to turn right round is
    /// dropped; any other takes effect with the next movement.
    pub fn turn(&mut self, wanted: Direction)
        requires
            old(self).wf(),
        ensures
            final(self).wf(),
            final(self)@ == old(self)@.turned(wanted),
            wanted == old(self)@.heading.reversed() ==> final(self)@.heading == old(
                self,
            )@.heading,
            wanted != old(self)@.heading.reversed() ==> final(self)@.heading == wanted,
            final(self)@.heading != old(self)@.heading.reversed(),
    {
        self.heading = steer(self.heading, wanted);
    }

    /// Steers by the keys that are held down: the heading they ask for is
    /// requested as by [`Game::turn`].
    pub fn snake_movement_input(&mut self, pressed: &[Key])
        requires
            old(self).wf(),
        ensures
            final(self).wf(),
            final(self)@ == old(self)@.turned(requested(pressed@, old(self)@.heading)),
            final(self)@.heading != old(self)@.heading.reversed(),
    {
        let wanted: Direction = requested_direction(pressed, self.heading);
        self.turn(wanted);
    }

    /// Puts food on `cell`. The cell may lie under the snake or hold food
    /// already.
    pub fn place_food(&mut self, cell: Position)
        requires
            old(self).wf(),
        ensures
            final(self).wf(),
            final(self)@ == old(self)@.with_food(cell),
    {
        self.food.push(cell);
    }

    /// Puts food on the cell of the arena that the two draws select; see
    /// [`Arena::cell_at`].
    pub fn spawn_food(&mut self, draw_x: u32, draw_y: u32)
        requires
            old(self).wf(),
        ensures
            final(self).wf(),
            final(self)@ == old(self)@.with_food(old(self)@.arena.cell_of(draw_x, draw_y)),
            final(self)@.arena.holds(final(self)@.food.last()),
    {
        let cell: Position = self.arena.cell_at(draw_x, draw_y);
        self.place_food(cell);
    }

    /// Puts food on a cell of the arena drawn at random, column and row
    /// drawn apart. Whatever is drawn, one food is added, on a cell of the
    /// arena, and nothing else changes: the cell may lie under the snake or
    /// hold food already.
    pub fn food_spawner(&mut self)
        requires
            old(self).wf(),
        ensures
            final(self).wf(),
            final(self)@.food.len() == old(self)@.food.len() + 1,
            final(self)@.arena.holds(final(self)@.food.last()),
            final(self)@ == old(self)@.with_food(final(self)@.food.last()),
    {
        let draw_x: u32 = random_draw();
        let draw_y: u32 = random_draw();
        self.spawn_food(draw_x, draw_y);
    }

    /// Runs one tick: movement if it is due, then the eating check, growth
    /// and the end-of-round step, in this order.
    pub fn tick(&mut self, move_due: bool)
        requires
            old(self).wf(),
            move_due ==> old(self)@.can_move(),
        ensures
            final(self).wf(),
            final(self)@ == old(self)@.ticked(move_due),
            !final(self)@.game_over_pending,
            !final(self)@.growth_pending,
    {
        if move_due {
            self.snake_movement();
        }
        self.snake_eating();
        self.snake_growth();
        self.game_over();
    }
}

} // verus!
