//! What holds of the game, whatever is played.

use crate::game::{lemma_cleared, lemma_moved_wf, off, GameView};
use crate::grid::{Arena, Direction, Position};
use crate::keys::{requested, steered, Key};
use vstd::prelude::*;

verus! {

/// One thing that happens to a game.
pub enum Step {
    /// A heading is asked for.
    Steer(Direction),
    /// Food appears on a cell.
    Food(Position),
    /// The score board takes its turn.
    Board,
    /// A tick runs, with or without movement.
    Tick(bool),
}

impl GameView {
    /// The game as movement leaves it at a tick, before the eating check.
    pub open spec fn advanced(self, move_due: bool) -> GameView {
        if move_due {
            self.moved()
        } else {
            self
        }
    }

    /// The game after `step`.
    pub open spec fn after(self, step: Step) -> GameView {
        match step {
            Step::Steer(wanted) => self.turned(wanted),
            Step::Food(cell) => self.with_food(cell),
            Step::Board => self.tallied(),
            Step::Tick(move_due) => self.ticked(move_due),
        }
    }

    /// Whether the snake eats at `step`.
    pub open spec fn eats_at(self, step: Step) -> bool {
        step matches Step::Tick(move_due) && self.advanced(move_due).finds_food()
    }

    /// Whether `step` ends the round.
    pub open spec fn ends_at(self, step: Step) -> bool {
        step matches Step::Tick(move_due) && self.advanced(move_due).game_over_pending
    }
}

/// The game after all of `steps`, from `start`.
pub open spec fn play(start: GameView, steps: Seq<Step>) -> GameView
    decreases steps.len(),
{
    if steps.len() == 0 {
        start
    } else {
        play(start, steps.drop_last()).after(steps.last())
    }
}

/// The number of steps among `steps` at which the snake eats.
pub open spec fn meals(start: GameView, steps: Seq<Step>) -> nat
    decreases steps.len(),
{
    if steps.len() == 0 {
        0
    } else {
        let fed: nat = if play(start, steps.drop_last()).eats_at(steps.last()) {
            1
        } else {
            0
        };
        meals(start, steps.drop_last()) + fed
    }
}

/// Whether none of `steps` ends the round.
pub open spec fn unbroken(start: GameView, steps: Seq<Step>) -> bool
    decreases steps.len(),
{
    if steps.len() == 0 {
        true
    } else {
        &&& unbroken(start, steps.drop_last())
        &&& !play(start, steps.drop_last()).ends_at(steps.last())
    }
}

/// Turning round twice gives the heading back.
pub proof fn law_opposite_twice(h: Direction)
    ensures
        h.opposite().opposite() == h,
        h.opposite() != h,
{
}

/// A request for the opposite of the heading changes nothing, whether it is
/// made outright or by the keys held down.
pub proof fn law_reversal_dropped(v: GameView, pressed: Seq<Key>)
    ensures
        steered(v.heading, v.heading.opposite()) == v.heading,
        v.turned(v.heading.opposite()) == v,
        requested(pressed, v.heading) == v.heading.opposite() ==> v.turned(
            requested(pressed, v.heading),
        ) == v,
{
}

/// No request makes the snake turn right round.
pub proof fn law_never_reverses(v: GameView, wanted: Direction)
    ensures
        v.turned(wanted).heading != v.heading.opposite(),
{
}

/// With the heading right, one movement takes a head on `(x, y)` to
/// `(x + 1, y)`, and the second segment to where the head was.
pub proof fn law_step_right(v: GameView)
    requires
        v.wf(),
        v.heading == Direction::Right,
        v.can_move(),
    ensures
        v.moved().head() == (Position { x: (v.head().x + 1) as i32, y: v.head().y }),
        v.moved().head().x == v.head().x + 1,
        v.moved().segments[1] == v.head(),
{
}

/// One movement takes the head one cell on in its heading and every other
/// segment to the cell of the one before it; the snake is as long as before.
pub proof fn law_follow_the_leader(v: GameView, i: int)
    requires
        v.wf(),
        1 <= i < v.segments.len(),
    ensures
        v.moved().segments.len() == v.segments.len(),
        v.moved().head() == v.head().stepped(v.heading),
        v.moved().segments[i] == v.segments[i - 1],
        v.moved().last_tail == v.segments.last(),
{
}

/// Every step keeps a game well formed: the snake never has fewer than two
/// segments, and it lies in the arena unless a collision waits to end the
/// round.
pub proof fn law_steps_keep_wf(v: GameView, step: Step)
    requires
        v.wf(),
    ensures
        v.after(step).wf(),
        v.after(step).segments.len() >= 2,
{
    match step {
        Step::Steer(_) => {},
        Step::Food(_) => {},
        Step::Board => {},
        Step::Tick(move_due) => {
            lemma_ticked(v, move_due);
        },
    }
}

/// A tick keeps a game well formed, leaves no growth and no collision
/// waiting, and lengthens the snake by one if it eats and the round goes on.
pub proof fn lemma_ticked(v: GameView, move_due: bool)
    requires
        v.wf(),
    ensures
        v.ticked(move_due).wf(),
        !v.ticked(move_due).growth_pending,
        !v.ticked(move_due).game_over_pending,
        v.ends_at(Step::Tick(move_due)) ==> v.ticked(move_due) == GameView::initial(v.arena),
        !v.ends_at(Step::Tick(move_due)) && !v.growth_pending ==> v.ticked(
            move_due,
        ).segments.len() == v.segments.len() + if v.eats_at(Step::Tick(move_due)) {
            1int
        } else {
            0int
        },
{
    lemma_moved_wf(v);
    let a = v.advanced(move_due);
    assert(a.wf());
    assert(a.segments.len() == v.segments.len());
    let g = a.fed().grown();
    assert(g.wf()) by {
        if !g.game_over_pending {
            assert forall|i: int| 0 <= i < g.segments.len() implies g.arena.holds(
                #[trigger] g.segments[i],
            ) by {
                if i < a.segments.len() {
                    assert(g.segments[i] == a.segments[i]);
                }
            }
        }
    }
}

/// After the end of a round the snake has two segments, the score is zero
/// and no food is left; the game is as it was at the very start. Ending the
/// round again changes nothing.
pub proof fn law_reset(v: GameView)
    requires
        v.game_over_pending,
    ensures
        v.settled() == GameView::initial(v.arena),
        v.settled().segments.len() == 2,
        v.settled().score == 0,
        v.settled().food.len() == 0,
        v.settled().settled() == v.settled(),
{
}

/// A tick at which the snake collides ends the round: what is left is the
/// game as it was at the very start.
pub proof fn law_collision_resets(v: GameView, move_due: bool)
    requires
        v.wf(),
        v.ends_at(Step::Tick(move_due)),
    ensures
        v.ticked(move_due) == GameView::initial(v.arena),
        v.ticked(move_due).segments.len() == 2,
        v.ticked(move_due).score == 0,
        v.ticked(move_due).food.len() == 0,
{
    lemma_ticked(v, move_due);
}

/// Food that appears on the head's cell is eaten at the next eating check.
/// The check asks for growth and for a point, once each: the growth step
/// then adds exactly one segment and the score board exactly one point, and
/// neither does so a second time.
pub proof fn law_food_on_head_is_eaten(v: GameView)
    requires
        v.wf(),
    ensures
        v.with_food(v.head()).finds_food(),
        !v.with_food(v.head()).fed().finds_food(),
        v.with_food(v.head()).fed().food == v.food.filter(off(v.head())),
        v.with_food(v.head()).fed().growth_pending,
        v.with_food(v.head()).fed().score_pending,
        v.with_food(v.head()).fed().grown().segments.len() == v.segments.len() + 1,
        v.with_food(v.head()).fed().grown().grown() == v.with_food(v.head()).fed().grown(),
        v.with_food(v.head()).fed().tallied().score == v.score + 1,
        v.with_food(v.head()).fed().tallied().tallied() == v.with_food(
            v.head(),
        ).fed().tallied(),
{
    let head = v.head();
    let w = v.with_food(head);
    assert(w.food[w.food.len() - 1] == head);
    assert(w.head() == head);
    lemma_cleared(w.food, head);
    v.food.lemma_filter_push(head, off(head));
}

/// While no step ends the round, playing keeps the game well formed and
/// leaves no growth waiting after a tick, and the snake is longer by one
/// segment for each step at which it ate.
pub proof fn lemma_length_counts_meals(start: GameView, steps: Seq<Step>)
    requires
        start.wf(),
        !start.growth_pending,
        unbroken(start, steps),
    ensures
        play(start, steps).wf(),
        !play(start, steps).growth_pending,
        play(start, steps).segments.len() == start.segments.len() + meals(start, steps),
    decreases steps.len(),
{
    if steps.len() > 0 {
        let before = play(start, steps.drop_last());
        lemma_length_counts_meals(start, steps.drop_last());
        match steps.last() {
            Step::Steer(_) => {},
            Step::Food(_) => {},
            Step::Board => {},
            Step::Tick(move_due) => {
                lemma_ticked(before, move_due);
            },
        }
    }
}

/// From the start of a round, after steps none of which ends it, the snake
/// has two segments and one more for each step at which it ate.
pub proof fn law_length_after_meals(arena: Arena, steps: Seq<Step>)
    requires
        arena.valid(),
        unbroken(GameView::initial(arena), steps),
    ensures
        play(GameView::initial(arena), steps).segments.len() == 2 + meals(
            GameView::initial(arena),
            steps,
        ),
{
    let start = GameView::initial(arena);
    assert(start.wf()) by {
        assert(arena.holds(Position::start_cell()));
    }
    lemma_length_counts_meals(start, steps);
}

} // verus!
