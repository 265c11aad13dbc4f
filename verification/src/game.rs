//! The per-tick controller: resolves input, steps the snake, judges
//! collisions, resolves eating, applies growth, and resets on game over.

use vstd::prelude::*;

verus! {

use crate::collision::{CollisionKind, check, in_arena, spec_check};
use crate::grid::{
    ARENA_HEIGHT,
    ARENA_WIDTH,
    Direction,
    Position,
    resolve_input,
    spec_resolve_input,
    spec_translate,
};
use crate::snake::SnakeState;

/// The signals one tick raises. They are consumed synchronously by the
/// caller within the same tick; at most one of the two is ever set, and
/// `game_over` is raised exactly once per collision tick however many
/// terminal conditions matched.
#[derive(Copy, Clone, PartialEq, Eq, Debug, Structural)]
pub struct TickEvents {
    pub game_over: bool,
    pub growth: bool,
}

/// The mathematical state of a game session, as the contracts speak of it.
pub ghost struct GameModel {
    /// Every body cell, head first.
    pub segments: Seq<Position>,
    /// The heading the head moves along on the next tick.
    pub heading: Direction,
    /// The food cell, if any food is currently placed.
    pub food: Option<Position>,
    /// The cell the tail vacated during the most recent step.
    pub last_tail: Option<Position>,
    /// Whether an eating signal is awaiting its growth segment.
    pub pending_growth: bool,
}

/// The segments of a freshly started snake: length two, head at (3, 3),
/// one trailing segment below it.
pub open spec fn start_segments() -> Seq<Position> {
    seq![Position { x: 3, y: 3 }, Position { x: 3, y: 2 }]
}

/// The heading of a freshly started snake.
pub open spec fn start_heading() -> Direction {
    Direction::Up
}

/// A reset always yields a snake of length two at the fixed start position,
/// whatever length the snake had when it collided.
pub proof fn lemma_start_shape()
    ensures
        start_segments().len() == 2,
        start_segments()[0] == (Position { x: 3, y: 3 }),
        start_segments()[1] == (Position { x: 3, y: 2 }),
{
}

/// Whether the head has landed on the food cell: exact coordinate equality.
pub fn check_eating(head: Position, food: Position) -> (r: bool)
    ensures
        r == (head == food),
{
    head == food
}

/// One game session: the snake, the food, and the transient growth state.
/// All of it is owned here and mutated only by the tick operations.
pub struct GameSession {
    snake: SnakeState,
    food: Option<Position>,
    pending_growth: bool,
    last_tail: Option<Position>,
}

impl View for GameSession {
    type V = GameModel;

    closed spec fn view(&self) -> GameModel {
        GameModel {
            segments: self.snake.segments@,
            heading: self.snake.heading,
            food: self.food,
            last_tail: self.last_tail,
            pending_growth: self.pending_growth,
        }
    }
}

impl GameSession {
    /// The session invariant: the snake is non-empty, every segment lies
    /// inside the arena, and no growth signal is pending between ticks.
    pub open spec fn inv(self) -> bool {
        &&& self@.segments.len() >= 1
        &&& forall|j: int|
            0 <= j < self@.segments.len() ==> in_arena(
                #[trigger] self@.segments[j],
                ARENA_WIDTH,
                ARENA_HEIGHT,
            )
        &&& !self@.pending_growth
    }

    /// The heading a tick adopts for `input` under the reversal rule.
    pub open spec fn tick_heading(self, input: Option<Direction>) -> Direction {
        spec_resolve_input(self@.heading, input)
    }

    /// The cell the head moves to on a tick fed `input`.
    pub open spec fn tick_new_head(self, input: Option<Direction>) -> Position {
        spec_translate(self@.segments[0], self.tick_heading(input))
    }

    /// The collision a tick fed `input` detects, judged against the arena
    /// bounds and the pre-shift snapshot of the trailing segments.
    pub open spec fn tick_collision(self, input: Option<Direction>) -> Option<CollisionKind> {
        spec_check(
            self.tick_new_head(input),
            self@.segments.drop_first(),
            ARENA_WIDTH,
            ARENA_HEIGHT,
        )
    }

    /// Whether a tick fed `input` survives and its new head lands on the food.
    pub open spec fn tick_eats(self, input: Option<Direction>) -> bool {
        self.tick_collision(input) is None && self@.food == Some(self.tick_new_head(input))
    }

    /// Starts a session: the fixed starting snake, heading up, no food
    /// placed, no growth pending.
    pub fn new() -> (s: GameSession)
        ensures
            s.inv(),
            s@.segments == start_segments(),
            s@.heading == start_heading(),
            s@.food is None,
            s@.last_tail is None,
    {
        let mut segments: Vec<Position> = Vec::new();
        segments.push(Position { x: 3, y: 3 });
        segments.push(Position { x: 3, y: 2 });
        let s = GameSession {
            snake: SnakeState::new(segments, Direction::Up),
            food: None,
            pending_growth: false,
            last_tail: None,
        };
        proof {
            assert(s@.segments =~= start_segments());
        }
        s
    }

    /// Places food at `p`. The cell is taken as the placement collaborator
    /// provides it: it is not validated against the snake's body, so food
    /// can land underneath the snake.
    pub fn place_food(&mut self, p: Position)
        ensures
            final(self)@.food == Some(p),
            final(self)@.segments == old(self)@.segments,
            final(self)@.heading == old(self)@.heading,
            final(self)@.last_tail == old(self)@.last_tail,
            final(self)@.pending_growth == old(self)@.pending_growth,
            old(self).inv() ==> final(self).inv(),
    {
        self.food = Some(p);
    }

    /// Advances the session by one tick, in this exact order: resolve the
    /// directional input against the reversal rule; step the snake; judge the
    /// collision of the new head against the arena and the pre-shift body; on
    /// a collision raise `game_over`, reset to the fixed start and stop; else
    /// check eating of the food as it now stands against the new head; on a
    /// match raise `growth`, remove the food, and append a segment at the cell
    /// the tail vacated during this same tick's step.
    pub fn advance(&mut self, input: Option<Direction>) -> (ev: TickEvents)
        requires
            old(self).inv(),
        ensures
            final(self).inv(),
            ev.game_over == (old(self).tick_collision(input) is Some),
            ev.growth == old(self).tick_eats(input),
            old(self).tick_collision(input) is Some ==> final(self)@.segments == start_segments(),
            old(self).tick_collision(input) is Some ==> final(self)@.heading == start_heading(),
            old(self).tick_collision(input) is Some ==> final(self)@.food is None,
            old(self).tick_collision(input) is Some ==> final(self)@.last_tail is None,
            old(self).tick_collision(input) is None ==> final(self)@.heading == old(self).tick_heading(input),
            old(self).tick_collision(input) is None ==> final(self)@.last_tail == Some(
                old(self)@.segments.last(),
            ),
            old(self).tick_collision(input) is None && !old(self).tick_eats(input)
                ==> final(self)@.segments
                    == seq![old(self).tick_new_head(input)] + old(self)@.segments.drop_last(),
            old(self).tick_collision(input) is None && !old(self).tick_eats(input)
                ==> final(self)@.food == old(self)@.food,
            old(self).tick_eats(input)
                ==> final(self)@.segments
                    == seq![old(self).tick_new_head(input)] + old(self)@.segments,
            old(self).tick_eats(input) ==> final(self)@.food is None,
            // movement alone never changes the body length; eating adds one
            old(self).tick_collision(input) is None && !old(self).tick_eats(input)
                ==> final(self)@.segments.len() == old(self)@.segments.len(),
            old(self).tick_eats(input)
                ==> final(self)@.segments.len() == old(self)@.segments.len() + 1,
    {
        let ghost pre = *old(self);
        // (1) resolve the pending directional input
        let heading = resolve_input(self.snake.heading, input);
        // snapshot the trailing body before the shift overwrites it
        let n = self.snake.segments.len();
        let mut body: Vec<Position> = Vec::new();
        let mut i: usize = 1;
        while i < n
            invariant
                1 <= i <= n,
                *self == pre,
                n == self.snake.segments@.len(),
                body@ =~= self.snake.segments@.subrange(1, i as int),
            decreases n - i,
        {
            let p = self.snake.segments[i];
            body.push(p);
            i = i + 1;
        }
        proof {
            assert(body@ =~= pre@.segments.drop_first());
        }
        // (2) step: the head advances, the body shifts, the tail is vacated
        let (new_head, vacated) = self.snake.step(heading);
        self.last_tail = Some(vacated);
        // (3) collision of the new head, against the pre-shift snapshot
        let col = check(new_head, &body, ARENA_WIDTH, ARENA_HEIGHT);
        if col.is_some() {
            // (3a) game over: clear the food and rebuild the fixed start
            let mut segments: Vec<Position> = Vec::new();
            segments.push(Position { x: 3, y: 3 });
            segments.push(Position { x: 3, y: 2 });
            self.snake = SnakeState::new(segments, Direction::Up);
            self.food = None;
            self.pending_growth = false;
            self.last_tail = None;
            proof {
                assert(self@.segments =~= start_segments());
            }
            return TickEvents { game_over: true, growth: false };
        }
        // (4) eating: the food as it now stands, against the new head
        let mut ate = false;
        if let Some(f) = self.food {
            if check_eating(new_head, f) {
                // (5) raise the growth signal and remove the food
                ate = true;
                self.food = None;
                self.pending_growth = true;
            }
        }
        // (6) apply a pending growth signal at the cell vacated in (2)
        if self.pending_growth {
            self.snake.grow(vacated);
            self.pending_growth = false;
        }
        proof {
            if pre.tick_eats(input) {
                assert(self@.segments =~= seq![pre.tick_new_head(input)] + pre@.segments);
            }
            assert forall|j: int| 0 <= j < self@.segments.len() implies in_arena(
                #[trigger] self@.segments[j],
                ARENA_WIDTH,
                ARENA_HEIGHT,
            ) by {
                if j == 0 {
                    assert(self@.segments[0] == pre.tick_new_head(input));
                } else if j < pre@.segments.len() {
                    assert(self@.segments[j] == pre@.segments[j - 1]);
                } else {
                    assert(self@.segments[j] == pre@.segments.last());
                }
            }
        }
        TickEvents { game_over: false, growth: ate }
    }

    /// The number of body segments.
    pub fn len(&self) -> (n: usize)
        ensures
            n == self@.segments.len(),
    {
        self.snake.segments.len()
    }

    /// The cell the head occupies.
    pub fn head(&self) -> (p: Position)
        requires
            self@.segments.len() >= 1,
        ensures
            p == self@.segments[0],
    {
        self.snake.segments[0]
    }

    /// The heading the head moves along on the next tick.
    pub fn heading(&self) -> (d: Direction)
        ensures
            d == self@.heading,
    {
        self.snake.heading
    }

    /// The food cell, if any food is currently placed.
    pub fn food(&self) -> (f: Option<Position>)
        ensures
            f == self@.food,
    {
        self.food
    }

    /// The cell the tail vacated during the most recent step, if any step
    /// has run since the session started or was reset.
    pub fn last_tail(&self) -> (t: Option<Position>)
        ensures
            t == self@.last_tail,
    {
        self.last_tail
    }

    /// The current segment positions, head first, as a fresh vector:
    /// what a view layer consumes to draw the snake.
    pub fn segment_positions(&self) -> (v: Vec<Position>)
        ensures
            v@ == self@.segments,
    {
        let n = self.snake.segments.len();
        let mut v: Vec<Position> = Vec::new();
        let mut i: usize = 0;
        while i < n
            invariant
                0 <= i <= n,
                n == self.snake.segments@.len(),
                v@ =~= self.snake.segments@.subrange(0, i as int),
            decreases n - i,
        {
            let p = self.snake.segments[i];
            v.push(p);
            i = i + 1;
        }
        proof {
            assert(v@ =~= self@.segments);
        }
        v
    }
}

} // verus!
