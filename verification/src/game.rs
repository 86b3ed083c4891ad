//! The simulation: a two-state machine (Running, GameOver) that owns the
//! snake, the food, the board bounds and the score, and advances one
//! discrete tick at a time: move, then collision check, then food check.

use std::collections::VecDeque;
use vstd::prelude::*;

use crate::direction::Direction;
use crate::point::{in_bounds, Point};
use crate::rng::{new_rng, sample_below};
use crate::snake::{hits_self, occupies, step_spec, Snake};

verus! {

/// How many random samples food placement tries before falling back to a
/// deterministic scan for a free cell.
pub const FOOD_SAMPLE_ATTEMPTS: usize = 64;

/// Points awarded for each food consumed.
pub const FOOD_REWARD: u32 = 10;

/// Every cell of the `width` by `height` board is occupied by `body`.
pub open spec fn board_full(body: Seq<Point>, width: i32, height: i32) -> bool {
    forall|p: Point| in_bounds(p, width, height) ==> #[trigger] occupies(body, p)
}

/// The cell at the middle of the board, where a fresh snake starts.
pub open spec fn center(width: i32, height: i32) -> Point {
    Point { x: (width / 2) as i32, y: (height / 2) as i32 }
}

/// The whole game state: snake, food, fixed bounds, score, and the
/// terminal flag.
pub struct Game {
    pub snake: Snake,
    pub food: Point,
    pub width: i32,
    pub height: i32,
    pub score: u32,
    pub game_over: bool,
}

impl Game {
    /// Invariants held between ticks: the snake is non-empty, the board
    /// has at least two cells, and while the game runs the head is on the
    /// board and the food is on the board and off the body.
    pub open spec fn wf(self) -> bool {
        &&& self.snake.wf()
        &&& 1 <= self.width
        &&& 1 <= self.height
        &&& 2 <= self.width * self.height
        &&& (!self.game_over ==> in_bounds(self.snake.head_spec(), self.width, self.height))
        &&& (!self.game_over ==> in_bounds(self.food, self.width, self.height))
        &&& (!self.game_over ==> !occupies(self.snake.body@, self.food))
    }

    /// The cell the head will advance to on the next tick.
    pub open spec fn next_head(self) -> Point {
        step_spec(self.snake.head_spec(), self.snake.direction)
    }

    /// The body right after the head advances, before any tail removal.
    pub open spec fn moved_body(self) -> Seq<Point> {
        seq![self.next_head()] + self.snake.body@
    }

    /// The next tick's advance ends in a wall or self collision.
    pub open spec fn tick_collides(self) -> bool {
        !in_bounds(self.next_head(), self.width, self.height) || hits_self(self.moved_body())
    }

    /// The next tick's advance lands on the food (and does not collide).
    pub open spec fn tick_eats(self) -> bool {
        !self.tick_collides() && self.next_head() == self.food
    }

    /// A freshly constructed game on a `width` by `height` board: score 0,
    /// running, a one-segment snake at the board's center heading Right,
    /// and food on the board but off the snake.
    pub open spec fn is_initial(self, width: i32, height: i32) -> bool {
        &&& self.width == width
        &&& self.height == height
        &&& self.score == 0
        &&& !self.game_over
        &&& self.snake.direction == Direction::Right
        &&& self.snake.body@ == seq![center(width, height)]
        &&& in_bounds(self.food, width, height)
        &&& !occupies(self.snake.body@, self.food)
    }

    /// A game on a board of at least two cells, so that food can be placed
    /// beside the one-segment snake.
    pub fn new(width: i32, height: i32) -> (g: Game)
        requires
            1 <= width,
            1 <= height,
            2 <= width * height,
        ensures
            g.wf(),
            g.is_initial(width, height),
    {
        let snake = Snake::new(width / 2, height / 2);
        let food_opt = Game::generate_food(width, height, &snake.body);
        proof {
            let c = center(width, height);
            let free = spare_cell(width, height, c);
            if c != (Point { x: 0, y: 0 }) {
                assert(in_bounds(free, width, height) && free != c);
            } else if width >= 2 {
                assert(in_bounds(free, width, height) && free != c);
            } else {
                assert(width == 1);
                assert(height >= 2) by (nonlinear_arith)
                    requires
                        width == 1,
                        2 <= width * height,
                ;
                assert(in_bounds(free, width, height) && free != c);
            }
            assert(!occupies(snake.body@, free));
            assert(!board_full(snake.body@, width, height));
        }
        let food = food_opt.unwrap();
        Game { snake, food, width, height, score: 0, game_over: false }
    }

    /// A coordinate sampled uniformly from the board until it misses every
    /// body segment; after a bounded number of samples a deterministic
    /// scan supplies a free cell instead. `None` exactly when the body
    /// covers the whole board, the one degenerate case the retry loop
    /// could never leave.
    pub fn generate_food(width: i32, height: i32, snake_body: &VecDeque<Point>) -> (r: Option<
        Point,
    >)
        requires
            1 <= width,
            1 <= height,
        ensures
            r is None <==> board_full(snake_body@, width, height),
            r matches Some(f) ==> in_bounds(f, width, height) && !occupies(snake_body@, f),
    {
        let fallback = match first_free_cell(width, height, snake_body) {
            Some(p) => p,
            None => {
                return None;
            },
        };
        let mut rng = new_rng();
        let mut attempts: usize = 0;
        while attempts < FOOD_SAMPLE_ATTEMPTS
            invariant
                1 <= width,
                1 <= height,
                in_bounds(fallback, width, height),
                !occupies(snake_body@, fallback),
            decreases FOOD_SAMPLE_ATTEMPTS - attempts,
        {
            let candidate = Point { x: sample_below(&mut rng, width), y: sample_below(
                &mut rng,
                height,
            ) };
            if !contains_point(snake_body, candidate) {
                return Some(candidate);
            }
            attempts = attempts + 1;
        }
        Some(fallback)
    }

    /// One discrete tick: the head advances, a collision ends the game
    /// with the colliding head kept as the final position, eating raises
    /// the score and replaces the food, and otherwise the tail is removed
    /// so the length stays the same. A tick on a finished game changes
    /// nothing. If eating leaves no free cell for food, the game ends with
    /// the board full, the one case the rules leave open.
    pub fn update(&mut self)
        requires
            old(self).wf(),
            old(self).score + FOOD_REWARD <= u32::MAX,
        ensures
            final(self).wf(),
            final(self).width == old(self).width,
            final(self).height == old(self).height,
            old(self).game_over ==> *final(self) == *old(self),
            !old(self).game_over ==> final(self).snake.direction == old(self).snake.direction,
            !old(self).game_over && old(self).tick_collides() ==> {
                &&& final(self).game_over
                &&& final(self).snake.body@ == old(self).moved_body()
                &&& final(self).food == old(self).food
                &&& final(self).score == old(self).score
            },
            !old(self).game_over && old(self).tick_eats() ==> {
                &&& final(self).snake.body@ == old(self).moved_body()
                &&& final(self).snake.body@.len() == old(self).snake.body@.len() + 1
                &&& final(self).score == old(self).score + FOOD_REWARD
                &&& (!board_full(old(self).moved_body(), old(self).width, old(self).height) ==> {
                    &&& !final(self).game_over
                    &&& in_bounds(final(self).food, old(self).width, old(self).height)
                    &&& !occupies(old(self).moved_body(), final(self).food)
                })
                &&& (board_full(old(self).moved_body(), old(self).width, old(self).height) ==> {
                    &&& final(self).game_over
                    &&& final(self).food == old(self).food
                })
            },
            !old(self).game_over && !old(self).tick_collides() && !old(self).tick_eats() ==> {
                &&& !final(self).game_over
                &&& final(self).snake.body@ == old(self).moved_body().drop_last()
                &&& final(self).snake.body@.len() == old(self).snake.body@.len()
                &&& final(self).food == old(self).food
                &&& final(self).score == old(self).score
            },
    {
        if self.game_over {
            return ;
        }

        self.snake.move_forward();

        if self.snake.check_collision(self.width, self.height) {
            self.game_over = true;
            return ;
        }

        if self.snake.eat_food(self.food) {
            self.score = self.score + FOOD_REWARD;
            match Game::generate_food(self.width, self.height, &self.snake.body) {
                Some(f) => {
                    self.food = f;
                },
                None => {
                    self.game_over = true;
                },
            }
        } else {
            proof {
                assert(!occupies(self.snake.body@, self.food)) by {
                    if occupies(self.snake.body@, self.food) {
                        let i = choose|i: int|
                            0 <= i < self.snake.body@.len() && self.snake.body@[i] == self.food;
                        if i == 0 {
                            assert(self.snake.head_spec() == self.food);
                        } else {
                            assert(old(self).snake.body@[i - 1] == self.food);
                            assert(occupies(old(self).snake.body@, self.food));
                        }
                    }
                }
            }
        }
    }

    /// Full reconstruction with the same bounds: a fresh snake at the
    /// center, fresh food, score back to 0, and the terminal flag cleared.
    /// Only a finished game is restarted.
    pub fn restart(&mut self)
        requires
            old(self).wf(),
            old(self).game_over,
        ensures
            final(self).wf(),
            final(self).is_initial(old(self).width, old(self).height),
    {
        *self = Game::new(self.width, self.height);
    }
}

/// A board cell distinct from `taken`, used to witness that one segment
/// cannot cover a board of two or more cells.
pub open spec fn spare_cell(width: i32, height: i32, taken: Point) -> Point
    recommends
        1 <= width,
        1 <= height,
        2 <= width * height,
{
    if taken != (Point { x: 0, y: 0 }) {
        Point { x: 0, y: 0 }
    } else if width >= 2 {
        Point { x: 1, y: 0 }
    } else {
        Point { x: 0, y: 1 }
    }
}

/// Whether some segment of `body` equals `p`, by a linear scan.
fn contains_point(body: &VecDeque<Point>, p: Point) -> (r: bool)
    ensures
        r == occupies(body@, p),
{
    let mut i: usize = 0;
    while i < body.len()
        invariant
            0 <= i <= body@.len(),
            forall|j: int| 0 <= j < i ==> #[trigger] body@[j] != p,
        decreases body@.len() - i,
    {
        if body[i] == p {
            return true;
        }
        i += 1;
    }
    false
}

/// The first free cell of the board in column-major order, or `None` when
/// the body covers every cell.
fn first_free_cell(width: i32, height: i32, body: &VecDeque<Point>) -> (r: Option<Point>)
    requires
        1 <= width,
        1 <= height,
    ensures
        r is None <==> board_full(body@, width, height),
        r matches Some(f) ==> in_bounds(f, width, height) && !occupies(body@, f),
{
    let mut x: i32 = 0;
    while x < width
        invariant
            0 <= x <= width,
            1 <= height,
            forall|p: Point|
                in_bounds(p, width, height) && p.x < x ==> #[trigger] occupies(body@, p),
        decreases width - x,
    {
        let mut y: i32 = 0;
        while y < height
            invariant
                0 <= x < width,
                0 <= y <= height,
                forall|p: Point|
                    in_bounds(p, width, height) && p.x < x ==> #[trigger] occupies(body@, p),
                forall|p: Point|
                    in_bounds(p, width, height) && p.x == x && p.y < y ==> #[trigger] occupies(
                        body@,
                        p,
                    ),
            decreases height - y,
        {
            let candidate = Point { x, y };
            if !contains_point(body, candidate) {
                return Some(candidate);
            }
            y = y + 1;
        }
        x = x + 1;
    }
    None
}

} // verus!
