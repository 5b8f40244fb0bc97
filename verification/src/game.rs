//! The game: snake, food, score, speed and the game-over flag, advanced one
//! tick at a time.

use vstd::prelude::*;
use rand::Rng;
use crate::grid::{Key, Position, GRID_HEIGHT, GRID_WIDTH};
use crate::score::{score_line, Score, POINTS_PER_FOOD};
use crate::snake::{Snake, SnakeModel};

verus! {

/// Tick interval threshold of a new game, in hundredths of a second.
pub const INITIAL_SPEED: u32 = 10;

/// What the threshold gains at each speed-up, in hundredths of a second.
pub const SPEED_STEP: u32 = 2;

/// The threshold gains a step whenever the score reaches a multiple of this.
pub const SPEED_UP_EVERY: u32 = 1000;

/// Microseconds in a hundredth of a second, the unit of the threshold.
pub const MICROS_PER_SPEED_UNIT: u64 = 10_000;

/// How many random cells are tried for new food before the grid is scanned
/// for its first free cell.
pub const FOOD_ATTEMPTS: u32 = 1024;

/// What a tick did, for whoever plays the sounds.
#[derive(Clone, Copy, PartialEq, Eq, Structural, Debug)]
pub enum Event {
    /// The game was already over; nothing changed.
    Idle,
    /// The snake moved and nothing else happened.
    Moved,
    /// The snake ate the food.
    Ate,
    /// The snake ran into a wall or into itself.
    GameOver,
}

/// What a game is, mathematically. `speed` is in hundredths of a second.
pub struct GameModel {
    pub snake: SnakeModel,
    pub food: Position,
    pub score: int,
    pub speed: int,
    pub game_over: bool,
}

/// The threshold that belongs to a score: the initial one plus one step for
/// every full multiple of the speed-up interval.
pub open spec fn speed_for(score: int) -> int {
    INITIAL_SPEED + SPEED_STEP * (score / (SPEED_UP_EVERY as int))
}

/// What the threshold gains when the score becomes `score`.
pub open spec fn speed_gain(score: int) -> int {
    if score % (SPEED_UP_EVERY as int) == 0 {
        SPEED_STEP as int
    } else {
        0
    }
}

impl GameModel {
    /// The invariant of a game: a non-empty snake, a score that is a
    /// multiple of the points per food, the speed that belongs to the score,
    /// and, while the game runs, the head on the grid and the food on a free
    /// cell.
    pub open spec fn wf(self) -> bool {
        &&& self.snake.wf()
        &&& 0 <= self.score <= u32::MAX
        &&& self.score % (POINTS_PER_FOOD as int) == 0
        &&& self.speed == speed_for(self.score)
        &&& !self.game_over ==> self.snake.head().in_grid() && self.snake.is_free(self.food)
    }

    /// A new game with its food on `food`.
    pub open spec fn starting(food: Position) -> GameModel {
        GameModel {
            snake: SnakeModel::initial(),
            food,
            score: 0,
            speed: INITIAL_SPEED as int,
            game_over: false,
        }
    }

    /// The game after a key press. A finished game ignores every key; a
    /// running one hands the jump key and the arrows to its snake.
    pub open spec fn pressed(self, key: Key) -> GameModel {
        if self.game_over {
            self
        } else if key == Key::Space {
            GameModel { snake: self.snake.jumping(), ..self }
        } else {
            GameModel { snake: self.snake.turned(key), ..self }
        }
    }

    /// Whether one tick may lead from this game to `next` while reporting
    /// `ev`. Everything is determined but the cell of the new food, which
    /// may be any free one.
    pub open spec fn ticks_to(self, next: GameModel, ev: Event) -> bool {
        let moved = self.snake.moved();
        if self.game_over {
            next == self && ev == Event::Idle
        } else if moved.hits_wall() || moved.hits_self() {
            next == (GameModel { snake: moved, game_over: true, ..self }) && ev == Event::GameOver
        } else if !moved.eats(self.food) {
            next == (GameModel { snake: moved, ..self }) && ev == Event::Moved
        } else {
            let grown = moved.grown();
            &&& ev == Event::Ate
            &&& next.snake == grown
            &&& next.score == self.score + POINTS_PER_FOOD
            &&& next.speed == self.speed + speed_gain(next.score)
            &&& if grown.fills_grid() {
                next.game_over && next.food == self.food
            } else {
                !next.game_over && grown.is_free(next.food)
            }
        }
    }
}

/// A number drawn by `rand::Rng::gen_range` from `rand::thread_rng()` over
/// the half-open range `0..bound`. The range must not be empty, or the call
/// panics; the result lies in the range. Nothing else is claimed of it.
#[verifier::external_body]
fn random_below(bound: i32) -> (r: i32)
    requires
        0 < bound,
    ensures
        0 <= r < bound,
{
    rand::thread_rng().gen_range(0..bound)
}

/// A running or finished game.
pub struct Game {
    snake: Snake,
    food: Position,
    score: Score,
    speed: u32,
    game_over: bool,
}

impl View for Game {
    type V = GameModel;

    closed spec fn view(&self) -> GameModel {
        GameModel {
            snake: self.snake@,
            food: self.food,
            score: self.score@,
            speed: self.speed as int,
            game_over: self.game_over,
        }
    }
}

impl Game {
    /// The invariant that every constructor establishes and every method
    /// keeps.
    pub open spec fn wf(&self) -> bool {
        self@.wf()
    }

    /// A new game with its food on a randomly chosen free cell.
    pub fn new() -> (g: Game)
        ensures
            g.wf(),
            g@ == GameModel::starting(g@.food),
    {
        let mut game = Game {
            snake: Snake::new(),
            food: Position { x: 0, y: 0 },
            score: Score::new(),
            speed: INITIAL_SPEED,
            game_over: false,
        };
        let food = game.generate_food();
        proof {
            lemma_initial_snake_leaves_origin_free();
        }
        game.food = food.unwrap();
        game
    }

    /// A new game with its food on `food`, if that is a free cell of the
    /// grid; `None` if it is not.
    pub fn with_food(food: Position) -> (r: Option<Game>)
        ensures
            match r {
                Some(g) => SnakeModel::initial().is_free(food) && g.wf() && g@
                    == GameModel::starting(food),
                None => !SnakeModel::initial().is_free(food),
            },
    {
        let snake = Snake::new();
        match snake.free_cell_at(food.x, food.y) {
            Some(cell) => Some(
                Game {
                    snake,
                    food: cell,
                    score: Score::new(),
                    speed: INITIAL_SPEED,
                    game_over: false,
                },
            ),
            None => None,
        }
    }

    /// A free cell for new food: a random one, or the first free cell in
    /// scan order when none of the random tries hit a free cell. `None` when
    /// the snake covers the whole grid.
    pub fn generate_food(&self) -> (r: Option<Position>)
        ensures
            match r {
                Some(p) => self@.snake.is_free(p),
                None => self@.snake.fills_grid(),
            },
    {
        let mut attempts: u32 = 0;
        while attempts < FOOD_ATTEMPTS
            invariant
                attempts <= FOOD_ATTEMPTS,
            decreases FOOD_ATTEMPTS - attempts,
        {
            let x = random_below(GRID_WIDTH);
            let y = random_below(GRID_HEIGHT);
            let found = self.snake.free_cell_at(x, y);
            if found.is_some() {
                return found;
            }
            attempts += 1;
        }
        self.snake.first_free_cell()
    }

    /// One tick. A finished game stays as it is. Otherwise the snake moves;
    /// running into a wall or into itself ends the game; reaching the food
    /// grows the snake, adds to the score, may step up the speed and places
    /// new food on a free cell. Should no cell be free then, the game ends
    /// with the food left where it was.
    pub fn update(&mut self) -> (ev: Event)
        requires
            old(self).wf(),
            old(self)@.score + POINTS_PER_FOOD <= u32::MAX,
        ensures
            final(self).wf(),
            old(self)@.ticks_to(final(self)@, ev),
    {
        if self.game_over {
            return Event::Idle;
        }
        let ghost before = self@;
        self.snake.move_forward();
        if self.snake.collides_with_wall() || self.snake.collides_with_self() {
            self.game_over = true;
            proof {
                lemma_tick_keeps_invariant(before, self@, Event::GameOver);
            }
            return Event::GameOver;
        }
        if !self.snake.eats_food(self.food) {
            proof {
                lemma_tick_keeps_invariant(before, self@, Event::Moved);
            }
            return Event::Moved;
        }
        self.snake.grow();
        self.score.increase();
        proof {
            lemma_speed_follows_score(before.score);
        }
        if self.score.get() % SPEED_UP_EVERY == 0 {
            self.speed += SPEED_STEP;
        }
        match self.generate_food() {
            Some(food) => {
                self.food = food;
            },
            None => {
                self.game_over = true;
            },
        }
        proof {
            lemma_tick_keeps_invariant(before, self@, Event::Ate);
        }
        Event::Ate
    }

    /// Takes a key press. A finished game ignores it. In a running game the
    /// jump key marks a jump as pending and every other key goes to the
    /// snake as a request to turn.
    pub fn key_press(&mut self, key: Key)
        ensures
            final(self)@ == old(self)@.pressed(key),
            old(self).wf() ==> final(self).wf(),
    {
        if self.game_over {
            return;
        }
        match key {
            Key::Space => self.snake.jump(),
            _ => self.snake.change_direction(key),
        }
    }

    /// Whether the next tick is due: it is once more time has passed since
    /// the last tick than the tick interval threshold.
    pub fn is_tick_due(&self, elapsed_micros: u64) -> (due: bool)
        ensures
            due == (elapsed_micros > self@.speed * MICROS_PER_SPEED_UNIT),
    {
        elapsed_micros > (self.speed as u64) * MICROS_PER_SPEED_UNIT
    }

    /// The tick interval threshold, in hundredths of a second.
    pub fn get_speed(&self) -> (s: u32)
        ensures
            s == self@.speed,
    {
        self.speed
    }

    /// The score.
    pub fn score(&self) -> (p: u32)
        ensures
            p == self@.score,
    {
        self.score.get()
    }

    /// The line of text that shows the score, which says so when the game
    /// is over.
    pub fn score_text(&self) -> (s: String)
        ensures
            s@ == score_line(self@.score, self@.game_over),
    {
        self.score.text(self.game_over)
    }

    /// The cell the food lies on.
    pub fn food(&self) -> (p: Position)
        ensures
            p == self@.food,
    {
        self.food
    }

    /// Whether the game has ended.
    pub fn is_game_over(&self) -> (r: bool)
        ensures
            r == self@.game_over,
    {
        self.game_over
    }

    /// The snake.
    pub fn snake(&self) -> (s: &Snake)
        ensures
            s@ == self@.snake,
    {
        &self.snake
    }
}

/// The snake of a new game does not lie on the top-left cell.
pub proof fn lemma_initial_snake_leaves_origin_free()
    ensures
        SnakeModel::initial().is_free(Position { x: 0, y: 0 }),
        !SnakeModel::initial().fills_grid(),
{
    assert(SnakeModel::initial().is_free(Position { x: 0, y: 0 }));
}

/// One more piece of food moves the speed to the one that belongs to the new
/// score: a step up where the new score is a multiple of the speed-up
/// interval, and no change elsewhere.
pub proof fn lemma_speed_follows_score(score: int)
    requires
        0 <= score,
        score % (POINTS_PER_FOOD as int) == 0,
    ensures
        speed_for(score + POINTS_PER_FOOD) == speed_for(score) + speed_gain(score + POINTS_PER_FOOD),
{
}

/// A tick keeps the invariant of the game.
pub proof fn lemma_tick_keeps_invariant(g: GameModel, next: GameModel, ev: Event)
    requires
        g.wf(),
        g.score + POINTS_PER_FOOD <= u32::MAX,
        g.ticks_to(next, ev),
    ensures
        next.wf(),
{
    let moved = g.snake.moved();
    if g.game_over {
    } else if moved.hits_wall() || moved.hits_self() {
    } else if !moved.eats(g.food) {
        lemma_move_keeps_cell_free(g.snake, g.food);
    } else {
        lemma_speed_follows_score(g.score);
        assert(next.snake.head() == moved.head());
    }
}

/// A cell that no segment lies on, and that the moved head does not reach,
/// has no segment on it after the move either.
pub proof fn lemma_move_keeps_cell_free(s: SnakeModel, p: Position)
    requires
        s.wf(),
        !s.occupies(p),
        s.next_head() != p,
    ensures
        !s.moved().occupies(p),
{
}

} // verus!
