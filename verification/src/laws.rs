//! What holds of every game, proved from the models of the snake and the
//! game.

use vstd::prelude::*;
use vstd::seq_lib::seq_to_set_is_finite;
use vstd::set_lib::{lemma_int_range, lemma_len_subset, lemma_map_size_bound, set_int_range};
use crate::game::{lemma_move_keeps_cell_free, lemma_speed_follows_score, Event, GameModel};
use crate::grid::{cell_at, cell_count, lemma_cell_at_in_grid, Position};
use crate::grid::{Key, CELL_SIZE, GRID_HEIGHT, GRID_WIDTH, WINDOW_HEIGHT, WINDOW_WIDTH};
use crate::snake::SnakeModel;

verus! {

/// The grid is the canvas cut into cells: 32 columns and 24 rows.
pub proof fn lemma_grid_matches_canvas()
    ensures
        GRID_WIDTH == 32,
        GRID_HEIGHT == 24,
        GRID_WIDTH * CELL_SIZE == WINDOW_WIDTH,
        GRID_HEIGHT * CELL_SIZE == WINDOW_HEIGHT,
{
}

/// A tick of a running game with no jump pending, in which the snake
/// neither collides nor eats, keeps the snake's length and moves the head
/// exactly one cell in the heading; the heading, food, score and speed stay.
pub proof fn lemma_plain_tick_advances_head(g: GameModel, next: GameModel, ev: Event)
    requires
        g.wf(),
        !g.game_over,
        !g.snake.has_jumped,
        g.ticks_to(next, ev),
        !g.snake.moved().hits_wall(),
        !g.snake.moved().hits_self(),
        !g.snake.moved().eats(g.food),
    ensures
        ev == Event::Moved,
        next.snake.body.len() == g.snake.body.len(),
        next.snake.head().x == g.snake.head().x + g.snake.direction.dx(),
        next.snake.head().y == g.snake.head().y + g.snake.direction.dy(),
        next.snake.body.subrange(1, next.snake.body.len() as int) == g.snake.body.drop_last(),
        next.snake.direction == g.snake.direction,
        next.food == g.food,
        next.score == g.score,
        next.speed == g.speed,
        !next.game_over,
{
    let moved = g.snake.moved();
    assert(moved.body.subrange(1, moved.body.len() as int) =~= g.snake.body.drop_last());
}

/// A pending jump makes the move keep the tail: the snake is one cell longer
/// afterwards.
pub proof fn lemma_jump_keeps_tail(s: SnakeModel)
    requires
        s.wf(),
        s.has_jumped,
    ensures
        s.moved().body.len() == s.body.len() + 1,
        s.moved().body.subrange(1, s.moved().body.len() as int) == s.body,
        !s.moved().has_jumped,
{
    assert(s.moved().body.subrange(1, s.moved().body.len() as int) =~= s.body);
}

/// A key press never reverses the snake: the heading afterwards is not the
/// opposite of the heading before. It changes nothing but the heading, and
/// the heading only to what an arrow key asked for.
pub proof fn lemma_turn_never_reverses(s: SnakeModel, key: Key)
    ensures
        s.turned(key).direction != s.direction.spec_opposite(),
        s.turned(key).body == s.body,
        s.turned(key).has_jumped == s.has_jumped,
        s.turned(key).direction != s.direction ==> key.spec_direction() == Some(
            s.turned(key).direction,
        ),
{
}

/// A key press in a game never reverses the snake, and leaves the body,
/// the food, the score, the speed and the game-over flag alone.
pub proof fn lemma_key_press_never_reverses(g: GameModel, key: Key)
    ensures
        g.pressed(key).snake.direction != g.snake.direction.spec_opposite(),
        g.pressed(key).snake.body == g.snake.body,
        g.pressed(key).food == g.food,
        g.pressed(key).score == g.score,
        g.pressed(key).speed == g.speed,
        g.pressed(key).game_over == g.game_over,
        g.game_over ==> g.pressed(key) == g,
{
}

/// After a move the snake collides with itself exactly when the new head
/// lies on a segment that the move kept: any old segment but the tail, or
/// any old segment at all when a jump was pending.
pub proof fn lemma_self_collision_after_move(s: SnakeModel)
    requires
        s.wf(),
    ensures
        s.moved().hits_self() <==> (if s.has_jumped {
            s.body
        } else {
            s.body.drop_last()
        }).contains(s.next_head()),
{
    let kept = if s.has_jumped {
        s.body
    } else {
        s.body.drop_last()
    };
    let moved = s.moved();
    if moved.hits_self() {
        let i = choose|i: int| 1 <= i < moved.body.len() && moved.body[i] == moved.head();
        assert(kept[i - 1] == s.next_head());
    }
    if kept.contains(s.next_head()) {
        let j = choose|j: int| 0 <= j < kept.len() && kept[j] == s.next_head();
        assert(moved.body[j + 1] == moved.head());
    }
}

/// After a move the snake collides with a wall exactly when the new head
/// lies outside the 32 columns and 24 rows of the grid.
pub proof fn lemma_wall_collision_after_move(s: SnakeModel)
    requires
        s.wf(),
    ensures
        s.moved().hits_wall() <==> !(0 <= s.next_head().x < 32 && 0 <= s.next_head().y < 24),
{
}

/// While a game runs, its food lies on a grid cell that no segment of the
/// snake is on; and where a tick places new food, it does so too.
pub proof fn lemma_food_is_on_a_free_cell(g: GameModel, next: GameModel, ev: Event)
    requires
        g.wf(),
        g.ticks_to(next, ev),
        !next.game_over,
    ensures
        next.food.in_grid(),
        !next.snake.body.contains(next.food),
{
    if !g.snake.moved().eats(g.food) {
        lemma_move_keeps_cell_free(g.snake, g.food);
    }
}

/// A tick adds the points of one piece of food to the score when the snake
/// ate, and leaves the score alone otherwise: the score never falls.
pub proof fn lemma_score_steps(g: GameModel, next: GameModel, ev: Event)
    requires
        g.ticks_to(next, ev),
    ensures
        ev == Event::Ate ==> next.score == g.score + 100,
        ev != Event::Ate ==> next.score == g.score,
        next.score >= g.score,
        ev == Event::Ate <==> !g.game_over && !g.snake.moved().hits_wall()
            && !g.snake.moved().hits_self() && g.snake.moved().eats(g.food),
{
}

/// A tick raises the speed by one step exactly when the snake ate and the
/// new score is a multiple of the speed-up interval; otherwise the speed
/// stays. So the speed is the initial one plus one step for each multiple
/// of the interval that the score has reached.
pub proof fn lemma_speed_steps(g: GameModel, next: GameModel, ev: Event)
    requires
        g.wf(),
        g.ticks_to(next, ev),
    ensures
        next.speed == g.speed + (if ev == Event::Ate && next.score % 1000 == 0 {
            2int
        } else {
            0int
        }),
        next.speed == 10 + 2 * (next.score / 1000),
{
    lemma_speed_follows_score(g.score);
}

/// A snake that leaves no grid cell free has at least as many segments as
/// the grid has cells. So a snake with fewer segments always leaves room
/// for food.
pub proof fn lemma_full_grid_needs_long_snake(s: SnakeModel)
    requires
        s.fills_grid(),
    ensures
        s.body.len() >= 768,
        s.body.len() >= cell_count(),
{
    let covered = s.body.to_set();
    let index_of = |p: Position| p.scan_index();
    let indices = covered.map(index_of);
    let wanted = set_int_range(0, cell_count());
    s.body.lemma_cardinality_of_set();
    seq_to_set_is_finite(s.body);
    lemma_map_size_bound(covered, indices, index_of);
    lemma_int_range(0, cell_count());
    assert forall|k: int| wanted.contains(k) implies indices.contains(k) by {
        let p = cell_at(k);
        lemma_cell_at_in_grid(k);
        assert(!s.is_free(p));
        assert(covered.contains(p));
        assert(index_of(p) == k);
    }
    lemma_len_subset(wanted, indices);
}

/// When a snake with fewer segments than the grid has cells, less two, eats
/// in a running game, new food is placed and the game goes on.
pub proof fn lemma_eating_goes_on_while_cells_remain(g: GameModel, next: GameModel)
    requires
        g.wf(),
        !g.game_over,
        g.ticks_to(next, Event::Ate),
        g.snake.body.len() + 2 < cell_count(),
    ensures
        !next.game_over,
        next.snake.is_free(next.food),
{
    if g.snake.moved().grown().fills_grid() {
        lemma_full_grid_needs_long_snake(g.snake.moved().grown());
    }
}

/// A finished game stays finished and a tick changes nothing in it.
pub proof fn lemma_game_over_is_final(g: GameModel, next: GameModel, ev: Event)
    requires
        g.game_over,
        g.ticks_to(next, ev),
    ensures
        next == g,
        ev == Event::Idle,
{
}

/// A tick ends the game exactly when the moved snake hits a wall or itself,
/// or when it ate and no cell is left for new food.
pub proof fn lemma_when_a_tick_ends_the_game(g: GameModel, next: GameModel, ev: Event)
    requires
        !g.game_over,
        g.ticks_to(next, ev),
    ensures
        next.game_over <==> g.snake.moved().hits_wall() || g.snake.moved().hits_self() || (
        g.snake.moved().eats(g.food) && g.snake.moved().grown().fills_grid()),
        ev == Event::GameOver <==> g.snake.moved().hits_wall() || g.snake.moved().hits_self(),
{
}

/// When the snake eats, it is one cell longer after the tick than before it
/// (two with a jump pending), and its last two cells are equal.
pub proof fn lemma_eating_grows(g: GameModel, next: GameModel)
    requires
        g.wf(),
        !g.game_over,
        g.ticks_to(next, Event::Ate),
    ensures
        next.snake.body.len() == g.snake.body.len() + (if g.snake.has_jumped {
            2int
        } else {
            1int
        }),
        next.snake.head() == g.food,
        next.snake.body[next.snake.body.len() - 1] == next.snake.body[next.snake.body.len() - 2],
{
}

} // verus!
