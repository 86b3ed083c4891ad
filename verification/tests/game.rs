use std::collections::VecDeque;

use snake_core::direction::Direction;
use snake_core::game::Game;
use snake_core::point::Point;
use snake_core::snake::Snake;

fn p(x: i32, y: i32) -> Point {
    Point { x, y }
}

fn snake_with(body: Vec<Point>, direction: Direction) -> Snake {
    Snake { body: VecDeque::from(body), direction }
}

fn game_with(snake: Snake, food: Point, width: i32, height: i32) -> Game {
    Game { snake, food, width, height, score: 0, game_over: false }
}

fn body_contains(body: &VecDeque<Point>, q: Point) -> bool {
    body.iter().any(|seg| *seg == q)
}

#[test]
fn new_game_starts_at_center() {
    let g = Game::new(30, 20);
    assert_eq!(g.width, 30);
    assert_eq!(g.height, 20);
    assert_eq!(g.score, 0);
    assert!(!g.game_over);
    assert_eq!(g.snake.body.len(), 1);
    assert_eq!(g.snake.body[0], p(15, 10));
    assert_eq!(g.snake.direction, Direction::Right);
}

#[test]
fn new_game_food_is_on_the_board_and_off_the_snake() {
    for _ in 0..50 {
        let g = Game::new(4, 3);
        assert!(0 <= g.food.x && g.food.x < 4);
        assert!(0 <= g.food.y && g.food.y < 3);
        assert!(!body_contains(&g.snake.body, g.food));
    }
}

#[test]
fn generate_food_avoids_the_body() {
    let body = VecDeque::from(vec![p(0, 0), p(1, 0), p(2, 0)]);
    for _ in 0..50 {
        let food = Game::generate_food(3, 3, &body).expect("board is not full");
        assert!(0 <= food.x && food.x < 3);
        assert!(0 <= food.y && food.y < 3);
        assert!(!body_contains(&body, food));
    }
}

#[test]
fn generate_food_finds_the_single_free_cell() {
    let body = VecDeque::from(vec![p(0, 0), p(0, 1), p(1, 0)]);
    let food = Game::generate_food(2, 2, &body).expect("one cell is free");
    assert_eq!(food, p(1, 1));
}

#[test]
fn generate_food_on_a_full_board_is_none() {
    let body = VecDeque::from(vec![p(0, 0), p(0, 1), p(1, 0), p(1, 1)]);
    assert!(Game::generate_food(2, 2, &body).is_none());
    let single = VecDeque::from(vec![p(0, 0)]);
    assert!(Game::generate_food(1, 1, &single).is_none());
}

#[test]
fn scenario_two_ticks_to_the_food() {
    // 5x5 board, snake at (2,2) heading Right, food at (4,2).
    let mut g = game_with(snake_with(vec![p(2, 2)], Direction::Right), p(4, 2), 5, 5);

    g.update();
    assert_eq!(g.snake.body[0], p(3, 2));
    assert_eq!(g.score, 0);
    assert_eq!(g.snake.body.len(), 1);

    g.update();
    assert_eq!(g.snake.body[0], p(4, 2));
    assert_eq!(g.score, 10, "eating awards ten points");
    assert_eq!(g.snake.body.len(), 2, "eating grows the body by one");
    assert!(!g.game_over);
    assert!(!body_contains(&g.snake.body, g.food), "new food is off the body");
}

#[test]
fn scenario_wall_hit_freezes_the_game() {
    // Snake at (0,0) heading Left: one step leaves the board.
    let mut snake = snake_with(vec![p(0, 0)], Direction::Left);
    snake.move_forward();
    assert_eq!(snake.body[0], p(-1, 0));
    assert!(snake.check_collision(5, 5));

    let mut g = game_with(snake_with(vec![p(0, 0)], Direction::Left), p(3, 3), 5, 5);
    g.update();
    assert!(g.game_over);
    assert_eq!(g.snake.body[0], p(-1, 0), "the colliding head stays recorded");

    let body_before: Vec<Point> = g.snake.body.iter().copied().collect();
    let food_before = g.food;
    let score_before = g.score;
    g.update();
    let body_after: Vec<Point> = g.snake.body.iter().copied().collect();
    assert!(g.game_over);
    assert_eq!(body_after, body_before, "a tick after game over is a no-op");
    assert_eq!(g.food, food_before);
    assert_eq!(g.score, score_before);
}

#[test]
fn scenario_reversal_rejected_mid_game() {
    let mut g = game_with(
        snake_with(vec![p(2, 2), p(2, 1), p(2, 0)], Direction::Right),
        p(4, 4),
        5,
        5,
    );
    g.snake.change_direction(Direction::Left);
    assert_eq!(g.snake.direction, Direction::Right);
}

#[test]
fn scenario_restart_resets_everything() {
    let mut g = game_with(snake_with(vec![p(0, 0)], Direction::Left), p(3, 3), 5, 5);
    g.update();
    assert!(g.game_over);

    g.restart();
    assert_eq!(g.score, 0);
    assert!(!g.game_over);
    assert_eq!(g.snake.body.len(), 1);
    assert_eq!(g.snake.body[0], p(2, 2), "back at the board center");
    assert_eq!(g.snake.direction, Direction::Right);
    assert!(0 <= g.food.x && g.food.x < 5);
    assert!(0 <= g.food.y && g.food.y < 5);
    assert!(!body_contains(&g.snake.body, g.food));
}

#[test]
fn self_collision_ends_the_game() {
    // A 5-segment snake that turns back into its own body.
    let mut g = game_with(
        snake_with(
            vec![p(2, 2), p(2, 3), p(3, 3), p(3, 2), p(3, 1)],
            Direction::Right,
        ),
        p(0, 0),
        6,
        6,
    );
    g.update();
    assert!(g.game_over, "head moved onto (3,2), a body segment");
}

#[test]
fn eating_the_last_free_cell_ends_the_game() {
    // 1x2 board: the snake fills the board on eating, so no food can be
    // placed and the game ends.
    let mut g = game_with(snake_with(vec![p(0, 0)], Direction::Down), p(0, 1), 1, 2);
    g.update();
    assert_eq!(g.score, 10);
    assert_eq!(g.snake.body.len(), 2);
    assert!(g.game_over, "a full board is terminal");
}
