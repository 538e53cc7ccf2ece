use snake_game::food::Food;
use snake_game::game::GameState;
use snake_game::grid::{cell_rect, step, Direction, GRID_HEIGHT, GRID_WIDTH};
use snake_game::snake::{Ate, Snake};

fn snake_with(body: Vec<(i32, i32)>, direction: Direction) -> Snake {
    Snake { body, direction, ate: None }
}

fn far_food() -> Food {
    Food { x: 0, y: 0 }
}

#[test]
fn plain_move_right() {
    let mut s = snake_with(vec![(5, 5), (4, 5), (3, 5)], Direction::Right);
    s.update(&far_food());
    assert_eq!(s.body, vec![(6, 5), (5, 5), (4, 5)]);
    assert_eq!(s.ate, None);
}

#[test]
fn wraps_at_right_edge() {
    let mut s = snake_with(vec![(19, 5), (18, 5), (17, 5)], Direction::Right);
    s.update(&far_food());
    assert_eq!(s.body[0], (0, 5));
    assert_eq!(s.body, vec![(0, 5), (19, 5), (18, 5)]);
}

#[test]
fn wraps_at_every_edge() {
    assert_eq!(step((0, 7), Direction::Left), (19, 7));
    assert_eq!(step((19, 7), Direction::Right), (0, 7));
    assert_eq!(step((7, 0), Direction::Up), (7, 19));
    assert_eq!(step((7, 19), Direction::Down), (7, 0));
    assert_eq!(step((7, 7), Direction::Up), (7, 6));
    assert_eq!(step((7, 7), Direction::Left), (6, 7));
}

#[test]
fn eating_food_grows_body() {
    let mut s = snake_with(vec![(5, 5), (4, 5), (3, 5)], Direction::Right);
    s.update(&Food { x: 6, y: 5 });
    assert_eq!(s.ate, Some(Ate::Food));
    assert_eq!(s.body, vec![(6, 5), (5, 5), (4, 5), (3, 5)]);
}

#[test]
fn coordinates_stay_on_field() {
    let corners = [(0, 0), (19, 0), (0, 19), (19, 19)];
    let dirs = [Direction::Left, Direction::Right, Direction::Up, Direction::Down];
    for &c in corners.iter() {
        for &d in dirs.iter() {
            let mut s = snake_with(vec![c], d);
            s.update(&far_food());
            for &(x, y) in s.body.iter() {
                assert!(0 <= x && x < GRID_WIDTH);
                assert!(0 <= y && y < GRID_HEIGHT);
            }
        }
    }
}

#[test]
fn length_kept_on_plain_moves() {
    let mut s = Snake::new();
    for _ in 0..30 {
        s.update(&Food { x: 10, y: 10 });
        assert_eq!(s.body.len(), 3);
        assert_eq!(s.ate, None);
    }
}

#[test]
fn reversal_collides_with_body() {
    let mut s = Snake::new();
    s.set_direction(Direction::Left);
    assert_eq!(s.direction, Direction::Left);
    s.update(&far_food());
    assert_eq!(s.ate, Some(Ate::Snake));
    assert_eq!(s.body.len(), 3);
    assert_eq!(s.body[0], (4, 5));
}

#[test]
fn collision_outweighs_food() {
    let mut s = Snake::new();
    s.set_direction(Direction::Left);
    s.update(&Food { x: 4, y: 5 });
    assert_eq!(s.ate, Some(Ate::Snake));
}

#[test]
fn head_onto_tail_cell_collides() {
    // a square loop: the head steps onto the cell the tail still holds
    let mut s = snake_with(vec![(5, 5), (5, 6), (6, 6), (6, 5)], Direction::Right);
    s.update(&far_food());
    assert_eq!(s.ate, Some(Ate::Snake));
}

#[test]
fn new_snake_and_food() {
    let s = Snake::new();
    assert_eq!(s.body, vec![(5, 5), (4, 5), (3, 5)]);
    assert_eq!(s.direction, Direction::Right);
    assert_eq!(s.ate, None);
    for _ in 0..100 {
        let f = Food::new();
        assert!(0 <= f.x && f.x < GRID_WIDTH);
        assert!(0 <= f.y && f.y < GRID_HEIGHT);
    }
}

#[test]
fn game_resets_after_collision() {
    let mut g = GameState::new();
    g.food = Food { x: 0, y: 0 };
    g.snake.set_direction(Direction::Left);
    g.update();
    assert_eq!(g.snake.body, vec![(5, 5), (4, 5), (3, 5)]);
    assert_eq!(g.snake.direction, Direction::Right);
    assert_eq!(g.snake.ate, None);
}

#[test]
fn game_eats_and_grows() {
    let mut g = GameState::new();
    g.food = Food { x: 6, y: 5 };
    g.update();
    assert_eq!(g.snake.ate, Some(Ate::Food));
    assert_eq!(g.snake.body, vec![(6, 5), (5, 5), (4, 5), (3, 5)]);
    assert!(0 <= g.food.x && g.food.x < GRID_WIDTH);
    assert!(0 <= g.food.y && g.food.y < GRID_HEIGHT);
}

#[test]
fn game_plain_tick_keeps_food() {
    let mut g = GameState::new();
    g.food = Food { x: 0, y: 0 };
    g.update();
    assert_eq!(g.snake.body, vec![(6, 5), (5, 5), (4, 5)]);
    assert_eq!(g.food, Food { x: 0, y: 0 });
    g.reset();
    assert_eq!(g.snake.body, vec![(5, 5), (4, 5), (3, 5)]);
}

#[test]
fn cell_rect_in_pixels() {
    assert_eq!(cell_rect((0, 0)), (0, 0, 25, 25));
    assert_eq!(cell_rect((3, 19)), (75, 475, 25, 25));
}
