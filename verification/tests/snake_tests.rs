use snake_core::boundary::{BoundaryPolicy, CollisionKind};
use snake_core::geometry::{Direction, Position};
use snake_core::snake::{SelfCollisionRule, Snake};

fn cells(points: &[(i32, i32)]) -> Vec<Position> {
    points.iter().map(|&(x, y)| Position::new(x, y)).collect()
}

#[test]
fn new_keeps_body_and_direction() {
    let snake = Snake::new(&cells(&[(12, 10), (11, 10), (10, 10)]), Direction::Right);
    assert_eq!(snake.head(), Position::new(12, 10));
    assert_eq!(snake.len(), 3);
    assert_eq!(snake.body(), cells(&[(12, 10), (11, 10), (10, 10)]));
    assert_eq!(snake.direction(), Direction::Right);
    assert_eq!(snake.rule(), SelfCollisionRule::always());
}

#[test]
fn with_rule_keeps_the_rule() {
    let rule = SelfCollisionRule::new(true, 101);
    let snake = Snake::with_rule(&cells(&[(10, 10)]), Direction::Up, rule);
    assert_eq!(snake.rule(), rule);
    assert_eq!(snake.direction(), Direction::Up);
    assert_eq!(snake.body(), cells(&[(10, 10)]));
}

#[test]
fn rule_thresholds() {
    assert!(SelfCollisionRule::always().applies_to(0));
    assert!(SelfCollisionRule::always().applies_to(usize::MAX));
    assert!(!SelfCollisionRule::never().applies_to(0));
    assert!(!SelfCollisionRule::never().applies_to(1000));
    let rule = SelfCollisionRule::new(true, 4);
    assert!(!rule.applies_to(3));
    assert!(rule.applies_to(4));
    assert!(rule.applies_to(5));
    assert!(!SelfCollisionRule::new(false, 4).applies_to(5));
}

#[test]
fn occupies_finds_every_segment() {
    let snake = Snake::new(&cells(&[(3, 1), (2, 1), (1, 1)]), Direction::Right);
    assert!(snake.occupies(Position::new(3, 1)));
    assert!(snake.occupies(Position::new(2, 1)));
    assert!(snake.occupies(Position::new(1, 1)));
    assert!(!snake.occupies(Position::new(0, 1)));
    assert!(!snake.occupies(Position::new(1, 3)));
}

#[test]
fn change_direction_ignores_half_turn() {
    let mut snake = Snake::new(&cells(&[(2, 2)]), Direction::Right);
    snake.change_direction(Direction::Left);
    assert_eq!(snake.direction(), Direction::Right);
    snake.change_direction(Direction::Up);
    assert_eq!(snake.direction(), Direction::Up);
    snake.change_direction(Direction::Down);
    assert_eq!(snake.direction(), Direction::Up);
    snake.change_direction(Direction::Left);
    assert_eq!(snake.direction(), Direction::Left);
    snake.change_direction(Direction::Right);
    assert_eq!(snake.direction(), Direction::Left);
    assert_eq!(snake.body(), cells(&[(2, 2)]));
}

#[test]
fn change_direction_repeated_has_no_further_effect() {
    let all = [Direction::Up, Direction::Down, Direction::Left, Direction::Right];
    for start in all {
        for requested in all {
            let mut snake = Snake::new(&cells(&[(2, 2), (2, 3)]), start);
            snake.change_direction(requested);
            let once = snake.direction();
            snake.change_direction(requested);
            snake.change_direction(requested);
            assert_eq!(snake.direction(), once);
            assert_ne!(once, start.opposite());
        }
    }
}

#[test]
fn advance_without_growth_keeps_length() {
    let mut snake = Snake::new(&cells(&[(12, 10), (11, 10), (10, 10)]), Direction::Right);
    let walls = BoundaryPolicy::Walled { size: 20 };
    assert_eq!(snake.advance(false, walls), Ok(()));
    assert_eq!(snake.body(), cells(&[(13, 10), (12, 10), (11, 10)]));
    assert_eq!(snake.len(), 3);
    snake.change_direction(Direction::Down);
    assert_eq!(snake.advance(false, walls), Ok(()));
    assert_eq!(snake.body(), cells(&[(13, 11), (13, 10), (12, 10)]));
}

#[test]
fn advance_with_growth_adds_one_segment() {
    let mut snake = Snake::new(&cells(&[(12, 10), (11, 10), (10, 10)]), Direction::Right);
    let walls = BoundaryPolicy::Walled { size: 20 };
    assert_eq!(snake.advance(true, walls), Ok(()));
    assert_eq!(snake.body(), cells(&[(13, 10), (12, 10), (11, 10), (10, 10)]));
    assert_eq!(snake.len(), 4);
}

#[test]
fn head_follows_direction_under_both_policies() {
    let all = [Direction::Up, Direction::Down, Direction::Left, Direction::Right];
    let expected = [(2, 1), (2, 3), (1, 2), (3, 2)];
    for policy in [BoundaryPolicy::Walled { size: 5 }, BoundaryPolicy::Toroidal { modulus: 5 }] {
        for (d, e) in all.iter().zip(expected.iter()) {
            let mut snake = Snake::new(&cells(&[(2, 2)]), *d);
            assert_eq!(snake.advance(false, policy), Ok(()));
            assert_eq!(snake.head(), Position::new(e.0, e.1));
            assert_eq!(snake.len(), 1);
        }
    }
}

#[test]
fn walled_edge_is_a_wall_collision() {
    let mut snake = Snake::new(&cells(&[(4, 2)]), Direction::Right);
    let result = snake.advance(false, BoundaryPolicy::Walled { size: 5 });
    assert_eq!(result, Err(CollisionKind::WallCollision));
    assert_eq!(snake.body(), cells(&[(4, 2)]));
    assert_eq!(snake.direction(), Direction::Right);
}

#[test]
fn wall_collision_leaves_a_growing_snake_untouched() {
    let mut snake = Snake::new(&cells(&[(0, 0), (1, 0)]), Direction::Left);
    let result = snake.advance(true, BoundaryPolicy::Walled { size: 5 });
    assert_eq!(result, Err(CollisionKind::WallCollision));
    assert_eq!(snake.body(), cells(&[(0, 0), (1, 0)]));
}

#[test]
fn toroidal_edge_wraps() {
    let mut snake = Snake::new(&cells(&[(4, 2)]), Direction::Right);
    let result = snake.advance(false, BoundaryPolicy::Toroidal { modulus: 5 });
    assert_eq!(result, Ok(()));
    assert_eq!(snake.head(), Position::new(0, 2));
    assert_eq!(snake.body(), cells(&[(0, 2)]));
}

#[test]
fn toroidal_modulus_one_above_the_grid() {
    let mut snake = Snake::new(&cells(&[(25, 10), (24, 10)]), Direction::Right);
    let torus = BoundaryPolicy::Toroidal { modulus: 26 };
    assert_eq!(snake.advance(false, torus), Ok(()));
    assert_eq!(snake.body(), cells(&[(0, 10), (25, 10)]));
    snake.change_direction(Direction::Up);
    for _ in 0..11 {
        assert_eq!(snake.advance(false, torus), Ok(()));
    }
    assert_eq!(snake.head(), Position::new(0, 25));
}

#[test]
fn loop_of_five_is_a_self_collision() {
    let body = cells(&[(1, 1), (2, 1), (2, 0), (1, 0), (0, 0)]);
    let rule = SelfCollisionRule::new(true, 4);
    let mut snake = Snake::with_rule(&body, Direction::Up, rule);
    let result = snake.advance(false, BoundaryPolicy::Walled { size: 5 });
    assert_eq!(result, Err(CollisionKind::SelfCollision));
    assert_eq!(snake.body(), cells(&[(1, 0), (1, 1), (2, 1), (2, 0), (1, 0)]));
}

#[test]
fn self_collision_below_threshold_is_ignored() {
    let body = cells(&[(1, 1), (2, 1), (2, 0), (1, 0), (0, 0)]);
    let mut snake = Snake::with_rule(&body, Direction::Up, SelfCollisionRule::new(true, 6));
    assert_eq!(snake.advance(false, BoundaryPolicy::Walled { size: 5 }), Ok(()));
    assert_eq!(snake.body(), cells(&[(1, 0), (1, 1), (2, 1), (2, 0), (1, 0)]));
    let mut growing = Snake::with_rule(&body, Direction::Up, SelfCollisionRule::new(true, 6));
    assert_eq!(
        growing.advance(true, BoundaryPolicy::Walled { size: 5 }),
        Err(CollisionKind::SelfCollision)
    );
    assert_eq!(growing.len(), 6);
}

#[test]
fn self_collision_disabled_is_ignored() {
    let body = cells(&[(1, 1), (2, 1), (2, 0), (1, 0), (0, 0)]);
    let mut snake = Snake::with_rule(&body, Direction::Up, SelfCollisionRule::never());
    assert_eq!(snake.advance(false, BoundaryPolicy::Toroidal { modulus: 5 }), Ok(()));
    assert_eq!(snake.head(), Position::new(1, 0));
}

#[test]
fn moving_onto_the_leaving_tail_is_no_collision() {
    let body = cells(&[(0, 1), (1, 1), (1, 0), (0, 0)]);
    let mut snake = Snake::new(&body, Direction::Up);
    assert_eq!(snake.advance(false, BoundaryPolicy::Walled { size: 5 }), Ok(()));
    assert_eq!(snake.body(), cells(&[(0, 0), (0, 1), (1, 1), (1, 0)]));
    let mut growing = Snake::new(&body, Direction::Up);
    assert_eq!(
        growing.advance(true, BoundaryPolicy::Walled { size: 5 }),
        Err(CollisionKind::SelfCollision)
    );
    assert_eq!(growing.body(), cells(&[(0, 0), (0, 1), (1, 1), (1, 0), (0, 0)]));
}

#[test]
fn single_segment_never_hits_itself() {
    let mut snake = Snake::new(&cells(&[(0, 0)]), Direction::Right);
    let torus = BoundaryPolicy::Toroidal { modulus: 1 };
    assert_eq!(snake.advance(false, torus), Ok(()));
    assert_eq!(snake.body(), cells(&[(0, 0)]));
    assert_eq!(snake.advance(true, torus), Err(CollisionKind::SelfCollision));
    assert_eq!(snake.body(), cells(&[(0, 0), (0, 0)]));
}
