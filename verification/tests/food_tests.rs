use snake_core::food::{first_free, is_free_cell, place, SAMPLING_BUDGET};
use snake_core::geometry::{Direction, Position};
use snake_core::snake::Snake;

fn cells(points: &[(i32, i32)]) -> Vec<Position> {
    points.iter().map(|&(x, y)| Position::new(x, y)).collect()
}

fn full_grid(size: i32) -> Vec<Position> {
    let mut all = Vec::new();
    for y in 0..size {
        for x in 0..size {
            all.push(Position::new(x, y));
        }
    }
    all
}

#[test]
fn sampling_budget_value() {
    assert_eq!(SAMPLING_BUDGET, 256);
}

#[test]
fn free_cell_is_on_grid_and_off_snake() {
    let snake = Snake::new(&cells(&[(1, 1), (0, 1)]), Direction::Right);
    assert!(is_free_cell(3, &snake, Position::new(0, 0)));
    assert!(is_free_cell(3, &snake, Position::new(2, 2)));
    assert!(!is_free_cell(3, &snake, Position::new(1, 1)));
    assert!(!is_free_cell(3, &snake, Position::new(0, 1)));
    assert!(!is_free_cell(3, &snake, Position::new(3, 0)));
    assert!(!is_free_cell(3, &snake, Position::new(0, -1)));
    assert!(!is_free_cell(0, &snake, Position::new(0, 0)));
}

#[test]
fn first_free_reads_row_by_row() {
    let snake = Snake::new(&cells(&[(0, 0), (1, 0), (2, 0), (0, 1)]), Direction::Right);
    assert_eq!(first_free(3, &snake), Some(Position::new(1, 1)));
    let corner = Snake::new(&cells(&[(1, 1)]), Direction::Right);
    assert_eq!(first_free(3, &corner), Some(Position::new(0, 0)));
}

#[test]
fn first_free_on_full_or_empty_grid() {
    let snake = Snake::new(&full_grid(3), Direction::Right);
    assert_eq!(first_free(3, &snake), None);
    assert_eq!(first_free(0, &snake), None);
    assert_eq!(first_free(-4, &snake), None);
    assert_eq!(first_free(4, &snake), Some(Position::new(3, 0)));
}

#[test]
fn place_never_lands_on_the_snake() {
    let snake = Snake::new(&cells(&[(12, 10), (11, 10), (10, 10)]), Direction::Right);
    for _ in 0..500 {
        let p = place(25, &snake).unwrap();
        assert!(p.is_within(25));
        assert!(!snake.occupies(p));
    }
}

#[test]
fn place_stays_inside_a_single_cell_grid() {
    let snake = Snake::new(&cells(&[(5, 5)]), Direction::Right);
    for _ in 0..50 {
        assert_eq!(place(1, &snake), Some(Position::new(0, 0)));
    }
}

#[test]
fn place_finds_the_last_free_cell() {
    let mut body = full_grid(6);
    let gap = body.remove(23);
    let snake = Snake::new(&body, Direction::Right);
    for _ in 0..20 {
        assert_eq!(place(6, &snake), Some(gap));
    }
}

#[test]
fn place_reports_a_covered_grid() {
    let snake = Snake::new(&full_grid(4), Direction::Right);
    assert_eq!(place(4, &snake), None);
    assert_eq!(place(0, &snake), None);
    assert_eq!(place(-1, &snake), None);
}

#[test]
fn place_reaches_more_than_one_cell() {
    let snake = Snake::new(&cells(&[(0, 0)]), Direction::Right);
    let first = place(20, &snake).unwrap();
    let mut other = false;
    for _ in 0..200 {
        if place(20, &snake).unwrap() != first {
            other = true;
        }
    }
    assert!(other);
}
