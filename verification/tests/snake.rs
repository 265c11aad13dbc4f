use snake_core::grid::{Direction, Position};
use snake_core::snake::SnakeState;

fn p(x: i32, y: i32) -> Position {
    Position { x, y }
}

#[test]
fn step_moves_head_and_shifts_body() {
    let mut s = SnakeState::new(vec![p(3, 3), p(3, 2), p(3, 1)], Direction::Up);
    let (new_head, vacated) = s.step(Direction::Up);
    assert_eq!(new_head, p(3, 4));
    assert_eq!(vacated, p(3, 1));
    assert_eq!(s.segments, vec![p(3, 4), p(3, 3), p(3, 2)]);
    assert_eq!(s.heading, Direction::Up);
}

#[test]
fn step_never_changes_length() {
    let mut s = SnakeState::new(vec![p(5, 5), p(5, 4), p(4, 4), p(4, 3)], Direction::Left);
    let before = s.segments.len();
    s.step(Direction::Left);
    assert_eq!(s.segments.len(), before);
    s.step(Direction::Down);
    assert_eq!(s.segments.len(), before);
}

#[test]
fn step_adopts_the_given_heading() {
    let mut s = SnakeState::new(vec![p(5, 5), p(5, 4)], Direction::Up);
    s.step(Direction::Right);
    assert_eq!(s.heading, Direction::Right);
    assert_eq!(s.segments, vec![p(6, 5), p(5, 5)]);
}

#[test]
fn step_on_single_segment_snake() {
    let mut s = SnakeState::new(vec![p(0, 0)], Direction::Right);
    let (new_head, vacated) = s.step(Direction::Right);
    assert_eq!(new_head, p(1, 0));
    assert_eq!(vacated, p(0, 0));
    assert_eq!(s.segments, vec![p(1, 0)]);
}

#[test]
fn grow_appends_exactly_one_segment_at_vacated_tail() {
    let mut s = SnakeState::new(vec![p(3, 3), p(3, 2)], Direction::Up);
    let (_, vacated) = s.step(Direction::Up);
    let before = s.segments.len();
    s.grow(vacated);
    assert_eq!(s.segments.len(), before + 1);
    assert_eq!(*s.segments.last().unwrap(), vacated);
    assert_eq!(s.segments, vec![p(3, 4), p(3, 3), p(3, 2)]);
}

#[test]
fn head_returns_first_segment() {
    let s = SnakeState::new(vec![p(7, 1), p(6, 1)], Direction::Right);
    assert_eq!(s.head(), p(7, 1));
}
