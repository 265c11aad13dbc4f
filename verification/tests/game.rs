use snake_core::game::{check_eating, GameSession};
use snake_core::grid::{Direction, Position};

fn p(x: i32, y: i32) -> Position {
    Position { x, y }
}

#[test]
fn new_session_has_fixed_start() {
    let s = GameSession::new();
    assert_eq!(s.len(), 2);
    assert_eq!(s.segment_positions(), vec![p(3, 3), p(3, 2)]);
    assert_eq!(s.heading(), Direction::Up);
    assert_eq!(s.food(), None);
    assert_eq!(s.last_tail(), None);
}

#[test]
fn check_eating_is_exact_equality() {
    assert!(check_eating(p(3, 4), p(3, 4)));
    assert!(!check_eating(p(3, 4), p(3, 5)));
    assert!(!check_eating(p(3, 4), p(4, 4)));
}

#[test]
fn place_food_sets_the_cell() {
    let mut s = GameSession::new();
    s.place_food(p(7, 2));
    assert_eq!(s.food(), Some(p(7, 2)));
    assert_eq!(s.len(), 2);
}

#[test]
fn plain_tick_moves_without_growth() {
    let mut s = GameSession::new();
    let ev = s.advance(None);
    assert!(!ev.game_over);
    assert!(!ev.growth);
    assert_eq!(s.segment_positions(), vec![p(3, 4), p(3, 3)]);
    assert_eq!(s.len(), 2);
    assert_eq!(s.last_tail(), Some(p(3, 2)));
}

#[test]
fn reversal_input_is_rejected_in_tick() {
    let mut s = GameSession::new();
    let ev = s.advance(Some(Direction::Down));
    assert!(!ev.game_over);
    assert_eq!(s.heading(), Direction::Up);
    assert_eq!(s.segment_positions(), vec![p(3, 4), p(3, 3)]);
}

#[test]
fn eating_grows_at_the_tail_vacated_this_tick() {
    let mut s = GameSession::new();
    s.place_food(p(3, 4));
    let ev = s.advance(None);
    assert!(!ev.game_over);
    assert!(ev.growth);
    // the appended segment sits exactly where the tail stood before the step
    assert_eq!(s.segment_positions(), vec![p(3, 4), p(3, 3), p(3, 2)]);
    assert_eq!(s.len(), 3);
    assert_eq!(s.food(), None);
    assert_eq!(s.last_tail(), Some(p(3, 2)));
}

#[test]
fn food_is_checked_against_the_new_head_same_tick() {
    // a standard two-tick run: food is never where the head arrives,
    // so nothing is eaten and the body only moves
    let mut s = GameSession::new();
    s.place_food(p(3, 3));
    let ev1 = s.advance(None);
    assert!(!ev1.growth);
    assert_eq!(s.segment_positions(), vec![p(3, 4), p(3, 3)]);
    // food placed at (3,4) before the second tick; the head moves past it
    s.place_food(p(3, 4));
    let ev2 = s.advance(None);
    assert!(!ev2.growth);
    assert_eq!(s.segment_positions(), vec![p(3, 5), p(3, 4)]);
    assert_eq!(s.food(), Some(p(3, 4)));
}

#[test]
fn wall_collision_ends_and_resets_the_game() {
    let mut s = GameSession::new();
    // heading up from (3,3): six open cells, the seventh tick hits y == 10
    for _ in 0..6 {
        let ev = s.advance(None);
        assert!(!ev.game_over);
    }
    assert_eq!(s.segment_positions(), vec![p(3, 9), p(3, 8)]);
    let ev = s.advance(None);
    assert!(ev.game_over);
    assert!(!ev.growth);
    assert_eq!(s.len(), 2);
    assert_eq!(s.segment_positions(), vec![p(3, 3), p(3, 2)]);
    assert_eq!(s.heading(), Direction::Up);
    assert_eq!(s.food(), None);
    assert_eq!(s.last_tail(), None);
}

#[test]
fn self_collision_resets_whatever_the_length() {
    let mut s = GameSession::new();
    // eat three times to reach length five
    for y in 4..=6 {
        s.place_food(p(3, y));
        let ev = s.advance(None);
        assert!(ev.growth);
    }
    assert_eq!(
        s.segment_positions(),
        vec![p(3, 6), p(3, 5), p(3, 4), p(3, 3), p(3, 2)]
    );
    // circle back into the body
    let ev = s.advance(Some(Direction::Right));
    assert!(!ev.game_over);
    let ev = s.advance(Some(Direction::Down));
    assert!(!ev.game_over);
    let ev = s.advance(Some(Direction::Left));
    assert!(ev.game_over);
    // reset to the fixed length-two start, though the snake had length five
    assert_eq!(s.len(), 2);
    assert_eq!(s.segment_positions(), vec![p(3, 3), p(3, 2)]);
    assert_eq!(s.heading(), Direction::Up);
}

#[test]
fn food_under_the_body_is_not_eaten_until_the_head_arrives() {
    // food may be placed on a snake-occupied cell; only the head eats it
    let mut s = GameSession::new();
    s.place_food(p(3, 2));
    let ev = s.advance(None);
    assert!(!ev.growth);
    assert_eq!(s.food(), Some(p(3, 2)));
}
