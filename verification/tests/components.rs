//! Tests for the small components: directions, coordinates, the input
//! buffer, the wall map and the tick clock.

use train_core::grid::Direction;
use train_core::grid::GridCoords;
use train_core::level::LevelWalls;
use train_core::player::InputBuffer;
use train_core::timer::ConfigError;
use train_core::timer::GameTickTimer;

#[test]
fn opposite_is_involutive() {
    let all = [Direction::North, Direction::South, Direction::East, Direction::West];
    for d in all {
        assert_eq!(d.get_opposite().get_opposite(), d);
    }
}

#[test]
fn opposite_pairs() {
    assert_eq!(Direction::North.get_opposite(), Direction::South);
    assert_eq!(Direction::South.get_opposite(), Direction::North);
    assert_eq!(Direction::East.get_opposite(), Direction::West);
    assert_eq!(Direction::West.get_opposite(), Direction::East);
}

#[test]
fn unit_vectors() {
    assert_eq!(Direction::North.calculate_vector(), GridCoords::new(0, 1));
    assert_eq!(Direction::South.calculate_vector(), GridCoords::new(0, -1));
    assert_eq!(Direction::East.calculate_vector(), GridCoords::new(1, 0));
    assert_eq!(Direction::West.calculate_vector(), GridCoords::new(-1, 0));
}

#[test]
fn step_moves_one_cell() {
    let c = GridCoords::new(4, 7);
    assert_eq!(c.step(Direction::North), GridCoords::new(4, 8));
    assert_eq!(c.step(Direction::South), GridCoords::new(4, 6));
    assert_eq!(c.step(Direction::East), GridCoords::new(5, 7));
    assert_eq!(c.step(Direction::West), GridCoords::new(3, 7));
}

#[test]
fn buffer_keeps_fifo_order() {
    let mut b = InputBuffer::new();
    b.push(Direction::North);
    b.push(Direction::East);
    assert_eq!(b.len(), 2);
    assert_eq!(b.pop_front(), Some(Direction::North));
    assert_eq!(b.pop_front(), Some(Direction::East));
    assert_eq!(b.pop_front(), None);
}

#[test]
fn buffer_ignores_duplicate_press() {
    let mut b = InputBuffer::new();
    b.push(Direction::North);
    b.push(Direction::North);
    assert_eq!(b.len(), 1);
    assert_eq!(b.pop_front(), Some(Direction::North));
}

#[test]
fn buffer_ignores_duplicate_press_when_full() {
    // The duplicate suppression applies even at capacity: nothing is
    // evicted for a press equal to the most recent entry.
    let mut b = InputBuffer::new();
    b.push(Direction::North);
    b.push(Direction::East);
    b.push(Direction::East);
    assert_eq!(b.len(), 2);
    assert_eq!(b.pop_front(), Some(Direction::North));
    assert_eq!(b.pop_front(), Some(Direction::East));
}

#[test]
fn buffer_overflow_evicts_oldest() {
    // Pushing North, South, East at capacity two leaves exactly [South, East].
    let mut b = InputBuffer::new();
    b.push(Direction::North);
    b.push(Direction::South);
    b.push(Direction::East);
    assert_eq!(b.len(), 2);
    assert_eq!(b.pop_front(), Some(Direction::South));
    assert_eq!(b.pop_front(), Some(Direction::East));
    assert_eq!(b.pop_front(), None);
}

#[test]
fn buffer_peek_second() {
    let mut b = InputBuffer::new();
    assert_eq!(b.peek_second(), None);
    b.push(Direction::North);
    assert_eq!(b.peek_second(), None);
    b.push(Direction::East);
    assert_eq!(b.peek_second(), Some(Direction::East));
    assert_eq!(b.len(), 2);
}

#[test]
fn buffer_push_front_reinserts_at_head() {
    let mut b = InputBuffer::new();
    b.push(Direction::East);
    let popped = b.pop_front().unwrap();
    b.push_front(popped);
    assert_eq!(b.pop_front(), Some(Direction::East));
}

#[test]
fn walls_membership() {
    let mut walls = LevelWalls::new();
    assert!(!walls.in_wall(&GridCoords::new(2, 3)));
    walls.insert(GridCoords::new(2, 3));
    assert!(walls.in_wall(&GridCoords::new(2, 3)));
    assert!(!walls.in_wall(&GridCoords::new(3, 2)));
}

#[test]
fn timer_rejects_zero_interval() {
    assert_eq!(GameTickTimer::new(0), Err(ConfigError::ZeroTickInterval));
}

#[test]
fn timer_fires_on_interval_and_keeps_fraction() {
    let mut t = GameTickTimer::new(10).unwrap();
    assert!(!t.just_fired());
    t.advance(4);
    assert!(!t.just_fired());
    t.advance(6);
    assert!(t.just_fired());
    t.advance(25);
    assert!(t.just_fired());
    t.advance(4);
    assert!(!t.just_fired());
    t.advance(1);
    assert!(t.just_fired());
}
