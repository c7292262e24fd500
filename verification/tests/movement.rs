//! Tests for the per-tick movement resolver: reversal rejection, the
//! wall-hug fallback with its re-queue, the secondary fallback and the
//! stall case.

use train_core::grid::Direction;
use train_core::grid::GridCoords;
use train_core::level::LevelWalls;
use train_core::player::Player;

#[test]
fn reversal_is_rejected() {
    // Facing North with South buffered: the press is never honoured; with
    // nothing ahead the agent continues straight.
    let walls = LevelWalls::new();
    let mut p = Player::new(GridCoords::new(0, 0), Direction::North);
    p.handle_keypress(Direction::South);
    p.move_player(&walls);
    assert_eq!(p.direction, Direction::North);
    assert_eq!(p.position, GridCoords::new(0, 1));
    assert_eq!(p.direction_inputs.len(), 0);
}

#[test]
fn wall_hug_requeues_the_turn() {
    // At (0,0) facing East with the cell to the North blocked and North
    // buffered: the agent hugs the wall to (1,0), keeps facing East, and
    // North is back at the front of the buffer for the next tick.
    let mut walls = LevelWalls::new();
    walls.insert(GridCoords::new(0, 1));
    let mut p = Player::new(GridCoords::new(0, 0), Direction::East);
    p.handle_keypress(Direction::North);
    p.move_player(&walls);
    assert_eq!(p.position, GridCoords::new(1, 0));
    assert_eq!(p.direction, Direction::East);
    assert_eq!(p.direction_inputs.len(), 1);
    assert_eq!(p.direction_inputs.pop_front(), Some(Direction::North));
}

#[test]
fn requeued_turn_takes_effect_next_tick() {
    // Same start as the wall-hug case, but the wall only covers (0,1): one
    // tick hugs, the next tick finally turns North at (1,0).
    let mut walls = LevelWalls::new();
    walls.insert(GridCoords::new(0, 1));
    let mut p = Player::new(GridCoords::new(0, 0), Direction::East);
    p.handle_keypress(Direction::North);
    p.move_player(&walls);
    assert_eq!(p.position, GridCoords::new(1, 0));
    p.move_player(&walls);
    assert_eq!(p.position, GridCoords::new(1, 1));
    assert_eq!(p.direction, Direction::North);
    assert_eq!(p.previous_direction, Direction::East);
    assert_eq!(p.direction_inputs.len(), 0);
}

#[test]
fn secondary_press_is_used_when_both_ahead_are_blocked() {
    // Facing North at (0,0) with West and North blocked, buffer [West,
    // East]: the primary and the hug both fail, so the second press East is
    // consumed and taken.
    let mut walls = LevelWalls::new();
    walls.insert(GridCoords::new(-1, 0));
    walls.insert(GridCoords::new(0, 1));
    let mut p = Player::new(GridCoords::new(0, 0), Direction::North);
    p.handle_keypress(Direction::West);
    p.handle_keypress(Direction::East);
    p.move_player(&walls);
    assert_eq!(p.position, GridCoords::new(1, 0));
    assert_eq!(p.direction, Direction::East);
    assert_eq!(p.previous_direction, Direction::North);
    assert_eq!(p.direction_inputs.len(), 0);
}

#[test]
fn boxed_in_agent_stalls_and_drops_the_candidate() {
    // Walls on three sides (a reversal is rejected anyway): no movement
    // this tick, facing unchanged, and the popped press is gone.
    let mut walls = LevelWalls::new();
    walls.insert(GridCoords::new(0, 1));
    walls.insert(GridCoords::new(1, 0));
    walls.insert(GridCoords::new(-1, 0));
    let mut p = Player::new(GridCoords::new(0, 0), Direction::North);
    p.handle_keypress(Direction::East);
    p.move_player(&walls);
    assert_eq!(p.position, GridCoords::new(0, 0));
    assert_eq!(p.direction, Direction::North);
    assert_eq!(p.previous_direction, Direction::North);
    assert_eq!(p.direction_inputs.len(), 0);
}

#[test]
fn empty_buffer_continues_straight() {
    let walls = LevelWalls::new();
    let mut p = Player::new(GridCoords::new(3, 3), Direction::West);
    p.move_player(&walls);
    assert_eq!(p.position, GridCoords::new(2, 3));
    assert_eq!(p.direction, Direction::West);
    assert_eq!(p.previous_direction, Direction::West);
}

#[test]
fn secondary_reversal_is_not_taken() {
    // Facing North with North and West blocked, buffer [West, South]: the
    // secondary press is a reversal, so the agent stalls.
    let mut walls = LevelWalls::new();
    walls.insert(GridCoords::new(-1, 0));
    walls.insert(GridCoords::new(0, 1));
    let mut p = Player::new(GridCoords::new(0, 0), Direction::North);
    p.handle_keypress(Direction::West);
    p.handle_keypress(Direction::South);
    p.move_player(&walls);
    assert_eq!(p.position, GridCoords::new(0, 0));
    assert_eq!(p.direction, Direction::North);
    assert_eq!(p.direction_inputs.len(), 1);
}
