//! The agent and its per-tick movement resolution.
//!
//! Between ticks, directional presses accumulate in a small bounded queue.
//! Once per tick the resolver pops the oldest press (or continues straight),
//! rejects 180-degree reversals, and reconciles the wanted direction against
//! the wall map, falling back to hugging the wall (while re-queueing the
//! deferred turn) and then to the second buffered press before stalling.

use vstd::prelude::*;

use crate::grid::Direction;
use crate::grid::GridCoords;
use crate::level::LevelWalls;

verus! {

/// How many directional presses can be pending at once.
pub const INPUT_BUFFER_CAPACITY: usize = 2;

/// A bounded FIFO of pending directional presses, oldest first.
#[derive(Clone, PartialEq, Eq, Debug)]
pub struct InputBuffer {
    entries: Vec<Direction>,
}

/// The contents of a buffer after pushing `d` onto `q`: a push equal to the
/// most recent entry is ignored, and when the buffer is full the oldest
/// entry is evicted to make room.
pub open spec fn spec_buffer_push(q: Seq<Direction>, d: Direction) -> Seq<Direction> {
    if q.len() > 0 && q.last() == d {
        q
    } else if q.len() >= INPUT_BUFFER_CAPACITY {
        q.drop_first().push(d)
    } else {
        q.push(d)
    }
}

impl View for InputBuffer {
    type V = Seq<Direction>;

    closed spec fn view(&self) -> Seq<Direction> {
        self.entries@
    }
}

impl InputBuffer {
    /// The buffer never holds more than its capacity.
    pub open spec fn wf(&self) -> bool {
        self@.len() <= INPUT_BUFFER_CAPACITY
    }

    pub fn new() -> (r: InputBuffer)
        ensures
            r@ == Seq::<Direction>::empty(),
            r.wf(),
    {
        InputBuffer { entries: Vec::new() }
    }

    pub fn len(&self) -> (r: usize)
        ensures
            r == self@.len(),
    {
        self.entries.len()
    }

    /// Appends a press, ignoring a duplicate of the most recent one and
    /// evicting the oldest entry when full.
    pub fn push(&mut self, direction: Direction)
        requires
            old(self).wf(),
        ensures
            final(self).wf(),
            final(self)@ == spec_buffer_push(old(self)@, direction),
    {
        if self.entries.len() > 0 {
            let last = self.entries[self.entries.len() - 1];
            if last == direction {
                return;
            }
        }
        if self.entries.len() >= INPUT_BUFFER_CAPACITY {
            self.entries.remove(0);
        }
        self.entries.push(direction);
    }

    /// Removes and returns the oldest pending press, if any.
    pub fn pop_front(&mut self) -> (r: Option<Direction>)
        ensures
            old(self)@.len() == 0 ==> r is None && final(self)@ == old(self)@,
            old(self)@.len() > 0 ==> r == Some(old(self)@[0]) && final(self)@ == old(
                self,
            )@.drop_first(),
            old(self).wf() ==> final(self).wf(),
    {
        if self.entries.len() == 0 {
            None
        } else {
            let d = self.entries.remove(0);
            proof {
                assert(self.entries@ =~= old(self).entries@.drop_first());
            }
            Some(d)
        }
    }

    /// Returns the second-oldest pending press without removing it; the
    /// resolver consults it when both the primary and the straight-ahead
    /// cells are blocked.
    pub fn peek_second(&self) -> (r: Option<Direction>)
        ensures
            self@.len() >= 2 ==> r == Some(self@[1]),
            self@.len() < 2 ==> r is None,
    {
        if self.entries.len() >= 2 {
            Some(self.entries[1])
        } else {
            None
        }
    }

    /// Re-inserts a press at the head of the queue, so that a turn deferred
    /// by a wall hug is retried next tick.
    pub fn push_front(&mut self, direction: Direction)
        requires
            old(self)@.len() < INPUT_BUFFER_CAPACITY,
        ensures
            final(self).wf(),
            final(self)@ == seq![direction] + old(self)@,
    {
        self.entries.insert(0, direction);
        proof {
            assert(self.entries@ =~= seq![direction] + old(self).entries@);
        }
    }
}

/// The movement-relevant state of the agent, as plain mathematical values:
/// where it is, which way it faces, which way it faced before, and the
/// pending presses oldest first.
#[verifier::ext_equal]
pub struct ResolverState {
    pub position: GridCoords,
    pub direction: Direction,
    pub previous_direction: Direction,
    pub inputs: Seq<Direction>,
}

/// One tick of the movement state machine, given the set of blocked cells.
///
/// The oldest buffered press (or, with an empty buffer, the current facing)
/// becomes the candidate; a 180-degree reversal is never honoured and decays
/// to continuing straight. If the candidate's cell is free the agent moves
/// there and adopts the candidate as its facing. Otherwise, if the cell
/// straight ahead is free, the agent hugs the wall: it keeps its facing,
/// moves straight, and re-queues the candidate at the head of the buffer.
/// Otherwise the second buffered press is consulted and consumed if it is
/// not a reversal and its cell is free. When all of that fails the agent
/// stalls and the popped candidate is simply dropped.
///
/// On every actual move, `previous_direction` becomes the direction the
/// agent faced when the tick began.
pub open spec fn spec_move(pre: ResolverState, walls: Set<GridCoords>) -> ResolverState {
    let raw = if pre.inputs.len() > 0 {
        pre.inputs[0]
    } else {
        pre.direction
    };
    let remaining = if pre.inputs.len() > 0 {
        pre.inputs.drop_first()
    } else {
        pre.inputs
    };
    let candidate = if raw == pre.direction.spec_opposite() {
        pre.direction
    } else {
        raw
    };
    let primary_dest = pre.position.stepped(candidate);
    let hug_dest = pre.position.stepped(pre.direction);
    if !walls.contains(primary_dest) {
        ResolverState {
            position: primary_dest,
            direction: candidate,
            previous_direction: pre.direction,
            inputs: remaining,
        }
    } else if !walls.contains(hug_dest) {
        ResolverState {
            position: hug_dest,
            direction: pre.direction,
            previous_direction: pre.direction,
            inputs: seq![candidate] + remaining,
        }
    } else if remaining.len() > 0 && remaining[0] != pre.direction.spec_opposite()
        && !walls.contains(pre.position.stepped(remaining[0])) {
        ResolverState {
            position: pre.position.stepped(remaining[0]),
            direction: remaining[0],
            previous_direction: pre.direction,
            inputs: remaining.drop_first(),
        }
    } else {
        ResolverState {
            position: pre.position,
            direction: pre.direction,
            previous_direction: pre.previous_direction,
            inputs: remaining,
        }
    }
}

/// The moving agent: its grid cell, facing, the facing it had before its
/// most recent turn, and the pending directional presses.
#[derive(Clone, PartialEq, Eq, Debug)]
pub struct Player {
    pub position: GridCoords,
    pub direction: Direction,
    pub previous_direction: Direction,
    pub direction_inputs: InputBuffer,
}

impl Player {
    /// This agent's state as plain mathematical values.
    pub open spec fn abs(self) -> ResolverState {
        ResolverState {
            position: self.position,
            direction: self.direction,
            previous_direction: self.previous_direction,
            inputs: self.direction_inputs@,
        }
    }

    /// An agent at `spawn` facing `facing`, with nothing buffered.
    pub fn new(spawn: GridCoords, facing: Direction) -> (r: Player)
        ensures
            r.position == spawn,
            r.direction == facing,
            r.previous_direction == facing,
            r.direction_inputs@ == Seq::<Direction>::empty(),
            r.direction_inputs.wf(),
    {
        Player {
            position: spawn,
            direction: facing,
            previous_direction: facing,
            direction_inputs: InputBuffer::new(),
        }
    }

    /// Records one directional press from the input boundary.
    pub fn handle_keypress(&mut self, pressed: Direction)
        requires
            old(self).direction_inputs.wf(),
        ensures
            final(self).direction_inputs.wf(),
            final(self).direction_inputs@ == spec_buffer_push(
                old(self).direction_inputs@,
                pressed,
            ),
            final(self).position == old(self).position,
            final(self).direction == old(self).direction,
            final(self).previous_direction == old(self).previous_direction,
    {
        self.direction_inputs.push(pressed);
    }

    /// Executes one tick of the movement state machine against the walls.
    pub fn move_player(&mut self, level_walls: &LevelWalls)
        requires
            old(self).position.in_interior(),
            old(self).direction_inputs.wf(),
        ensures
            final(self).abs() == spec_move(old(self).abs(), level_walls@),
            final(self).direction_inputs.wf(),
    {
        let ghost pre = self.abs();
        let ghost post = spec_move(pre, level_walls@);
        let current_direction = self.direction;
        let secondary = self.direction_inputs.peek_second();
        let popped = self.direction_inputs.pop_front();
        let mut first_action = match popped {
            Some(d) => d,
            None => current_direction,
        };
        if first_action == current_direction.get_opposite() {
            first_action = current_direction;
        }
        let destination = self.position.step(first_action);
        let wall_hug_destination = self.position.step(current_direction);

        if !level_walls.in_wall(&destination) {
            self.position = destination;
            self.previous_direction = current_direction;
            self.direction = first_action;
            proof {
                assert(self.abs() =~= post);
            }
            return;
        }
        if !level_walls.in_wall(&wall_hug_destination) {
            self.direction_inputs.push_front(first_action);
            self.position = wall_hug_destination;
            self.previous_direction = current_direction;
            proof {
                assert(self.abs() =~= post);
            }
            return;
        }
        if let Some(second_action) = secondary {
            if second_action != current_direction.get_opposite() {
                let second_destination = self.position.step(second_action);
                if !level_walls.in_wall(&second_destination) {
                    let _ = self.direction_inputs.pop_front();
                    self.position = second_destination;
                    self.previous_direction = current_direction;
                    self.direction = second_action;
                    proof {
                        assert(self.abs() =~= post);
                    }
                    return;
                }
            }
        }
        proof {
            assert(self.abs() =~= post);
        }
    }
}

} // verus!

