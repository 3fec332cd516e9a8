use vstd::prelude::*;

verus! {

/// What a moving sprite does on one frame.
#[derive(Clone, Copy, Debug, PartialEq, Eq, Structural)]
pub enum MoveAction {
    /// Stand at the point of the path that the move timer's progress gives.
    Travel,
    /// Stand at the end point of the path, which the move has just reached, and
    /// pause the move timer.
    Arrive,
    /// Stay where it is and keep the move timer paused.
    Hold,
    /// Rewind the move timer to the start of the path and let it run again.
    Restart,
}

/// Whether the pause timer runs on this frame: while the move timer is paused,
/// that is from the frame after the sprite reached its end point until the
/// move restarts.
pub fn delay_runs(move_paused: bool) -> (r: bool)
    ensures
        r == move_paused,
{
    move_paused
}

/// The step of a sprite that travels from its start to its end point, waits a
/// pause, and then travels again. A frame of a move in progress travels; the
/// frame on which the move timer finishes puts the sprite at its end point;
/// while the move timer is paused the sprite holds until the pause timer
/// finishes, and then restarts. `delay_just_finished` is read only on frames
/// where `delay_runs` holds.
pub fn plan_move(move_just_finished: bool, move_paused: bool, delay_just_finished: bool) -> (r:
    MoveAction)
    ensures
        r == MoveAction::Travel <==> !move_just_finished && !move_paused,
        r == MoveAction::Arrive <==> move_just_finished && !move_paused,
        r == MoveAction::Hold <==> move_paused && !delay_just_finished,
        r == MoveAction::Restart <==> move_paused && delay_just_finished,
{
    if !move_paused {
        if move_just_finished {
            MoveAction::Arrive
        } else {
            MoveAction::Travel
        }
    } else if !delay_just_finished {
        MoveAction::Hold
    } else {
        MoveAction::Restart
    }
}

} // verus!
