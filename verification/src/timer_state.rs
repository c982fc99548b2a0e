//! Mapping from host state codes to timer states.
//!
//! The host reports the state of its timing device as an integer code.
//! The engine branches on a four-way state, so the mapping has to be
//! exact: 1, 2 and 3 name the running, paused and ended states, and
//! every other code — zero, negative, or large — means not running.

use vstd::prelude::*;

verus! {

/// The state of the host's timing device.
#[derive(Clone, Copy, PartialEq, Eq, Structural, Debug)]
pub enum TimerState {
    /// The timer is not running; also the reading of any unknown code.
    NotRunning,
    /// The timer is running.
    Running,
    /// The timer started but is paused.
    Paused,
    /// The timer has ended but was not reset yet.
    Ended,
}

/// The timer state a host code stands for.
pub open spec fn state_of_code(code: i32) -> TimerState {
    if code == 1 {
        TimerState::Running
    } else if code == 2 {
        TimerState::Paused
    } else if code == 3 {
        TimerState::Ended
    } else {
        TimerState::NotRunning
    }
}

/// Reads a host-returned state code. Total over every code: the three
/// named codes map to their states, everything else to not running.
pub fn state_from_code(code: i32) -> (r: TimerState)
    ensures
        r == state_of_code(code),
{
    match code {
        1 => TimerState::Running,
        2 => TimerState::Paused,
        3 => TimerState::Ended,
        _ => TimerState::NotRunning,
    }
}

} // verus!
