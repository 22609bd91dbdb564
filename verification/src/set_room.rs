//! The multi-step room-configuration dialogue's data: its state machine and
//! the rule for which preset numbers a room may be linked to. The dialogue's
//! transport (prompting, storage) is the caller's concern.

use vstd::prelude::*;

verus! {

/// The smallest preset number a room may be linked to.
pub const MIN_ROOM_PRESET: i64 = 1;

/// The largest preset number a room may be linked to.
pub const MAX_ROOM_PRESET: i64 = 500;

/// Where the room-configuration dialogue stands.
#[derive(Clone)]
pub enum State {
    /// No configuration in progress.
    Inactive,
    /// Waiting for the new room's name.
    ReceiveRoomName,
    /// Waiting for the preset number to link `name` to.
    ReceivePresetNumber { name: String },
}

impl Default for State {
    fn default() -> (s: State)
        ensures
            s is Inactive,
    {
        State::Inactive
    }
}

/// Whether `preset` may be linked to a room: the callers of the preset
/// switch constrain presets to one through five hundred.
pub fn room_preset_in_range(preset: i64) -> (r: bool)
    ensures
        r == (MIN_ROOM_PRESET <= preset <= MAX_ROOM_PRESET),
{
    MIN_ROOM_PRESET <= preset && preset <= MAX_ROOM_PRESET
}

} // verus!
