//! The data carried by an inline-keyboard callback: which action the pressed
//! button asks for. Serializing it for the chat transport and looking it up
//! by button index are the caller's concern.

use vstd::prelude::*;

verus! {

/// The action a pressed inline-keyboard button asks for.
#[derive(Clone)]
pub enum CallbackType {
    /// Stop the playback identified by `id`.
    StopAudio { id: String },
    /// Play the stored audio file in the named room.
    PlayAudio { room_name: String, voice_file_id: String },
    /// Delete the named room.
    RoomDel { name: String },
}

} // verus!
