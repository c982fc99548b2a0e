//! The verified parts of the timer adapter.
//!
//! The adapter turns the engine's timer-control capability into calls on
//! ten host-supplied callbacks. The dispatch itself lives with the
//! host-facing shell, which owns the raw callback and context pointers;
//! what the adapter computes stands here: the state-code reading lives
//! in [`crate::timer_state`], the game-time conversion in
//! [`crate::time_convert`], and the framing of a log message below.
//!
//! A log message crosses the boundary as its UTF-8 bytes followed by one
//! zero byte, in a transient buffer of its own — never the shared output
//! buffer, which an unrelated query may be using while the engine runs.

use vstd::prelude::*;
use vstd::string::StringSliceAdditionalSpecFns;
use crate::output_buffer::OutputBuffer;

verus! {

/// Frames a log message for the host: the UTF-8 bytes of `message`
/// followed by the terminating zero byte.
pub fn frame_log_message(message: &str) -> (r: Vec<u8>)
    ensures
        r@ == message.spec_bytes().push(0u8),
{
    let mut buf = OutputBuffer::new();
    buf.output_str(message);
    buf.into_bytes()
}

} // verus!
