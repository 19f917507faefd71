//! Sample handling for a feedback-delay audio player: the offline delay pass
//! that produces the signal, the buffer and cursor that the output callback
//! reads it through, and how long a session plays.
use vstd::prelude::*;

pub mod delay;
pub mod playback;
pub mod session;

verus! {

} // verus!
