//! The events the engine emits towards the audio collaborator. Playback
//! itself (decoding, output devices, worker threads) is outside the engine;
//! it consumes these fire-and-forget requests and never reports back.
use vstd::prelude::*;

verus! {

/// A sound the engine asks the audio collaborator to play.
#[derive(Clone, Copy, Debug, PartialEq, Eq, Structural)]
pub enum SoundEffect {
    /// The entity flapped.
    Flap,
    /// The entity struck an obstacle.
    Hit,
    /// The entity fell through the floor.
    GameOver,
    /// Start the looping background track.
    BGM,
}

} // verus!
