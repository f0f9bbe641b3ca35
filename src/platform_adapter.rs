use vstd::prelude::*;

verus! {

/// What the machine needs from the platform it runs on: a tone that can be
/// switched on and off, and a source of random bytes.
pub trait PlatformAdapter {
    /// Starts the tone.
    fn play_sound(&mut self);

    /// Stops the tone.
    fn pause_sound(&mut self);

    /// A random byte.
    fn get_random_val(&self) -> u8;
}

} // verus!
