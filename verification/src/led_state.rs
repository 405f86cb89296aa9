//! The momentary command carried by the indicator channel.

use vstd::prelude::*;

verus! {

/// A requested indicator state. It is a momentary command, not a persisted
/// state: the consumer applies it directly to the output pin and discards it.
#[derive(Clone, Copy, Debug, PartialEq, Eq, Structural)]
pub enum LedState {
    On,
    Off,
}

/// The pin level the indicator task drives for a received signal:
/// high for `On`, low for `Off`.
pub fn led_level(state: LedState) -> (high: bool)
    ensures
        high <==> state is On,
{
    match state {
        LedState::On => true,
        LedState::Off => false,
    }
}

} // verus!
