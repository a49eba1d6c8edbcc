use vstd::prelude::*;

verus! {

/// One sound channel.  Sound synthesis is left to the host, so a channel
/// holds no state.
#[derive(Clone, Copy, PartialEq, Eq, Structural, Debug)]
pub struct Channel;

/// The sound unit: its four channels.
#[derive(Clone, Copy, PartialEq, Eq, Structural, Debug)]
pub struct Apu {
    pub CH1: Channel,
    pub CH2: Channel,
    pub CH3: Channel,
    pub CH4: Channel,
}

impl Apu {
    /// The sound unit at power-on.
    pub fn new() -> (apu: Apu)
        ensures
            apu == (Apu { CH1: Channel, CH2: Channel, CH3: Channel, CH4: Channel }),
    {
        Apu { CH1: Channel, CH2: Channel, CH3: Channel, CH4: Channel }
    }
}

} // verus!
