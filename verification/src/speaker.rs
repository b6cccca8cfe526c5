use vstd::prelude::*;

use crate::machine::TONE_HZ;

verus! {

/// What the host must do to its audio device.
#[derive(Clone, Copy, Debug, PartialEq, Eq, Structural)]
pub enum Tone {
    /// Begin a tone of this many hertz.
    Start(u16),
    /// End the tone that is sounding.
    Stop,
    /// Leave the device as it is.
    Keep,
}

/// What is asked of the device when a tone is wanted while one is or is not
/// sounding: a tone that sounds is left alone, a new one has the pitch asked
/// for, or `TONE_HZ` where none is given.
pub open spec fn on_play(sounding: bool, frequency: Option<u16>) -> Tone {
    if sounding {
        Tone::Keep
    } else {
        match frequency {
            Some(hertz) => Tone::Start(hertz),
            None => Tone::Start(TONE_HZ),
        }
    }
}

/// What is asked of the device when silence is wanted.
pub open spec fn on_stop(sounding: bool) -> Tone {
    if sounding {
        Tone::Stop
    } else {
        Tone::Keep
    }
}

/// Whether a tone is sounding. The speaker turns what is wanted, tone or
/// silence, into what has to change on the device.
pub struct Speaker {
    sounding: bool,
}

impl View for Speaker {
    type V = bool;

    closed spec fn view(&self) -> bool {
        self.sounding
    }
}

impl Speaker {
    /// A silent speaker.
    pub fn new() -> (speaker: Speaker)
        ensures
            !speaker@,
    {
        Speaker { sounding: false }
    }

    /// Asks for a tone. Only a silent speaker starts one.
    pub fn play(&mut self, frequency: Option<u16>) -> (action: Tone)
        ensures
            final(self)@,
            action == on_play(old(self)@, frequency),
    {
        if self.sounding {
            Tone::Keep
        } else {
            self.sounding = true;
            match frequency {
                Some(hertz) => Tone::Start(hertz),
                None => Tone::Start(TONE_HZ),
            }
        }
    }

    /// Asks for silence. Only a sounding speaker has a tone to stop.
    pub fn stop(&mut self) -> (action: Tone)
        ensures
            !final(self)@,
            action == on_stop(old(self)@),
    {
        if self.sounding {
            self.sounding = false;
            Tone::Stop
        } else {
            Tone::Keep
        }
    }

    /// Whether a tone is sounding.
    pub fn isSounding(&self) -> (sounding: bool)
        ensures
            sounding == self@,
    {
        self.sounding
    }
}

} // verus!
