//! In-memory driver implementations of the hardware capability traits, for
//! composition on hosts without the radio peripherals and for exercising the
//! dispatcher end to end.

use vstd::prelude::*;
use crate::hw::{Band, Delay, DriverError, Indicator, Rgb, Tuner};

verus! {

/// A tuner model: remembers the commanded frequency, honors its band limits,
/// and can be told to fail its next bus transaction.
pub struct SimTuner {
    freq_dmhz: u16,
    band: Band,
    fail_next: bool,
}

impl SimTuner {
    /// Whether the next `set_frequency` call will report a bus failure.
    pub closed spec fn failing(&self) -> bool {
        self.fail_next
    }

    /// A tuner configured on `band`, initially tuned to `freq_dmhz`.
    pub fn new(band: Band, freq_dmhz: u16) -> (t: Option<SimTuner>)
        ensures
            match t {
                Some(t) => t.band() == band && t.frequency() == freq_dmhz && !t.failing()
                    && band.contains_dmhz(freq_dmhz),
                None => !band.contains_dmhz(freq_dmhz),
            },
    {
        if band.contains(freq_dmhz) {
            Some(SimTuner { freq_dmhz, band, fail_next: false })
        } else {
            None
        }
    }

    /// Make the next bus transaction fail, as a flaky device would.
    pub fn fail_next_call(&mut self)
        ensures
            final(self).failing(),
            final(self).frequency() == old(self).frequency(),
            final(self).band() == old(self).band(),
    {
        self.fail_next = true;
    }
}

impl Tuner for SimTuner {
    closed spec fn frequency(&self) -> u16 {
        self.freq_dmhz
    }

    closed spec fn band(&self) -> Band {
        self.band
    }

    fn set_frequency(&mut self, freq_dmhz: u16) -> (r: Result<(), DriverError>) {
        if self.fail_next {
            self.fail_next = false;
            Err(DriverError)
        } else if self.band.contains(freq_dmhz) {
            self.freq_dmhz = freq_dmhz;
            Ok(())
        } else {
            Err(DriverError)
        }
    }

    fn frequency_dmhz(&self) -> u16 {
        self.freq_dmhz
    }
}

/// An indicator model: remembers the last color written.
pub struct SimIndicator {
    color: Rgb,
}

impl SimIndicator {
    pub fn new(color: Rgb) -> (i: SimIndicator)
        ensures
            i.shown() == color,
    {
        SimIndicator { color }
    }
}

impl Indicator for SimIndicator {
    closed spec fn shown(&self) -> Rgb {
        self.color
    }

    fn set_pixel(&mut self, color: Rgb) -> (r: Result<(), DriverError>) {
        self.color = color;
        Ok(())
    }
}

/// A pause capability that returns immediately.
pub struct SimDelay {}

impl Delay for SimDelay {
    fn pause_ms(&self, _ms: u32) {
    }
}

} // verus!
