//! Hardware model: indicator colors, tuner band limits, and the capability
//! traits through which the core drives the two actuators.

use vstd::prelude::*;

verus! {

/// Color shown on the indicator light, one byte per channel.
#[derive(Clone, Copy, PartialEq, Eq, Structural, Debug)]
pub struct Rgb {
    pub r: u8,
    pub g: u8,
    pub b: u8,
}

impl Rgb {
    pub fn new(r: u8, g: u8, b: u8) -> (c: Rgb)
        ensures
            c == (Rgb { r, g, b }),
    {
        Rgb { r, g, b }
    }
}

/// Color shown while a tuning sequence is in progress.
pub open spec fn busy_color() -> Rgb {
    Rgb { r: 0, g: 0, b: 0 }
}

/// Color shown once a tuning sequence has completed.
pub open spec fn ready_color() -> Rgb {
    Rgb { r: 0, g: 50, b: 0 }
}

/// Error reported by a driver when a bus transaction fails.
#[derive(Clone, Copy, PartialEq, Eq, Structural, Debug)]
pub struct DriverError;

/// Receive-band limits of a tuner, in tenths of a MHz.
#[derive(Clone, Copy, PartialEq, Eq, Structural, Debug)]
pub struct Band {
    pub low_dmhz: u16,
    pub high_dmhz: u16,
}

impl Band {
    /// The European/US FM broadcast band, 87.5 MHz to 108.0 MHz.
    pub fn europe_us() -> (b: Band)
        ensures
            b == europe_us_band(),
    {
        Band { low_dmhz: 875, high_dmhz: 1080 }
    }

    pub open spec fn contains_dmhz(self, freq_dmhz: u16) -> bool {
        self.low_dmhz <= freq_dmhz <= self.high_dmhz
    }

    /// Whether `freq_dmhz` lies within this band.
    pub fn contains(&self, freq_dmhz: u16) -> (r: bool)
        ensures
            r == self.contains_dmhz(freq_dmhz),
    {
        self.low_dmhz <= freq_dmhz && freq_dmhz <= self.high_dmhz
    }
}

pub open spec fn europe_us_band() -> Band {
    Band { low_dmhz: 875, high_dmhz: 1080 }
}

/// Sound reproduction mode of the tuner, fixed at initialization.
#[derive(Clone, Copy, PartialEq, Eq, Structural, Debug)]
pub enum SoundMode {
    Stereo,
    Mono,
}

/// Capability interface of an FM tuner driver.
///
/// The core assumes each call is one atomic bus transaction: a successful
/// call retunes the device to exactly the commanded in-band frequency, and a
/// failed call leaves the previously tuned frequency in place. No partial
/// register state is ever observable through this interface.
pub trait Tuner: Sized {
    /// The frequency the device is tuned to, in tenths of a MHz.
    spec fn frequency(&self) -> u16;

    /// The receive band the device was configured with.
    spec fn band(&self) -> Band;

    /// Command the device to `freq_dmhz`.
    fn set_frequency(&mut self, freq_dmhz: u16) -> (r: Result<(), DriverError>)
        ensures
            final(self).band() == old(self).band(),
            r is Ok ==> final(self).frequency() == freq_dmhz
                && old(self).band().contains_dmhz(freq_dmhz),
            r is Err ==> final(self).frequency() == old(self).frequency(),
    ;

    /// Read back the currently tuned frequency, in tenths of a MHz.
    fn frequency_dmhz(&self) -> (f: u16)
        ensures
            f == self.frequency(),
    ;
}

/// Capability interface of the indicator-light driver.
///
/// A successful call leaves the light showing exactly the commanded color; a
/// failed write is advisory only and the shown color is then unknown.
pub trait Indicator: Sized {
    /// The color the light currently shows.
    spec fn shown(&self) -> Rgb;

    /// Set the light to `color`.
    fn set_pixel(&mut self, color: Rgb) -> (r: Result<(), DriverError>)
        ensures
            r is Ok ==> final(self).shown() == color,
    ;
}

/// Capability interface for the bounded visual-feedback pause between the
/// busy and ready indicator states.
pub trait Delay: Sized {
    /// Block the calling context for `ms` milliseconds.
    fn pause_ms(&self, ms: u32);
}

/// Length of the visual-feedback pause between the busy and ready states.
pub const FEEDBACK_PAUSE_MS: u32 = 100;

/// The exclusive-access aggregate: both hardware handles, the pause
/// capability, and the sound mode fixed at initialization. No component
/// outside the store may hold a reference to the handles.
pub struct HardwareState<T: Tuner, I: Indicator, D: Delay> {
    pub tuner: T,
    pub indicator: I,
    pub delay: D,
    pub sound: SoundMode,
}

/// How one FM tuning sequence ended. `indicator_ok` reports whether every
/// advisory indicator write up to that point succeeded.
pub enum FmTuneOutcome {
    /// The tuner accepted the frequency.
    Tuned { indicator_ok: bool },
    /// The tuner driver failed; the previously tuned frequency is retained.
    TunerFailed { indicator_ok: bool },
}

/// Relation between the hardware state before and after one FM tuning
/// sequence commanded to `freq_dmhz`: the band and sound mode never change;
/// a completed sequence leaves the tuner on exactly the commanded frequency
/// and, when its indicator writes succeeded, the light on the ready color;
/// a failed one retains the previous frequency and leaves the light in the
/// busy color.
pub open spec fn fm_sequence_post<T: Tuner, I: Indicator, D: Delay>(
    pre: HardwareState<T, I, D>,
    post: HardwareState<T, I, D>,
    freq_dmhz: u16,
    r: FmTuneOutcome,
) -> bool {
    &&& post.tuner.band() == pre.tuner.band()
    &&& post.sound == pre.sound
    &&& match r {
        FmTuneOutcome::Tuned { indicator_ok } => post.tuner.frequency() == freq_dmhz && (
        indicator_ok ==> post.indicator.shown() == ready_color()),
        FmTuneOutcome::TunerFailed { indicator_ok } => post.tuner.frequency()
            == pre.tuner.frequency() && (indicator_ok ==> post.indicator.shown() == busy_color()),
    }
}

impl<T: Tuner, I: Indicator, D: Delay> HardwareState<T, I, D> {
    /// The tuner never sits outside its configured band.
    pub open spec fn wf(&self) -> bool {
        self.tuner.band().contains_dmhz(self.tuner.frequency())
    }

    pub fn new(tuner: T, indicator: I, delay: D, sound: SoundMode) -> (hw: Self)
        requires
            tuner.band().contains_dmhz(tuner.frequency()),
        ensures
            hw.wf(),
            hw == (HardwareState { tuner, indicator, delay, sound }),
    {
        HardwareState { tuner, indicator, delay, sound }
    }

    /// One FM tuning sequence, in strict order: set the indicator to the
    /// busy color, command the tuner, and on success pause briefly and set
    /// the indicator to the ready color. On tuner failure the indicator is
    /// left in the busy color and the previous frequency is retained.
    /// Indicator-write failures are advisory: they are reported through the
    /// outcome, never turned into a hardware error.
    ///
    /// Callers must hold exclusive access to `self`, so no concurrent
    /// sequence can observe or inject a write between these steps.
    pub fn tune_fm(&mut self, freq_dmhz: u16) -> (r: FmTuneOutcome)
        requires
            old(self).wf(),
        ensures
            final(self).wf(),
            fm_sequence_post(*old(self), *final(self), freq_dmhz, r),
    {
        let busy_ok = self.indicator.set_pixel(Rgb::new(0, 0, 0)).is_ok();
        match self.tuner.set_frequency(freq_dmhz) {
            Ok(()) => {
                self.delay.pause_ms(FEEDBACK_PAUSE_MS);
                let ready_ok = self.indicator.set_pixel(Rgb::new(0, 50, 0)).is_ok();
                FmTuneOutcome::Tuned { indicator_ok: busy_ok && ready_ok }
            },
            Err(_) => FmTuneOutcome::TunerFailed { indicator_ok: busy_ok },
        }
    }
}

/// Law: tuning sequences under exclusive access serialize, and the tuner is
/// left on the frequency of whichever completed sequence ran last. Each
/// completed sequence's post state shows exactly its own commanded
/// frequency, so no intermediate or partial frequency of one sequence is
/// ever observed by the other's feedback steps.
pub proof fn lemma_last_completed_sequence_wins<T: Tuner, I: Indicator, D: Delay>(
    h0: HardwareState<T, I, D>,
    h1: HardwareState<T, I, D>,
    h2: HardwareState<T, I, D>,
    f1: u16,
    f2: u16,
    ok1: bool,
    ok2: bool,
)
    requires
        fm_sequence_post(h0, h1, f1, FmTuneOutcome::Tuned { indicator_ok: ok1 }),
        fm_sequence_post(h1, h2, f2, FmTuneOutcome::Tuned { indicator_ok: ok2 }),
    ensures
        h1.tuner.frequency() == f1,
        h2.tuner.frequency() == f2,
{
}

/// Law: a failed sequence retains the frequency of the last completed one;
/// failure never exposes a partial frequency.
pub proof fn lemma_failed_sequence_retains_frequency<T: Tuner, I: Indicator, D: Delay>(
    h0: HardwareState<T, I, D>,
    h1: HardwareState<T, I, D>,
    h2: HardwareState<T, I, D>,
    f1: u16,
    f2: u16,
    ok1: bool,
    ok2: bool,
)
    requires
        fm_sequence_post(h0, h1, f1, FmTuneOutcome::Tuned { indicator_ok: ok1 }),
        fm_sequence_post(h1, h2, f2, FmTuneOutcome::TunerFailed { indicator_ok: ok2 }),
    ensures
        h2.tuner.frequency() == f1,
{
}

} // verus!
