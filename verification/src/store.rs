//! Hardware state store: the single owner of the LED and tuner handles. All
//! hardware mutation goes through its lock, so at most one logical command
//! sequence is ever mid-flight on the device bus, and no two write
//! operations from different requests interleave.
//!
//! A store behind a poisoning lock would have to fail fast once a prior
//! access panicked mid-mutation. Here every critical section is verified
//! panic-free and must re-establish the lock's invariant before releasing,
//! so a corrupted, must-be-refused state cannot arise in the first place.

use vstd::prelude::*;
use vstd::rwlock::RwLock;
use crate::hw::{Delay, FmTuneOutcome, HardwareState, Indicator, Rgb, Tuner};

verus! {

/// The exclusive-access owner of the hardware aggregate. The lock invariant
/// carries [`HardwareState::wf`], so every context that acquires the state
/// sees a tuner within its band and must leave one behind.
#[verifier::reject_recursive_types(T)]
#[verifier::reject_recursive_types(I)]
#[verifier::reject_recursive_types(D)]
pub struct HardwareStateStore<T: Tuner, I: Indicator, D: Delay> {
    lock: RwLock<HardwareState<T, I, D>, spec_fn(HardwareState<T, I, D>) -> bool>,
}

impl<T: Tuner, I: Indicator, D: Delay> HardwareStateStore<T, I, D> {
    /// The lock protects exactly the hardware well-formedness invariant.
    pub closed spec fn wf(&self) -> bool {
        forall|v: HardwareState<T, I, D>| #[trigger] self.lock.inv(v) <==> v.wf()
    }

    /// Take ownership of the hardware aggregate. Done once at startup; the
    /// store lives for the whole process.
    pub fn new(hw: HardwareState<T, I, D>) -> (s: Self)
        requires
            hw.wf(),
        ensures
            s.wf(),
    {
        let ghost pred = |v: HardwareState<T, I, D>| v.wf();
        let lock = RwLock::new(hw, Ghost(pred));
        HardwareStateStore { lock }
    }

    /// Run one FM tuning sequence under exclusive access: acquisition blocks
    /// until any in-progress access completes, and the whole busy-tune-ready
    /// sequence of [`HardwareState::tune_fm`] runs inside the one critical
    /// section. What the sequence guarantees about the state it leaves
    /// behind is stated there, over the lock's invariant.
    pub fn tune_fm_exclusive(&self, freq_dmhz: u16) -> (r: FmTuneOutcome)
        requires
            self.wf(),
    {
        let (mut hw, handle) = self.lock.acquire_write();
        let r = hw.tune_fm(freq_dmhz);
        handle.release_write(hw);
        r
    }

    /// Set the indicator under exclusive access. The write is advisory: a
    /// driver failure is reported back, never escalated.
    pub fn set_indicator(&self, color: Rgb) -> (ok: bool)
        requires
            self.wf(),
    {
        let (mut hw, handle) = self.lock.acquire_write();
        let ok = hw.indicator.set_pixel(color).is_ok();
        handle.release_write(hw);
        ok
    }

    /// Read back the currently tuned frequency, in tenths of a MHz. Taken
    /// under the lock, so it never observes a sequence mid-flight.
    pub fn current_frequency_dmhz(&self) -> (f: u16)
        requires
            self.wf(),
    {
        let handle = self.lock.acquire_read();
        let f = handle.borrow().tuner.frequency_dmhz();
        handle.release_read();
        f
    }
}

} // verus!
