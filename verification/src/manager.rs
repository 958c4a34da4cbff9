//! The device manager: arbitrates access to the single physical device,
//! admits at most one real measurement per fixed interval while serving the
//! last-known value otherwise, and marks the device busy for the duration
//! of a calibration run.
//!
//! The manager is an explicit state machine over plain values: callers pass
//! the current time in milliseconds, and an in-progress calibration is an
//! explicit flag that the calibration entry points set and clear. Harness
//! code that shares one manager between threads keeps it behind its own
//! lock and supplies real clock readings.

use vstd::prelude::*;

use crate::transport::{
    calibrate_co2, read_co2, read_elevation, set_elevation, Device, Error, MAX_STATUS_POLLS,
};
use crate::wire::{Concentration, Distance};

verus! {

/// The minimum interval between two admitted measurements, in milliseconds.
pub const MEASUREMENT_INTERVAL_MS: u64 = 15000;

/// The ambient CO2 concentration used as the calibration reference, in
/// parts per million.
pub const AMBIENT_PPM: u16 = 410;

/// A fixed-interval rate limiter: it admits a request when no request has
/// ever been admitted, or when at least `interval_ms` has passed since the
/// last admitted one.
#[derive(Debug, PartialEq, Eq, Structural, Clone, Copy)]
pub struct RateLimiter {
    pub interval_ms: u64,
    pub last_admit: Option<u64>,
}

impl RateLimiter {
    /// A limiter that has admitted nothing yet.
    pub fn new(interval_ms: u64) -> (r: RateLimiter)
        ensures
            r.interval_ms == interval_ms,
            r.last_admit is None,
    {
        RateLimiter { interval_ms, last_admit: None }
    }

    /// Whether a request at `now_ms` is admitted.
    pub open spec fn spec_admits(self, now_ms: u64) -> bool {
        match self.last_admit {
            None => true,
            Some(last) => now_ms >= last + self.interval_ms,
        }
    }

    /// Checks a request at `now_ms` against the limiter: an admitted
    /// request is recorded as the new last admission, a denied one leaves
    /// the limiter unchanged.
    pub fn check(&mut self, now_ms: u64) -> (admitted: bool)
        ensures
            admitted == old(self).spec_admits(now_ms),
            final(self).interval_ms == old(self).interval_ms,
            admitted ==> final(self).last_admit == Some(now_ms),
            !admitted ==> final(self).last_admit == old(self).last_admit,
    {
        let granted = match self.last_admit {
            None => true,
            Some(last) => now_ms >= last && now_ms - last >= self.interval_ms,
        };
        if granted {
            self.last_admit = Some(now_ms);
        }
        granted
    }
}

/// Law: while the limiter's interval has not yet passed since the last
/// admitted request, every request is denied, so a measurement taken in
/// that window is served from the cache rather than the device.
pub proof fn lemma_limiter_denies_within_interval(lim: RateLimiter, now_ms: u64)
    requires
        lim.last_admit is Some,
        now_ms < lim.last_admit->0 + lim.interval_ms,
    ensures
        !lim.spec_admits(now_ms),
{
}

/// The manager for one physical device. `calibrating` records that a
/// calibration run currently holds the device: while it is set, measurement
/// and configuration requests fail fast with a busy error instead of
/// touching the device.
pub struct DeviceManager<D> {
    pub device: D,
    pub calibrating: bool,
    pub limiter: RateLimiter,
    pub last_measure: Option<Concentration>,
}

impl<D: Device> DeviceManager<D> {
    /// A manager for a fresh device: no calibration in progress, nothing
    /// measured yet, one measurement admitted per interval.
    pub fn new(device: D) -> (r: DeviceManager<D>)
        ensures
            r.calibrating == false,
            r.limiter.interval_ms == MEASUREMENT_INTERVAL_MS,
            r.limiter.last_admit is None,
            r.last_measure is None,
    {
        DeviceManager {
            device,
            calibrating: false,
            limiter: RateLimiter::new(MEASUREMENT_INTERVAL_MS),
            last_measure: None,
        }
    }

    /// Whether the device can be used right now, i.e. no calibration holds
    /// it. A probe only: a calibration may start between this check and a
    /// later call.
    pub fn is_ready(&self) -> (r: bool)
        ensures
            r == !self.calibrating,
    {
        !self.calibrating
    }

    /// Takes a CO2 measurement. A request denied by the rate limiter is
    /// served the cached last measurement (and fails only if nothing has
    /// ever been measured); an admitted request fails fast when calibration
    /// holds the device, and otherwise reads the device and refreshes the
    /// cache.
    pub fn measure(&mut self, now_ms: u64) -> (r: Result<Concentration, Error>)
        ensures
            !old(self).limiter.spec_admits(now_ms) ==> {
                &&& final(self).limiter == old(self).limiter
                &&& final(self).calibrating == old(self).calibrating
                &&& final(self).last_measure == old(self).last_measure
                &&& r == match old(self).last_measure {
                    Some(c) => Ok::<Concentration, Error>(c),
                    None => Err::<Concentration, Error>(Error::StaleDataUnavailable),
                }
            },
            old(self).limiter.spec_admits(now_ms) ==> final(self).limiter.last_admit == Some(now_ms)
                && final(self).limiter.interval_ms == old(self).limiter.interval_ms
                && final(self).calibrating == old(self).calibrating,
            old(self).limiter.spec_admits(now_ms) && old(self).calibrating ==> r == Err::<
                Concentration,
                Error,
            >(Error::Busy) && final(self).last_measure == old(self).last_measure,
            old(self).limiter.spec_admits(now_ms) && !old(self).calibrating ==> {
                &&& (r is Ok ==> final(self).last_measure == Some(r->Ok_0))
                &&& (r is Err ==> final(self).last_measure == old(self).last_measure)
            },
    {
        if !self.limiter.check(now_ms) {
            return match self.last_measure {
                Some(c) => Ok(c),
                None => Err(Error::StaleDataUnavailable),
            };
        }
        if self.calibrating {
            return Err(Error::Busy);
        }
        match read_co2(&mut self.device) {
            Ok(c) => {
                self.last_measure = Some(c);
                Ok(c)
            },
            Err(e) => Err(e),
        }
    }

    /// Reads the configured elevation, failing fast with a busy error while
    /// calibration holds the device.
    pub fn elevation(&mut self) -> (r: Result<Distance, Error>)
        ensures
            old(self).calibrating ==> r == Err::<Distance, Error>(Error::Busy),
            final(self).calibrating == old(self).calibrating,
            final(self).limiter == old(self).limiter,
            final(self).last_measure == old(self).last_measure,
    {
        if self.calibrating {
            return Err(Error::Busy);
        }
        read_elevation(&mut self.device)
    }

    /// Configures the device's elevation (rounded to the nearest 500 feet),
    /// failing fast with a busy error while calibration holds the device.
    pub fn configure_elevation(&mut self, to: Distance) -> (r: Result<(), Error>)
        ensures
            old(self).calibrating ==> r == Err::<(), Error>(Error::Busy),
            final(self).calibrating == old(self).calibrating,
            final(self).limiter == old(self).limiter,
            final(self).last_measure == old(self).last_measure,
    {
        if self.calibrating {
            return Err(Error::Busy);
        }
        set_elevation(&mut self.device, to)
    }

    /// Takes the device for a calibration run: fails with a busy error when
    /// one is already in progress, and otherwise marks the device busy
    /// until [`Self::finish_calibration`] releases it.
    pub fn begin_calibration(&mut self) -> (r: Result<(), Error>)
        ensures
            old(self).calibrating ==> r == Err::<(), Error>(Error::Busy) && final(self).calibrating
                == old(self).calibrating,
            !old(self).calibrating ==> r is Ok && final(self).calibrating,
            final(self).limiter == old(self).limiter,
            final(self).last_measure == old(self).last_measure,
            final(self).device == old(self).device,
    {
        if self.calibrating {
            return Err(Error::Busy);
        }
        self.calibrating = true;
        Ok(())
    }

    /// Releases the device after a calibration run.
    pub fn finish_calibration(&mut self)
        ensures
            final(self).calibrating == false,
            final(self).limiter == old(self).limiter,
            final(self).last_measure == old(self).last_measure,
            final(self).device == old(self).device,
    {
        self.calibrating = false;
    }

    /// Runs a full single-point calibration against the ambient reference
    /// concentration, holding the device for the whole (multi-minute) run.
    /// Fails fast with a busy error when a calibration is already in
    /// progress. Harness code that wants the fire-and-forget shape runs
    /// this on a background thread.
    pub fn calibrate(&mut self) -> (r: Result<(), Error>)
        ensures
            old(self).calibrating ==> r == Err::<(), Error>(Error::Busy) && final(self).calibrating,
            !old(self).calibrating ==> final(self).calibrating == false,
            final(self).limiter == old(self).limiter,
            final(self).last_measure == old(self).last_measure,
    {
        match self.begin_calibration() {
            Err(e) => {
                return Err(e);
            },
            Ok(_) => {},
        }
        let res = calibrate_co2(&mut self.device, Concentration::PPM(AMBIENT_PPM), MAX_STATUS_POLLS);
        self.finish_calibration();
        res
    }
}

} // verus!
