//! The framed transport: reply-header validation, transient-failure retry,
//! elevation rounding, and the higher-level device operations (read
//! concentration, read/set elevation, status polling, the calibration
//! sequence) built on a single request/reply primitive.

use vstd::prelude::*;

use crate::command;
use crate::response;
use crate::response::{
    ack_decoded, gas_ppm_decoded, spec_bit, spec_is_normal, status_decoded, ABCState,
};
use crate::wire::{be16_hi, be16_lo, Concentration, Distance, ParseError, Payload, Toggle, Variable};

verus! {

/// An error raised by a device operation.
#[derive(Debug)]
pub enum Error {
    /// The link failed to open, read or write.
    Io(String),
    /// The reply header's flag byte was not `0xFF`.
    BadFlag(u8),
    /// The reply header's address byte was not `0xFA`.
    BadAddress(u8),
    /// The reply body could not be decoded.
    Parse(ParseError),
    /// Calibration's read-back reference did not match what was set.
    Verification { expected: Concentration, got: Concentration },
    /// The device status after calibration was not normal.
    AbnormalStatus(u8),
    /// The device kept automatic baseline correction on when asked to turn
    /// it off.
    AbcToggleFailed,
    /// The device did not reach an awaited state within a polling budget.
    Timeout,
    /// The device is held by an in-progress calibration.
    Busy,
    /// A read was rate-limited, but no measurement has ever succeeded.
    StaleDataUnavailable,
}

impl PartialEq for Error {
    fn eq(&self, other: &Error) -> (r: bool) {
        match (self, other) {
            (Error::Io(a), Error::Io(b)) => *a == *b,
            (Error::BadFlag(a), Error::BadFlag(b)) => *a == *b,
            (Error::BadAddress(a), Error::BadAddress(b)) => *a == *b,
            (Error::Parse(a), Error::Parse(b)) => *a == *b,
            (
                Error::Verification { expected: a, got: b },
                Error::Verification { expected: c, got: d },
            ) => *a == *c && *b == *d,
            (Error::AbnormalStatus(a), Error::AbnormalStatus(b)) => *a == *b,
            (Error::AbcToggleFailed, Error::AbcToggleFailed) => true,
            (Error::Timeout, Error::Timeout) => true,
            (Error::Busy, Error::Busy) => true,
            (Error::StaleDataUnavailable, Error::StaleDataUnavailable) => true,
            _ => false,
        }
    }
}

impl vstd::std_specs::cmp::PartialEqSpecImpl for Error {
    open spec fn obeys_eq_spec() -> bool {
        true
    }

    open spec fn eq_spec(&self, other: &Error) -> bool {
        match (self, other) {
            (Error::Io(a), Error::Io(b)) => a@ == b@,
            (Error::BadFlag(a), Error::BadFlag(b)) => a == b,
            (Error::BadAddress(a), Error::BadAddress(b)) => a == b,
            (Error::Parse(a), Error::Parse(b)) => a == b,
            (
                Error::Verification { expected: a, got: b },
                Error::Verification { expected: c, got: d },
            ) => a == c && b == d,
            (Error::AbnormalStatus(a), Error::AbnormalStatus(b)) => a == b,
            (Error::AbcToggleFailed, Error::AbcToggleFailed) => true,
            (Error::Timeout, Error::Timeout) => true,
            (Error::Busy, Error::Busy) => true,
            (Error::StaleDataUnavailable, Error::StaleDataUnavailable) => true,
            _ => false,
        }
    }
}

/// A device that can perform one framed request/reply exchange. The physical
/// implementation owns the serial link; test doubles answer from memory.
pub trait Device {
    /// Sends the request payload to the device and returns the reply
    /// payload.
    fn execute(&mut self, request: &Payload) -> Result<Payload, Error>;

    /// Pauses for the given number of seconds between polls of the device.
    fn sleep(&mut self, seconds: u64);
}

/// Validates the three reply-header bytes: the flag byte must be `0xFF` and
/// the inbound address byte `0xFA`; any mismatch is a transport error naming
/// the unexpected byte. On success, returns the body length byte.
pub fn check_reply_header(flag: u8, address: u8, length: u8) -> (r: Result<u8, Error>)
    ensures
        r is Ok <==> flag == 0xFF && address == 0xFA,
        r is Ok ==> r->Ok_0 == length,
        flag != 0xFF ==> r == Err::<u8, Error>(Error::BadFlag(flag)),
        flag == 0xFF && address != 0xFA ==> r == Err::<u8, Error>(Error::BadAddress(address)),
{
    if flag != 0xFF {
        return Err(Error::BadFlag(flag));
    }
    if address != 0xFA {
        return Err(Error::BadAddress(address));
    }
    Ok(length)
}

/// Rounds an elevation value to the nearest multiple of 500 feet, which is
/// the granularity the device accepts. Remainders below 250 round down; 250
/// and above (the exact midpoint included) round up.
pub fn round_to_nearest_500(v: u16) -> (r: u16)
    ensures
        v % 500 < 250 ==> r == v - v % 500,
        v % 500 >= 250 ==> r == v - v % 500 + 500,
{
    let diff = v % 500;
    let lower = v - diff;
    if diff < 250 {
        lower
    } else {
        lower + 500
    }
}

/// How many times one request/reply exchange is attempted before its error
/// is surfaced.
pub const EXECUTE_ATTEMPTS: u64 = 10;

/// How long to sleep between two attempts of an exchange, in seconds.
pub const RETRY_DELAY_SECS: u64 = 1;

/// Performs one request/reply exchange with transient-failure retry: up to
/// `attempts` tries of `Device::execute` on the unchanged request, sleeping
/// one second between tries, returning the first success or the last
/// failure. This absorbs transient serial noise and timeouts; what a reply
/// payload means is decided by the caller's decode, and a decode failure is
/// not retried, since a malformed payload will not self-correct on retry.
pub fn execute_with_retry<D: Device>(dev: &mut D, request: &Payload, attempts: u64) -> (r: Result<
    Payload,
    Error,
>) {
    let mut tries_left = attempts;
    loop
        decreases tries_left,
    {
        match dev.execute(request) {
            Ok(p) => {
                return Ok(p);
            },
            Err(e) => {
                if tries_left <= 1 {
                    return Err(e);
                }
                tries_left = tries_left - 1;
                dev.sleep(RETRY_DELAY_SECS);
            },
        }
    }
}

/// Performs one exchange and requires a bare acknowledgement in reply.
pub fn execute_ack<D: Device>(dev: &mut D, request: &Payload) -> (r: Result<(), Error>) {
    let reply = match execute_with_retry(dev, request, EXECUTE_ATTEMPTS) {
        Ok(p) => p,
        Err(e) => {
            return Err(e);
        },
    };
    match response::Ack::decode(&reply) {
        Ok(_) => Ok(()),
        Err(e) => Err(Error::Parse(e)),
    }
}

/// Reads a CO2 measurement from the device.
pub fn read_co2<D: Device>(dev: &mut D) -> (r: Result<Concentration, Error>) {
    let req = command::Read(Variable::GasPPM).encode();
    let reply = match execute_with_retry(dev, &req, EXECUTE_ATTEMPTS) {
        Ok(p) => p,
        Err(e) => {
            return Err(e);
        },
    };
    match response::GasPPM::decode(&reply) {
        Ok(g) => Ok(g.concentration()),
        Err(e) => Err(Error::Parse(e)),
    }
}

/// Reads the configured elevation from the device.
pub fn read_elevation<D: Device>(dev: &mut D) -> (r: Result<Distance, Error>) {
    let req = command::Read(Variable::Elevation).encode();
    let reply = match execute_with_retry(dev, &req, EXECUTE_ATTEMPTS) {
        Ok(p) => p,
        Err(e) => {
            return Err(e);
        },
    };
    match response::Elevation::decode(&reply) {
        Ok(e) => Ok(e.0),
        Err(e) => Err(Error::Parse(e)),
    }
}

/// Configures the device to operate at elevation `d`, rounded to the
/// nearest 500 feet; the call succeeds only on an acknowledgement.
pub fn set_elevation<D: Device>(dev: &mut D, d: Distance) -> (r: Result<(), Error>) {
    let feet = round_to_nearest_500(d.feet());
    let req = command::UpdateElevation(Distance::Feet(feet)).encode();
    execute_ack(dev, &req)
}

/// A status predicate awaited by a polling loop.
#[derive(Debug, PartialEq, Eq, Structural, Clone, Copy)]
pub enum StatusCondition {
    /// The warmup bit has cleared.
    WarmupDone,
    /// The calibration bit has set.
    CalibrationRunning,
    /// The calibration bit has cleared.
    CalibrationDone,
}

/// Whether a status byte satisfies the awaited condition.
pub open spec fn spec_condition_holds(c: StatusCondition, byte: u8) -> bool {
    match c {
        StatusCondition::WarmupDone => !spec_bit(byte, 1),
        StatusCondition::CalibrationRunning => spec_bit(byte, 2),
        StatusCondition::CalibrationDone => !spec_bit(byte, 2),
    }
}

/// Whether a decoded status satisfies the awaited condition.
pub fn condition_holds(c: StatusCondition, s: &response::Status) -> (r: bool)
    ensures
        r == spec_condition_holds(c, s.byte()),
{
    match c {
        StatusCondition::WarmupDone => !s.in_warmup(),
        StatusCondition::CalibrationRunning => s.in_calibration(),
        StatusCondition::CalibrationDone => !s.in_calibration(),
    }
}

/// How many times a polling loop may find its awaited condition unmet
/// before it gives up with a timeout error. At the polling intervals used
/// here this allows well over a day of waiting, far beyond any calibration
/// or warmup the device performs.
pub const MAX_STATUS_POLLS: u64 = 100000;

/// Polls the device's status until the awaited condition holds, sleeping
/// `poll_seconds` between polls. Returns the status that satisfied the
/// condition. The condition may be found unmet at most `max_polls` times;
/// after that the wait fails with a timeout error rather than poll forever
/// against a stuck device.
pub fn wait_status<D: Device>(
    dev: &mut D,
    cond: StatusCondition,
    poll_seconds: u64,
    max_polls: u64,
) -> (r: Result<response::Status, Error>)
    ensures
        r is Ok ==> spec_condition_holds(cond, r->Ok_0.byte()),
{
    let mut polls_left = max_polls;
    loop
        decreases polls_left,
    {
        let req = command::Status.encode();
        let reply = match execute_with_retry(dev, &req, EXECUTE_ATTEMPTS) {
            Ok(p) => p,
            Err(e) => {
                return Err(e);
            },
        };
        let st = match response::Status::decode(&reply) {
            Ok(s) => s,
            Err(e) => {
                return Err(Error::Parse(e));
            },
        };
        if condition_holds(cond, &st) {
            return Ok(st);
        }
        if polls_left == 0 {
            return Err(Error::Timeout);
        }
        polls_left = polls_left - 1;
        dev.sleep(poll_seconds);
    }
}

/// Waits for the device to finish warmup, polling every 5 seconds. Should
/// be called before taking CO2 measurements.
pub fn wait_warmup<D: Device>(dev: &mut D) -> (r: Result<(), Error>) {
    match wait_status(dev, StatusCondition::WarmupDone, 5, MAX_STATUS_POLLS) {
        Ok(_) => Ok(()),
        Err(e) => Err(e),
    }
}

/// One step of the single-point calibration sequence.
#[derive(Debug, PartialEq, Eq, Structural, Clone, Copy)]
pub enum CalibrationPhase {
    /// Send the reference concentration; an acknowledgement is required.
    SetReference,
    /// Read the reference back; it must equal what was set.
    VerifyReference,
    /// Start the calibration run; an acknowledgement is required.
    StartCalibration,
    /// Poll every 5 seconds until the device enters calibration mode.
    AwaitCalibrationStart,
    /// Poll every 15 seconds until the device leaves calibration mode.
    AwaitCalibrationEnd,
    /// Read the final status; it must be normal.
    FinalCheck,
    /// The sequence has finished.
    Complete,
}

/// The request sent in each calibration phase.
pub fn calibration_request(phase: CalibrationPhase, reference: Concentration) -> (p: Payload)
    requires
        !(phase is Complete),
    ensures
        phase is SetReference ==> p@ == seq![
            0x03u8,
            0x11u8,
            be16_hi(reference.spec_ppm()),
            be16_lo(reference.spec_ppm()),
        ],
        phase is VerifyReference ==> p@ == seq![0x02u8, 0x11u8],
        phase is StartCalibration ==> p@ == seq![0x9Bu8],
        phase is AwaitCalibrationStart || phase is AwaitCalibrationEnd || phase is FinalCheck
            ==> p@ == seq![0xB6u8],
{
    match phase {
        CalibrationPhase::SetReference => command::SetSinglePointPPM(reference).encode(),
        CalibrationPhase::VerifyReference => command::VerifySinglePointCalibration.encode(),
        CalibrationPhase::StartCalibration => command::StartSinglePointCalibration.encode(),
        _ => command::Status.encode(),
    }
}

/// How long to sleep before repeating a calibration phase's poll.
pub fn calibration_poll_seconds(phase: CalibrationPhase) -> (r: u64)
    ensures
        phase is AwaitCalibrationStart ==> r == 5,
        phase is AwaitCalibrationEnd ==> r == 15,
        !(phase is AwaitCalibrationStart) && !(phase is AwaitCalibrationEnd) ==> r == 0,
{
    match phase {
        CalibrationPhase::AwaitCalibrationStart => 5,
        CalibrationPhase::AwaitCalibrationEnd => 15,
        _ => 0,
    }
}

/// Advances the calibration sequence on the reply to the current phase's
/// request. In particular, a read-back reference that differs from what was
/// set fails with a verification error, so the sequence never proceeds to
/// start the calibration run.
pub fn calibration_next(
    phase: CalibrationPhase,
    reference: Concentration,
    reply: &Payload,
) -> (r: Result<CalibrationPhase, Error>)
    requires
        !(phase is Complete),
    ensures
        phase is SetReference && ack_decoded(reply@) is Some ==> r == Ok::<
            CalibrationPhase,
            Error,
        >(CalibrationPhase::VerifyReference),
        phase is SetReference && ack_decoded(reply@) is None ==> r == Err::<
            CalibrationPhase,
            Error,
        >(Error::Parse(ParseError::WrongLength)),
        phase is VerifyReference && gas_ppm_decoded(reply@) is None ==> r == Err::<
            CalibrationPhase,
            Error,
        >(Error::Parse(ParseError::WrongLength)),
        phase is VerifyReference && gas_ppm_decoded(reply@) == Some(reference) ==> r == Ok::<
            CalibrationPhase,
            Error,
        >(CalibrationPhase::StartCalibration),
        phase is VerifyReference && gas_ppm_decoded(reply@) is Some && gas_ppm_decoded(reply@)
            != Some(reference) ==> r == Err::<CalibrationPhase, Error>(Error::Verification {
            expected: reference,
            got: gas_ppm_decoded(reply@)->0,
        }),
        phase is StartCalibration && ack_decoded(reply@) is Some ==> r == Ok::<
            CalibrationPhase,
            Error,
        >(CalibrationPhase::AwaitCalibrationStart),
        phase is StartCalibration && ack_decoded(reply@) is None ==> r == Err::<
            CalibrationPhase,
            Error,
        >(Error::Parse(ParseError::WrongLength)),
        phase is AwaitCalibrationStart && status_decoded(reply@) is Some ==> r == Ok::<
            CalibrationPhase,
            Error,
        >(
            if spec_bit(status_decoded(reply@)->0, 2) {
                CalibrationPhase::AwaitCalibrationEnd
            } else {
                CalibrationPhase::AwaitCalibrationStart
            },
        ),
        phase is AwaitCalibrationEnd && status_decoded(reply@) is Some ==> r == Ok::<
            CalibrationPhase,
            Error,
        >(
            if spec_bit(status_decoded(reply@)->0, 2) {
                CalibrationPhase::AwaitCalibrationEnd
            } else {
                CalibrationPhase::FinalCheck
            },
        ),
        phase is FinalCheck && status_decoded(reply@) is Some && spec_is_normal(
            status_decoded(reply@)->0,
        ) ==> r == Ok::<CalibrationPhase, Error>(CalibrationPhase::Complete),
        phase is FinalCheck && status_decoded(reply@) is Some && !spec_is_normal(
            status_decoded(reply@)->0,
        ) ==> r == Err::<CalibrationPhase, Error>(Error::AbnormalStatus(status_decoded(reply@)->0)),
        (phase is AwaitCalibrationStart || phase is AwaitCalibrationEnd || phase is FinalCheck)
            && status_decoded(reply@) is None ==> r == Err::<CalibrationPhase, Error>(
            Error::Parse(ParseError::WrongLength),
        ),
    {
    match phase {
        CalibrationPhase::SetReference => {
            match response::Ack::decode(reply) {
                Ok(_) => Ok(CalibrationPhase::VerifyReference),
                Err(e) => Err(Error::Parse(e)),
            }
        },
        CalibrationPhase::VerifyReference => {
            match response::GasPPM::decode(reply) {
                Ok(g) => {
                    let got = g.concentration();
                    if got.ppm() == reference.ppm() {
                        Ok(CalibrationPhase::StartCalibration)
                    } else {
                        Err(Error::Verification { expected: reference, got })
                    }
                },
                Err(e) => Err(Error::Parse(e)),
            }
        },
        CalibrationPhase::StartCalibration => {
            match response::Ack::decode(reply) {
                Ok(_) => Ok(CalibrationPhase::AwaitCalibrationStart),
                Err(e) => Err(Error::Parse(e)),
            }
        },
        CalibrationPhase::AwaitCalibrationStart => {
            match response::Status::decode(reply) {
                Ok(s) => {
                    if s.in_calibration() {
                        Ok(CalibrationPhase::AwaitCalibrationEnd)
                    } else {
                        Ok(CalibrationPhase::AwaitCalibrationStart)
                    }
                },
                Err(e) => Err(Error::Parse(e)),
            }
        },
        CalibrationPhase::AwaitCalibrationEnd => {
            match response::Status::decode(reply) {
                Ok(s) => {
                    if s.in_calibration() {
                        Ok(CalibrationPhase::AwaitCalibrationEnd)
                    } else {
                        Ok(CalibrationPhase::FinalCheck)
                    }
                },
                Err(e) => Err(Error::Parse(e)),
            }
        },
        CalibrationPhase::FinalCheck => {
            match response::Status::decode(reply) {
                Ok(s) => {
                    if s.is_normal() {
                        Ok(CalibrationPhase::Complete)
                    } else {
                        Err(Error::AbnormalStatus(s.byte_value()))
                    }
                },
                Err(e) => Err(Error::Parse(e)),
            }
        },
        CalibrationPhase::Complete => {
            proof {
                assert(false);
            }
            Ok(CalibrationPhase::Complete)
        },
    }
}

/// How far a calibration phase still is from completion; each transition to
/// a different phase moves strictly closer.
pub open spec fn phase_rank(phase: CalibrationPhase) -> int {
    match phase {
        CalibrationPhase::SetReference => 6,
        CalibrationPhase::VerifyReference => 5,
        CalibrationPhase::StartCalibration => 4,
        CalibrationPhase::AwaitCalibrationStart => 3,
        CalibrationPhase::AwaitCalibrationEnd => 2,
        CalibrationPhase::FinalCheck => 1,
        CalibrationPhase::Complete => 0,
    }
}

/// Calibrates the device's CO2 readings to a reference concentration by
/// driving the phase sequence to completion: set and verify the reference,
/// start the run, wait for it to begin and end, then require a normal final
/// status. This is very heavyweight; it may take minutes. Each waiting
/// phase may find its condition unmet at most `max_polls` times before the
/// sequence fails with a timeout error.
pub fn calibrate_co2<D: Device>(dev: &mut D, reference: Concentration, max_polls: u64) -> (r:
    Result<(), Error>) {
    let mut phase = CalibrationPhase::SetReference;
    let mut polls_left = max_polls;
    while phase != CalibrationPhase::Complete
        decreases phase_rank(phase), polls_left,
    {
        let req = calibration_request(phase, reference);
        let reply = match execute_with_retry(dev, &req, EXECUTE_ATTEMPTS) {
            Ok(p) => p,
            Err(e) => {
                return Err(e);
            },
        };
        let next = match calibration_next(phase, reference, &reply) {
            Ok(n) => n,
            Err(e) => {
                return Err(e);
            },
        };
        if next == phase {
            if polls_left == 0 {
                return Err(Error::Timeout);
            }
            polls_left = polls_left - 1;
            dev.sleep(calibration_poll_seconds(phase));
        }
        phase = next;
    }
    Ok(())
}

/// The outcome of an off-toggle request for each state the device echoed:
/// exactly the off echo is success, and an on echo is the toggle failure.
pub fn abc_off_outcome(st: ABCState) -> (r: Result<(), Error>)
    ensures
        st is Off <==> r is Ok,
        st is On ==> r == Err::<(), Error>(Error::AbcToggleFailed),
{
    match st {
        ABCState::Off => Ok(()),
        ABCState::On => Err(Error::AbcToggleFailed),
    }
}

/// Turns automatic baseline correction off; the device must echo the off
/// state back, and any other echo fails.
pub fn disable_abc<D: Device>(dev: &mut D) -> (r: Result<(), Error>) {
    let req = command::SetABCLogic(Toggle::Off).encode();
    let reply = match execute_with_retry(dev, &req, EXECUTE_ATTEMPTS) {
        Ok(p) => p,
        Err(e) => {
            return Err(e);
        },
    };
    match ABCState::decode(&reply) {
        Ok(st) => abc_off_outcome(st),
        Err(e) => Err(Error::Parse(e)),
    }
}

} // verus!
