use t6615::command;
use t6615::manager::{DeviceManager, AMBIENT_PPM, MEASUREMENT_INTERVAL_MS};
use t6615::response;
use t6615::transport::{Device, Error};
use t6615::wire::{Concentration, Payload, Variable};

/// A fake device whose CO2 reading the test can change between calls.
struct FakeDevice {
    co2: Option<Concentration>,
    reference: Option<Concentration>,
    in_calibration: bool,
    exit_calibration_on_sleep: bool,
}

impl FakeDevice {
    fn with_co2(ppm: u16) -> FakeDevice {
        FakeDevice {
            co2: Some(Concentration::PPM(ppm)),
            reference: None,
            in_calibration: false,
            exit_calibration_on_sleep: true,
        }
    }

    fn set_co2(&mut self, ppm: u16) {
        self.co2 = Some(Concentration::PPM(ppm));
    }
}

impl Device for FakeDevice {
    fn execute(&mut self, request: &Payload) -> Result<Payload, Error> {
        if *request == command::Read(Variable::GasPPM).encode() {
            match self.co2 {
                Some(c) => Ok(response::GasPPM::with_ppm(c.ppm()).encode()),
                None => Err(Error::Io(String::from("no concentration set on fake"))),
            }
        } else if *request == command::Status.encode() {
            let mut flags = response::StatusFlags::default();
            flags.in_calibration = self.in_calibration;
            Ok(flags.to_status().encode())
        } else if let Ok(s) = command::SetSinglePointPPM::decode(request) {
            self.reference = Some(s.0);
            Ok(response::Ack.encode())
        } else if command::VerifySinglePointCalibration::decode(request).is_ok() {
            let ppm = match self.reference {
                Some(c) => c.ppm(),
                None => 0,
            };
            Ok(response::GasPPM::with_ppm(ppm).encode())
        } else if *request == command::StartSinglePointCalibration.encode() {
            self.in_calibration = true;
            Ok(response::Ack.encode())
        } else {
            Err(Error::Io(String::from("fake not implemented")))
        }
    }

    fn sleep(&mut self, _seconds: u64) {
        if self.exit_calibration_on_sleep {
            self.in_calibration = false;
        }
    }
}

#[test]
fn test_manager_double_read() {
    let fake = FakeDevice::with_co2(200);
    let mut mgr = DeviceManager::new(fake);
    let t0: u64 = 1_000_000;

    assert_eq!(mgr.measure(t0).unwrap(), Concentration::PPM(200));

    // Now we update the fake's CO2 concentration, but don't move forward
    // time. The manager should rate-limit the request, and we should see
    // stale data.
    mgr.device.set_co2(55);
    assert_eq!(mgr.measure(t0).unwrap(), Concentration::PPM(200));

    // Advance *just* past the max measure rate, so we can trigger another
    // measurement. Then we should see the updated value.
    let t1 = t0 + MEASUREMENT_INTERVAL_MS + 1000;
    assert_eq!(mgr.measure(t1).unwrap(), Concentration::PPM(55));

    // Just for good measure, change the concentration back, and
    // make sure we see latch the updated concentration.
    mgr.device.set_co2(200);
    assert_eq!(mgr.measure(t1).unwrap(), Concentration::PPM(55));
}

#[test]
fn test_measure_before_any_reading() {
    // The first admitted read fails on the device and caches nothing, so a
    // rate-limited read right after has no stale value to serve.
    let mut fake = FakeDevice::with_co2(100);
    fake.co2 = None;
    let mut mgr = DeviceManager::new(fake);
    assert!(matches!(mgr.measure(1000), Err(Error::Io(_))));
    assert!(matches!(
        mgr.measure(2000),
        Err(Error::StaleDataUnavailable)
    ));
}

#[test]
fn test_is_ready() {
    let fake = FakeDevice::with_co2(300);
    let mut mgr = DeviceManager::new(fake);

    // No calibrate ongoing, the device should be ready for measurements.
    assert!(mgr.is_ready());

    // Take the device for calibration.
    mgr.begin_calibration().unwrap();
    assert!(!mgr.is_ready());

    // While calibration holds the device, measurements and configuration
    // fail fast with a busy error.
    assert!(matches!(mgr.measure(1000), Err(Error::Busy)));
    assert!(matches!(mgr.elevation(), Err(Error::Busy)));
    assert!(matches!(
        mgr.configure_elevation(t6615::wire::Distance::Feet(1500)),
        Err(Error::Busy)
    ));
    assert!(matches!(mgr.begin_calibration(), Err(Error::Busy)));

    // Let the calibration finish, and make sure we've returned to the
    // ready state.
    mgr.finish_calibration();
    assert!(mgr.is_ready());
    let t1 = 1000 + MEASUREMENT_INTERVAL_MS + 1000;
    assert_eq!(mgr.measure(t1).unwrap(), Concentration::PPM(300));
}

#[test]
fn test_calibration_basic() {
    let fake = FakeDevice::with_co2(300);
    let mut mgr = DeviceManager::new(fake);

    mgr.calibrate().unwrap();

    // The device is released after the run, and the reference
    // concentration was set to the ambient concentration.
    assert!(mgr.is_ready());
    assert_eq!(
        mgr.device.reference,
        Some(Concentration::PPM(AMBIENT_PPM))
    );
}
