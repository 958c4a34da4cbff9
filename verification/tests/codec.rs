use t6615::command;
use t6615::response;
use t6615::wire::{Concentration, Date, Distance, Payload, Toggle, Variable};

#[test]
fn test_read() {
    assert_eq!(
        command::Read(Variable::GasPPM).encode(),
        Payload(vec![0x02, 0x03]),
    );
    assert_eq!(
        command::Read(Variable::Elevation).encode(),
        Payload(vec![0x02, 0x0F]),
    );
    assert_eq!(
        command::Read(Variable::SerialNumber).encode(),
        Payload(vec![0x02, 0x01]),
    );
}

#[test]
fn test_update_elevation() {
    assert_eq!(
        command::UpdateElevation(Distance::Feet(0xAABB)).encode(),
        Payload(vec![0x03, 0x0F, 0xAA, 0xBB]),
    );
    // 1500ft seems like a normal elevation. The controller expects
    // elevation to be in 500ft increments.
    assert_eq!(
        command::UpdateElevation(Distance::Feet(1500)).encode(),
        Payload(vec![0x03, 0x0F, 0x05, 0xDC]),
    );
}

#[test]
fn test_warmup() {
    assert_eq!(command::Warmup.encode(), Payload(vec![0x84]));
}

#[test]
fn test_single_point_calibration() {
    assert_eq!(
        command::StartSinglePointCalibration.encode(),
        Payload(vec![0x9B]),
    );
    assert_eq!(
        command::VerifySinglePointCalibration.encode(),
        Payload(vec![0x02, 0x11]),
    );
    assert_eq!(
        command::SetSinglePointPPM(Concentration::PPM(0xAABB)).encode(),
        Payload(vec![0x03, 0x11, 0xAA, 0xBB]),
    );
    // 400 PPM is a common CO2 measurement.
    assert_eq!(
        command::SetSinglePointPPM(Concentration::PPM(400)).encode(),
        Payload(vec![0x03, 0x11, 0x01, 0x90]),
    );
}

#[test]
fn test_status() {
    assert_eq!(command::Status.encode(), Payload(vec![0xB6]));
}

#[test]
fn test_idle() {
    assert_eq!(command::Idle(Toggle::On).encode(), Payload(vec![0xB9, 0x01]));
    assert_eq!(command::Idle(Toggle::Off).encode(), Payload(vec![0xB9, 0x02]));
}

#[test]
fn test_abc_logic() {
    assert_eq!(command::ABCLogic.encode(), Payload(vec![0xB7, 0x00]));
    assert_eq!(
        command::SetABCLogic(Toggle::On).encode(),
        Payload(vec![0xB7, 0x01]),
    );
    assert_eq!(
        command::SetABCLogic(Toggle::Off).encode(),
        Payload(vec![0xB7, 0x02]),
    );
    assert_eq!(command::ResetABCLogic.encode(), Payload(vec![0xB7, 0x03]));
}

#[test]
fn test_halt() {
    assert_eq!(command::Halt.encode(), Payload(vec![0x95]));
}

#[test]
fn test_loopback() {
    assert_eq!(
        command::Loopback(vec![0x01, 0x02, 0x03, 0xAA]).encode(),
        Payload(vec![0x00, 0x01, 0x02, 0x03, 0xAA]),
    );
    assert_eq!(command::Loopback(vec![]).encode(), Payload(vec![0x00]));
}

#[test]
fn test_self_test() {
    assert_eq!(command::StartSelfTest.encode(), Payload(vec![0xC0, 0x00]));
    assert_eq!(command::SelfTestResults.encode(), Payload(vec![0xC0, 0x01]));
}

#[test]
fn test_stream_data() {
    assert_eq!(command::StreamData.encode(), Payload(vec![0xBD]));
}

#[test]
fn test_ack() {
    assert_eq!(response::Ack::decode(&Payload(vec![])), Ok(response::Ack));
    assert!(
        response::Ack::decode(&Payload(vec![0x0])).is_err(),
        "Only empty payload is ACK"
    );
}

#[test]
fn test_gas_ppm() {
    assert_eq!(
        response::GasPPM::decode(&Payload(vec![0xAA, 0xBB])),
        Ok(response::GasPPM(Concentration::PPM(0xAABB))),
    );
    assert_eq!(
        response::GasPPM::decode(&Payload(vec![0x01, 0x90])),
        Ok(response::GasPPM(Concentration::PPM(400))),
    );
    assert!(
        response::GasPPM::decode(&Payload(vec![0x01])).is_err(),
        "GasPPM requires 2 bytes in the payload to parse",
    );
}

#[test]
fn test_serial_number() {
    assert_eq!(
        response::SerialNumber::decode(&Payload(vec![b'a', b'b', b'c', b'd'])),
        Ok(response::SerialNumber(String::from("abcd"))),
    );
    // Make sure we strip trailing nulls.
    assert_eq!(
        response::SerialNumber::decode(&Payload(vec![b'x', 0x0, 0x0])),
        Ok(response::SerialNumber(String::from("x"))),
    );
}

#[test]
fn test_compile_subvol() {
    assert_eq!(
        response::CompileSubvol::decode(&Payload(vec![b'A', b'1', b'0'])),
        Ok(response::CompileSubvol(String::from("A10"))),
    );
}

#[test]
fn test_compile_date() {
    assert_eq!(
        response::CompileDate::decode(&Payload("060708".bytes().collect())),
        Ok(response::CompileDate(Date {
            year: 2006,
            month: 7,
            day: 8,
        })),
    );
}

#[test]
fn test_elevation() {
    assert_eq!(
        response::Elevation::decode(&Payload(vec![0xAA, 0xBB])),
        Ok(response::Elevation(Distance::Feet(0xAABB))),
    );
    assert_eq!(
        response::Elevation::decode(&Payload(vec![0x05, 0xDC])),
        Ok(response::Elevation(Distance::Feet(1500))),
    );
}

// Helper to generate a status from the byte.
fn status_of(b: u8) -> response::Status {
    response::Status::decode(&Payload(vec![b])).expect("want parse")
}

#[test]
fn wire_test_status() {
    assert!(!status_of(0b0).is_err());
    assert!(status_of(0b1).is_err());
    assert!(status_of(0b10).in_warmup());
    assert!(status_of(0b100).in_calibration());
    assert!(status_of(0b1000).in_idle());
    assert!(status_of(0b10000000).in_self_test());

    let s: response::Status = status_of(0b101);
    // Should be able to have multiple statuses.
    assert!(s.is_err() && s.in_calibration());
}

#[test]
fn test_abc_state() {
    assert_eq!(
        response::ABCState::decode(&Payload(vec![0x01])),
        Ok(response::ABCState::On),
    );
    assert_eq!(
        response::ABCState::decode(&Payload(vec![0x02])),
        Ok(response::ABCState::Off),
    );
    assert!(response::ABCState::decode(&Payload(vec![0x0])).is_err());
}

#[test]
fn wire_test_loopback() {
    assert_eq!(
        response::Loopback::decode(&Payload(vec![0xa, 0xb, 0xc])),
        Ok(response::Loopback(vec![0xa, 0xb, 0xc])),
    );
}

#[test]
fn wire_test_self_test() {
    assert!(response::SelfTest::decode(&Payload(vec![0x0F, 0x01, 12, 12]))
        .expect("should parse correctly")
        .passed());
    // Unknown status code.
    assert!(!response::SelfTest::decode(&Payload(vec![0x0, 0x01, 12, 12]))
        .expect("should parse correctly")
        .passed());
    // Failure result.
    assert!(!response::SelfTest::decode(&Payload(vec![0x0F, 0x00, 12, 12]))
        .expect("should parse correctly")
        .passed());
    // Mismatched DSP count.
    assert!(!response::SelfTest::decode(&Payload(vec![0x0F, 0x01, 11, 12]))
        .expect("should parse correctly")
        .passed());
    // Bad result code, should be 0x01 or 0x00.
    assert!(response::SelfTest::decode(&Payload(vec![0x0F, 0x03, 11, 12])).is_err());
}

#[test]
fn test_response_round_trips() {
    // Each response type that has an encoding decodes back to itself.
    assert_eq!(
        response::Ack::decode(&response::Ack.encode()),
        Ok(response::Ack),
    );
    let gas = response::GasPPM(Concentration::PPM(417));
    assert_eq!(response::GasPPM::decode(&gas.encode()), Ok(gas));
    let elev = response::Elevation(Distance::Feet(4500));
    assert_eq!(response::Elevation::decode(&elev.encode()), Ok(elev));
    let status = status_of(0b10000101);
    assert_eq!(response::Status::decode(&status.encode()), Ok(status));
}

#[test]
fn test_status_flags_round_trip() {
    let mut flags = response::StatusFlags::default();
    assert!(!flags.to_status().is_err());
    assert!(flags.to_status().is_normal());
    flags.in_err = true;
    flags.in_calibration = true;
    let s = flags.to_status();
    assert!(s.is_err());
    assert!(s.in_calibration());
    assert!(!s.in_warmup());
    assert!(!s.in_idle());
    assert!(!s.in_self_test());
    assert!(!s.is_normal());
}

#[test]
fn test_serial_number_rejects_invalid_utf8() {
    assert_eq!(
        response::SerialNumber::decode(&Payload(vec![0xFF, 0xFE])),
        Err(t6615::wire::ParseError::InvalidUtf8),
    );
    assert_eq!(
        response::SerialNumber::decode(&Payload(vec![0x41; 16])),
        Err(t6615::wire::ParseError::WrongLength),
    );
}

#[test]
fn test_compile_date_rejects_bad_dates() {
    // A digit string that is not a real calendar date.
    assert_eq!(
        response::CompileDate::decode(&Payload("060230".bytes().collect())),
        Err(t6615::wire::ParseError::InvalidDate),
    );
    // A month that does not exist.
    assert_eq!(
        response::CompileDate::decode(&Payload("061301".bytes().collect())),
        Err(t6615::wire::ParseError::InvalidDate),
    );
    // Non-digit bytes.
    assert_eq!(
        response::CompileDate::decode(&Payload("06a708".bytes().collect())),
        Err(t6615::wire::ParseError::InvalidDate),
    );
    // Wrong length.
    assert_eq!(
        response::CompileDate::decode(&Payload("0607".bytes().collect())),
        Err(t6615::wire::ParseError::WrongLength),
    );
    // A leap day in a leap year is fine.
    assert_eq!(
        response::CompileDate::decode(&Payload("080229".bytes().collect())),
        Ok(response::CompileDate(Date {
            year: 2008,
            month: 2,
            day: 29,
        })),
    );
}

#[test]
fn test_message_framing() {
    let msg = t6615::wire::Message::frame(&Payload(vec![0x02, 0x03]));
    assert_eq!(msg.bytes(), &vec![0xFF, 0xFE, 0x02, 0x02, 0x03]);
    let empty = t6615::wire::Message::frame(&Payload(vec![]));
    assert_eq!(empty.bytes(), &vec![0xFF, 0xFE, 0x00]);
}
