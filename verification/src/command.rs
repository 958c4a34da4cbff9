//! Typed commands and their encodings. Each command maps to a fixed opcode
//! byte sequence plus optional argument bytes; encoding is total and
//! deterministic.

use vstd::prelude::*;

use crate::wire::{be16_hi, be16_lo, Concentration, Distance, ParseError, Payload, Toggle, Variable};

verus! {

/// Read the value of a device register.
#[derive(Debug, PartialEq, Eq, Structural, Clone, Copy)]
pub struct Read(pub Variable);

impl Read {
    /// Encodes the command as `[0x02, opcode]`.
    pub fn encode(&self) -> (p: Payload)
        ensures
            p@ == seq![0x02u8, self.0.spec_opcode()],
    {
        let mut bs: Vec<u8> = Vec::new();
        bs.push(0x02);
        bs.push(self.0.opcode());
        proof {
            assert(bs@ =~= seq![0x02u8, self.0.spec_opcode()]);
        }
        Payload(bs)
    }
}

/// Configure the elevation the device operates at.
#[derive(Debug, PartialEq, Eq, Structural, Clone, Copy)]
pub struct UpdateElevation(pub Distance);

impl UpdateElevation {
    /// Encodes the command as `[0x03, 0x0F]` followed by the elevation in
    /// feet as a big-endian 16-bit value.
    pub fn encode(&self) -> (p: Payload)
        ensures
            p@ == seq![0x03u8, 0x0Fu8, be16_hi(self.0.spec_feet()), be16_lo(self.0.spec_feet())],
    {
        let feet = self.0.feet();
        let mut bs: Vec<u8> = Vec::new();
        bs.push(0x03);
        bs.push(0x0F);
        bs.push((feet / 256) as u8);
        bs.push((feet % 256) as u8);
        proof {
            assert(bs@ =~= seq![
                0x03u8,
                0x0Fu8,
                be16_hi(self.0.spec_feet()),
                be16_lo(self.0.spec_feet()),
            ]);
        }
        Payload(bs)
    }

    /// Decodes an update-elevation command payload back into the command.
    /// It must hold the two opcode bytes followed by exactly two value bytes.
    pub fn decode(p: &Payload) -> (r: Result<UpdateElevation, ParseError>)
        ensures
            r is Ok <==> p@.len() == 4 && p@[0] == 0x03 && p@[1] == 0x0F,
            r is Ok ==> r->Ok_0.0.spec_feet() == crate::wire::be16(p@[2], p@[3]),
    {
        let bs = p.bytes();
        if bs.len() != 4 || bs[0] != 0x03 || bs[1] != 0x0F {
            return Err(ParseError::WrongLength);
        }
        let value: u16 = (bs[2] as u16) * 256 + (bs[3] as u16);
        Ok(UpdateElevation(Distance::Feet(value)))
    }
}

/// Put the device into warmup mode.
#[derive(Debug, PartialEq, Eq, Structural, Clone, Copy)]
pub struct Warmup;

impl Warmup {
    /// Encodes the command as `[0x84]`.
    pub fn encode(&self) -> (p: Payload)
        ensures
            p@ == seq![0x84u8],
    {
        let mut bs: Vec<u8> = Vec::new();
        bs.push(0x84);
        proof {
            assert(bs@ =~= seq![0x84u8]);
        }
        Payload(bs)
    }
}

/// Begin a single-point calibration run.
#[derive(Debug, PartialEq, Eq, Structural, Clone, Copy)]
pub struct StartSinglePointCalibration;

impl StartSinglePointCalibration {
    /// Encodes the command as `[0x9B]`.
    pub fn encode(&self) -> (p: Payload)
        ensures
            p@ == seq![0x9Bu8],
    {
        let mut bs: Vec<u8> = Vec::new();
        bs.push(0x9B);
        proof {
            assert(bs@ =~= seq![0x9Bu8]);
        }
        Payload(bs)
    }
}

/// Read back the reference concentration set for single-point calibration.
#[derive(Debug, PartialEq, Eq, Structural, Clone, Copy)]
pub struct VerifySinglePointCalibration;

impl VerifySinglePointCalibration {
    /// Encodes the command as `[0x02, 0x11]`.
    pub fn encode(&self) -> (p: Payload)
        ensures
            p@ == seq![0x02u8, 0x11u8],
    {
        let mut bs: Vec<u8> = Vec::new();
        bs.push(0x02);
        bs.push(0x11);
        proof {
            assert(bs@ =~= seq![0x02u8, 0x11u8]);
        }
        Payload(bs)
    }

    /// Decodes a verify-single-point-calibration command payload: it must be
    /// exactly the two opcode bytes.
    pub fn decode(p: &Payload) -> (r: Result<VerifySinglePointCalibration, ParseError>)
        ensures
            r is Ok <==> p@.len() == 2 && p@[0] == 0x02 && p@[1] == 0x11,
    {
        let bs = p.bytes();
        if bs.len() == 2 && bs[0] == 0x02 && bs[1] == 0x11 {
            Ok(VerifySinglePointCalibration)
        } else {
            Err(ParseError::WrongLength)
        }
    }
}

/// Set the reference concentration for single-point calibration.
#[derive(Debug, PartialEq, Eq, Structural, Clone, Copy)]
pub struct SetSinglePointPPM(pub Concentration);

impl SetSinglePointPPM {
    /// Encodes the command as `[0x03, 0x11]` followed by the concentration
    /// in parts per million as a big-endian 16-bit value.
    pub fn encode(&self) -> (p: Payload)
        ensures
            p@ == seq![0x03u8, 0x11u8, be16_hi(self.0.spec_ppm()), be16_lo(self.0.spec_ppm())],
    {
        let ppm = self.0.ppm();
        let mut bs: Vec<u8> = Vec::new();
        bs.push(0x03);
        bs.push(0x11);
        bs.push((ppm / 256) as u8);
        bs.push((ppm % 256) as u8);
        proof {
            assert(bs@ =~= seq![
                0x03u8,
                0x11u8,
                be16_hi(self.0.spec_ppm()),
                be16_lo(self.0.spec_ppm()),
            ]);
        }
        Payload(bs)
    }

    /// Decodes a set-single-point-ppm command payload back into the command.
    /// It must hold the two opcode bytes followed by exactly two value bytes.
    pub fn decode(p: &Payload) -> (r: Result<SetSinglePointPPM, ParseError>)
        ensures
            r is Ok <==> p@.len() == 4 && p@[0] == 0x03 && p@[1] == 0x11,
            r is Ok ==> r->Ok_0.0.spec_ppm() == crate::wire::be16(p@[2], p@[3]),
    {
        let bs = p.bytes();
        if bs.len() != 4 || bs[0] != 0x03 || bs[1] != 0x11 {
            return Err(ParseError::WrongLength);
        }
        let value: u16 = (bs[2] as u16) * 256 + (bs[3] as u16);
        Ok(SetSinglePointPPM(Concentration::PPM(value)))
    }
}

/// Poll the device's status bitfield.
#[derive(Debug, PartialEq, Eq, Structural, Clone, Copy)]
pub struct Status;

impl Status {
    /// Encodes the command as `[0xB6]`.
    pub fn encode(&self) -> (p: Payload)
        ensures
            p@ == seq![0xB6u8],
    {
        let mut bs: Vec<u8> = Vec::new();
        bs.push(0xB6);
        proof {
            assert(bs@ =~= seq![0xB6u8]);
        }
        Payload(bs)
    }
}

/// Switch idle mode on or off.
#[derive(Debug, PartialEq, Eq, Structural, Clone, Copy)]
pub struct Idle(pub Toggle);

impl Idle {
    /// Encodes the command as `[0xB9, 0x01]` for on and `[0xB9, 0x02]` for
    /// off.
    pub fn encode(&self) -> (p: Payload)
        ensures
            p@ == seq![0xB9u8, if self.0 is On { 0x01u8 } else { 0x02u8 }],
    {
        let mut bs: Vec<u8> = Vec::new();
        bs.push(0xB9);
        match self.0 {
            Toggle::On => bs.push(0x01),
            Toggle::Off => bs.push(0x02),
        }
        proof {
            assert(bs@ =~= seq![0xB9u8, if self.0 is On { 0x01u8 } else { 0x02u8 }]);
        }
        Payload(bs)
    }
}

/// Query the automatic-baseline-correction toggle state.
#[derive(Debug, PartialEq, Eq, Structural, Clone, Copy)]
pub struct ABCLogic;

impl ABCLogic {
    /// Encodes the command as `[0xB7, 0x00]`.
    pub fn encode(&self) -> (p: Payload)
        ensures
            p@ == seq![0xB7u8, 0x00u8],
    {
        let mut bs: Vec<u8> = Vec::new();
        bs.push(0xB7);
        bs.push(0x00);
        proof {
            assert(bs@ =~= seq![0xB7u8, 0x00u8]);
        }
        Payload(bs)
    }
}

/// Switch automatic baseline correction on or off.
#[derive(Debug, PartialEq, Eq, Structural, Clone, Copy)]
pub struct SetABCLogic(pub Toggle);

impl SetABCLogic {
    /// Encodes the command as `[0xB7, 0x01]` for on and `[0xB7, 0x02]` for
    /// off.
    pub fn encode(&self) -> (p: Payload)
        ensures
            p@ == seq![0xB7u8, if self.0 is On { 0x01u8 } else { 0x02u8 }],
    {
        let mut bs: Vec<u8> = Vec::new();
        bs.push(0xB7);
        match self.0 {
            Toggle::On => bs.push(0x01),
            Toggle::Off => bs.push(0x02),
        }
        proof {
            assert(bs@ =~= seq![0xB7u8, if self.0 is On { 0x01u8 } else { 0x02u8 }]);
        }
        Payload(bs)
    }
}

/// Reset automatic baseline correction to its factory state.
#[derive(Debug, PartialEq, Eq, Structural, Clone, Copy)]
pub struct ResetABCLogic;

impl ResetABCLogic {
    /// Encodes the command as `[0xB7, 0x03]`.
    pub fn encode(&self) -> (p: Payload)
        ensures
            p@ == seq![0xB7u8, 0x03u8],
    {
        let mut bs: Vec<u8> = Vec::new();
        bs.push(0xB7);
        bs.push(0x03);
        proof {
            assert(bs@ =~= seq![0xB7u8, 0x03u8]);
        }
        Payload(bs)
    }
}

/// Halt the device.
#[derive(Debug, PartialEq, Eq, Structural, Clone, Copy)]
pub struct Halt;

impl Halt {
    /// Encodes the command as `[0x95]`.
    pub fn encode(&self) -> (p: Payload)
        ensures
            p@ == seq![0x95u8],
    {
        let mut bs: Vec<u8> = Vec::new();
        bs.push(0x95);
        proof {
            assert(bs@ =~= seq![0x95u8]);
        }
        Payload(bs)
    }
}

/// Ask the device to echo the given bytes back.
#[derive(Debug, PartialEq, Clone)]
pub struct Loopback(pub Vec<u8>);

impl Loopback {
    /// Encodes the command as `[0x00]` followed by the bytes to echo. The
    /// device accepts at most 16 bytes of echo data.
    pub fn encode(&self) -> (p: Payload)
        requires
            self.0@.len() <= 16,
        ensures
            p@ == seq![0x00u8] + self.0@,
    {
        let mut bs: Vec<u8> = Vec::new();
        bs.push(0x00);
        let n = self.0.len();
        let mut i: usize = 0;
        while i < n
            invariant
                n == self.0@.len(),
                i <= n,
                bs@ == seq![0x00u8] + self.0@.take(i as int),
            decreases n - i,
        {
            bs.push(self.0[i]);
            proof {
                assert(self.0@.take(i + 1) =~= self.0@.take(i as int).push(self.0@[i as int]));
            }
            i = i + 1;
        }
        proof {
            assert(self.0@.take(n as int) =~= self.0@);
        }
        Payload(bs)
    }
}

/// Start the device's self test.
#[derive(Debug, PartialEq, Eq, Structural, Clone, Copy)]
pub struct StartSelfTest;

impl StartSelfTest {
    /// Encodes the command as `[0xC0, 0x00]`.
    pub fn encode(&self) -> (p: Payload)
        ensures
            p@ == seq![0xC0u8, 0x00u8],
    {
        let mut bs: Vec<u8> = Vec::new();
        bs.push(0xC0);
        bs.push(0x00);
        proof {
            assert(bs@ =~= seq![0xC0u8, 0x00u8]);
        }
        Payload(bs)
    }
}

/// Fetch the results of the last self test.
#[derive(Debug, PartialEq, Eq, Structural, Clone, Copy)]
pub struct SelfTestResults;

impl SelfTestResults {
    /// Encodes the command as `[0xC0, 0x01]`.
    pub fn encode(&self) -> (p: Payload)
        ensures
            p@ == seq![0xC0u8, 0x01u8],
    {
        let mut bs: Vec<u8> = Vec::new();
        bs.push(0xC0);
        bs.push(0x01);
        proof {
            assert(bs@ =~= seq![0xC0u8, 0x01u8]);
        }
        Payload(bs)
    }
}

/// Put the device into streaming-data mode.
#[derive(Debug, PartialEq, Eq, Structural, Clone, Copy)]
pub struct StreamData;

impl StreamData {
    /// Encodes the command as `[0xBD]`.
    pub fn encode(&self) -> (p: Payload)
        ensures
            p@ == seq![0xBDu8],
    {
        let mut bs: Vec<u8> = Vec::new();
        bs.push(0xBD);
        proof {
            assert(bs@ =~= seq![0xBDu8]);
        }
        Payload(bs)
    }
}

} // verus!
