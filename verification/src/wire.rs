//! Core wire-protocol value types shared by the codec, the transport and the
//! device manager: payload and message framing, device registers, physical
//! quantities, and the codec's error type.

use vstd::prelude::*;

verus! {

/// A command or response body: the bytes of one protocol exchange, excluding
/// framing. Payloads that travel in a framed message must fit their length in
/// the frame's single length byte, so framing requires `len() <= 255`.
#[derive(Debug, Clone)]
pub struct Payload(pub Vec<u8>);

impl View for Payload {
    type V = Seq<u8>;

    open spec fn view(&self) -> Seq<u8> {
        self.0@
    }
}

impl Payload {
    /// The raw bytes of the payload.
    pub fn bytes(&self) -> (r: &Vec<u8>)
        ensures
            r@ == self@,
    {
        &self.0
    }

    /// The number of bytes in the payload.
    pub fn len(&self) -> (r: usize)
        ensures
            r == self@.len(),
    {
        self.0.len()
    }

    /// A fresh copy of the payload's bytes.
    pub fn to_vec(&self) -> (r: Vec<u8>)
        ensures
            r@ == self@,
    {
        let n = self.0.len();
        let mut out: Vec<u8> = Vec::new();
        let mut i: usize = 0;
        while i < n
            invariant
                n == self@.len(),
                i <= n,
                out@ == self@.take(i as int),
            decreases n - i,
        {
            out.push(self.0[i]);
            proof {
                assert(self@.take(i + 1) =~= self@.take(i as int).push(self@[i as int]));
            }
            i = i + 1;
        }
        proof {
            assert(self@.take(n as int) =~= self@);
        }
        out
    }

    /// The empty payload.
    pub fn empty() -> (r: Payload)
        ensures
            r@ == Seq::<u8>::empty(),
    {
        Payload(Vec::new())
    }
}

/// The high byte of a 16-bit value in big-endian order.
pub open spec fn be16_hi(v: u16) -> u8 {
    (v / 256) as u8
}

/// The low byte of a 16-bit value in big-endian order.
pub open spec fn be16_lo(v: u16) -> u8 {
    (v % 256) as u8
}

/// The 16-bit value read from two bytes in big-endian order.
pub open spec fn be16(hi: u8, lo: u8) -> u16 {
    (hi * 256 + lo) as u16
}

/// Splitting a 16-bit value into big-endian bytes and reading them back
/// yields the original value.
pub proof fn lemma_be16_round_trip(v: u16)
    ensures
        be16(be16_hi(v), be16_lo(v)) == v,
{
    vstd::arithmetic::div_mod::lemma_fundamental_div_mod(v as int, 256);
}

impl Default for Payload {
    /// The empty payload.
    fn default() -> (r: Payload)
        ensures
            r@ == Seq::<u8>::empty(),
    {
        Payload(Vec::new())
    }
}

impl PartialEq for Payload {
    fn eq(&self, other: &Payload) -> (r: bool) {
        let r = self.0 == other.0;
        proof {
            if r {
                assert(self.0@ =~= other.0@);
            }
        }
        r
    }
}

impl vstd::std_specs::cmp::PartialEqSpecImpl for Payload {
    open spec fn obeys_eq_spec() -> bool {
        true
    }

    open spec fn eq_spec(&self, other: &Payload) -> bool {
        self@ == other@
    }
}

/// A fully framed on-wire message: flag byte `0xFF`, outbound address byte
/// `0xFE`, one length byte, then the payload bytes.
#[derive(Debug)]
pub struct Message(Vec<u8>);

impl View for Message {
    type V = Seq<u8>;

    closed spec fn view(&self) -> Seq<u8> {
        self.0@
    }
}

impl Message {
    /// Wraps a payload in the outbound frame. The payload length must fit in
    /// the frame's single length byte.
    pub fn frame(p: &Payload) -> (m: Message)
        requires
            p@.len() <= 255,
        ensures
            m@ == seq![0xFFu8, 0xFEu8, p@.len() as u8] + p@,
    {
        let mut bs: Vec<u8> = Vec::new();
        bs.push(0xFF);
        bs.push(0xFE);
        bs.push(p.len() as u8);
        let n = p.len();
        let mut i: usize = 0;
        while i < n
            invariant
                n == p@.len() <= 255,
                i <= n,
                bs@ == seq![0xFFu8, 0xFEu8, n as u8] + p@.take(i as int),
            decreases n - i,
        {
            bs.push(p.bytes()[i]);
            proof {
                assert(p@.take(i + 1) =~= p@.take(i as int).push(p@[i as int]));
            }
            i = i + 1;
        }
        proof {
            assert(p@.take(n as int) =~= p@);
        }
        Message(bs)
    }

    /// The raw bytes of the framed message.
    pub fn bytes(&self) -> (r: &Vec<u8>)
        ensures
            r@ == self@,
    {
        &self.0
    }
}

/// A decomposed outbound request: the fixed flag and address bytes together
/// with the payload they will carry.
#[derive(Debug)]
pub struct Request {
    pub flag: u8,
    pub address: u8,
    pub payload: Payload,
}

/// An addressable device register.
#[derive(Debug, PartialEq, Eq, Structural, Clone, Copy)]
pub enum Variable {
    GasPPM,
    SerialNumber,
    CompileSubvol,
    CompileDate,
    Elevation,
}

impl Variable {
    /// The opcode byte that selects this register in a read command.
    pub open spec fn spec_opcode(self) -> u8 {
        match self {
            Variable::GasPPM => 0x03,
            Variable::SerialNumber => 0x01,
            Variable::CompileSubvol => 0x0D,
            Variable::CompileDate => 0x0C,
            Variable::Elevation => 0x0F,
        }
    }

    /// The opcode byte that selects this register in a read command.
    pub fn opcode(self) -> (r: u8)
        ensures
            r == self.spec_opcode(),
    {
        match self {
            Variable::GasPPM => 0x03,
            Variable::SerialNumber => 0x01,
            Variable::CompileSubvol => 0x0D,
            Variable::CompileDate => 0x0C,
            Variable::Elevation => 0x0F,
        }
    }
}

/// An on/off switch state carried by toggle commands.
#[derive(Debug, PartialEq, Eq, Structural, Clone, Copy)]
pub enum Toggle {
    On,
    Off,
}

/// An elevation, in feet.
#[derive(Debug, PartialEq, Eq, Structural, Clone, Copy)]
pub enum Distance {
    Feet(u16),
}

impl Distance {
    /// The magnitude of this distance in feet.
    pub open spec fn spec_feet(self) -> u16 {
        self->0
    }

    /// The magnitude of this distance in feet.
    pub fn feet(&self) -> (r: u16)
        ensures
            r == self.spec_feet(),
    {
        let Distance::Feet(f) = self;
        *f
    }
}

/// A CO2 concentration, in parts per million.
#[derive(Debug, PartialEq, Eq, Structural, Clone, Copy)]
pub enum Concentration {
    PPM(u16),
}

impl Concentration {
    /// The magnitude of this concentration in parts per million.
    pub open spec fn spec_ppm(self) -> u16 {
        self->0
    }

    /// The magnitude of this concentration in parts per million.
    pub fn ppm(&self) -> (r: u16)
        ensures
            r == self.spec_ppm(),
    {
        let Concentration::PPM(p) = self;
        *p
    }
}

/// Why a response payload could not be decoded.
#[derive(Debug, PartialEq, Eq, Structural, Clone, Copy)]
pub enum ParseError {
    /// The payload length does not match the response's schema.
    WrongLength,
    /// A discriminator byte holds a value the response type does not know.
    UnknownDiscriminant(u8),
    /// An embedded string field is not valid UTF-8.
    InvalidUtf8,
    /// An embedded date field is not a parseable calendar date.
    InvalidDate,
}

/// A calendar date, held as plain year, month and day values.
#[derive(Debug, PartialEq, Eq, Structural, Clone, Copy)]
pub struct Date {
    pub year: u16,
    pub month: u8,
    pub day: u8,
}

/// Whether `year` is a leap year in the Gregorian calendar.
pub open spec fn is_leap_year(year: int) -> bool {
    year % 4 == 0 && (year % 100 != 0 || year % 400 == 0)
}

/// The number of days in `month` of `year` in the Gregorian calendar.
pub open spec fn days_in_month(year: int, month: int) -> int {
    if month == 2 {
        if is_leap_year(year) {
            29
        } else {
            28
        }
    } else if month == 4 || month == 6 || month == 9 || month == 11 {
        30
    } else {
        31
    }
}

/// Whether year, month and day name a real Gregorian calendar date.
pub open spec fn valid_date(year: int, month: int, day: int) -> bool {
    &&& 1 <= month <= 12
    &&& 1 <= day <= days_in_month(year, month)
}

} // verus!
