//! Typed responses and their decodings. Each response type is decoded from a
//! payload of a command-specific expected shape; decoding fails with a
//! [`ParseError`] when the length or content does not match that shape.

use vstd::prelude::*;
use vstd::utf8::{decode_utf8, valid_utf8};

use crate::wire::{
    be16, be16_hi, be16_lo, valid_date, Concentration, Date, Distance, ParseError, Payload,
};

verus! {

/// A bare acknowledgement: an empty payload.
#[derive(Debug, PartialEq, Eq, Structural, Clone, Copy)]
pub struct Ack;

/// The acknowledgement read from a payload: defined exactly on the empty
/// payload.
pub open spec fn ack_decoded(s: Seq<u8>) -> Option<Ack> {
    if s.len() == 0 {
        Some(Ack)
    } else {
        None
    }
}

impl Ack {
    /// Decodes an acknowledgement; only the empty payload is one.
    pub fn decode(p: &Payload) -> (r: Result<Ack, ParseError>)
        ensures
            r is Ok <==> ack_decoded(p@) is Some,
            r is Err ==> r->Err_0 == ParseError::WrongLength,
    {
        if p.len() != 0 {
            return Err(ParseError::WrongLength);
        }
        Ok(Ack)
    }

    /// Encodes the acknowledgement as the empty payload.
    pub fn encode(&self) -> (p: Payload)
        ensures
            p@ == Seq::<u8>::empty(),
    {
        Payload::empty()
    }
}

/// Law: an encoded acknowledgement decodes back to the acknowledgement.
pub proof fn lemma_ack_round_trip()
    ensures
        ack_decoded(Seq::<u8>::empty()) == Some(Ack),
{
}

/// A gas concentration reading.
#[derive(Debug, PartialEq, Eq, Structural, Clone, Copy)]
pub struct GasPPM(pub Concentration);

/// The encoding of a gas concentration reading: the magnitude as a
/// big-endian 16-bit value.
pub open spec fn gas_ppm_encoding(c: Concentration) -> Seq<u8> {
    seq![be16_hi(c.spec_ppm()), be16_lo(c.spec_ppm())]
}

/// The gas concentration read from a payload: defined exactly on two-byte
/// payloads, big-endian.
pub open spec fn gas_ppm_decoded(s: Seq<u8>) -> Option<Concentration> {
    if s.len() == 2 {
        Some(Concentration::PPM(be16(s[0], s[1])))
    } else {
        None
    }
}

impl GasPPM {
    /// A reading of the given magnitude in parts per million.
    pub fn with_ppm(p: u16) -> (r: GasPPM)
        ensures
            r.0 == Concentration::PPM(p),
    {
        GasPPM(Concentration::PPM(p))
    }

    /// The concentration this reading holds.
    pub fn concentration(&self) -> (r: Concentration)
        ensures
            r == self.0,
    {
        self.0
    }

    /// Decodes a gas concentration reading from exactly two big-endian
    /// bytes.
    pub fn decode(p: &Payload) -> (r: Result<GasPPM, ParseError>)
        ensures
            r is Ok <==> gas_ppm_decoded(p@) is Some,
            r is Ok ==> Some(r->Ok_0.0) == gas_ppm_decoded(p@),
            r is Err ==> r->Err_0 == ParseError::WrongLength,
    {
        let bs = p.bytes();
        if bs.len() != 2 {
            return Err(ParseError::WrongLength);
        }
        let value: u16 = (bs[0] as u16) * 256 + (bs[1] as u16);
        Ok(GasPPM(Concentration::PPM(value)))
    }

    /// Encodes the reading as two big-endian bytes.
    pub fn encode(&self) -> (p: Payload)
        ensures
            p@ == gas_ppm_encoding(self.0),
    {
        let ppm = self.0.ppm();
        let mut bs: Vec<u8> = Vec::new();
        bs.push((ppm / 256) as u8);
        bs.push((ppm % 256) as u8);
        proof {
            assert(bs@ =~= gas_ppm_encoding(self.0));
        }
        Payload(bs)
    }
}

/// Law: an encoded gas concentration reading decodes back to the original
/// concentration.
pub proof fn lemma_gas_ppm_round_trip(c: Concentration)
    ensures
        gas_ppm_decoded(gas_ppm_encoding(c)) == Some(c),
{
    crate::wire::lemma_be16_round_trip(c.spec_ppm());
}

/// The configured elevation reported by the device.
#[derive(Debug, PartialEq, Eq, Structural, Clone, Copy)]
pub struct Elevation(pub Distance);

/// The encoding of an elevation report: the magnitude in feet as a
/// big-endian 16-bit value.
pub open spec fn elevation_encoding(d: Distance) -> Seq<u8> {
    seq![be16_hi(d.spec_feet()), be16_lo(d.spec_feet())]
}

/// The elevation read from a payload: defined exactly on two-byte payloads,
/// big-endian.
pub open spec fn elevation_decoded(s: Seq<u8>) -> Option<Distance> {
    if s.len() == 2 {
        Some(Distance::Feet(be16(s[0], s[1])))
    } else {
        None
    }
}

impl Elevation {
    /// Decodes an elevation report from exactly two big-endian bytes.
    pub fn decode(p: &Payload) -> (r: Result<Elevation, ParseError>)
        ensures
            r is Ok <==> elevation_decoded(p@) is Some,
            r is Ok ==> Some(r->Ok_0.0) == elevation_decoded(p@),
            r is Err ==> r->Err_0 == ParseError::WrongLength,
    {
        let bs = p.bytes();
        if bs.len() != 2 {
            return Err(ParseError::WrongLength);
        }
        let value: u16 = (bs[0] as u16) * 256 + (bs[1] as u16);
        Ok(Elevation(Distance::Feet(value)))
    }

    /// Encodes the report as two big-endian bytes.
    pub fn encode(&self) -> (p: Payload)
        ensures
            p@ == elevation_encoding(self.0),
    {
        let feet = self.0.feet();
        let mut bs: Vec<u8> = Vec::new();
        bs.push((feet / 256) as u8);
        bs.push((feet % 256) as u8);
        proof {
            assert(bs@ =~= elevation_encoding(self.0));
        }
        Payload(bs)
    }
}

/// Law: an encoded elevation report decodes back to the original distance.
pub proof fn lemma_elevation_round_trip(d: Distance)
    ensures
        elevation_decoded(elevation_encoding(d)) == Some(d),
{
    crate::wire::lemma_be16_round_trip(d.spec_feet());
}

/// Whether bit `idx` (zero-indexed from the least significant end) is set in
/// `v`.
pub open spec fn spec_bit(v: u8, idx: u8) -> bool
    recommends
        idx < 8,
{
    (v >> idx) & 1 == 1
}

/// Reads the true/false status of a bit in the given byte. `idx` is a
/// zero-index where 0 is the least significant bit.
pub fn bit_at(v: u8, idx: u8) -> (r: bool)
    requires
        idx < 8,
    ensures
        r == spec_bit(v, idx),
{
    (v >> idx) & 1 == 1
}

/// The byte with bit `idx` set when `v` holds, and the zero byte otherwise.
pub open spec fn spec_set_bit(v: bool, idx: u8) -> u8
    recommends
        idx < 8,
{
    if v {
        1u8 << idx
    } else {
        0u8
    }
}

/// Builds a byte with bit `idx` set exactly when `v` holds.
pub fn set_bit_at(v: bool, idx: u8) -> (r: u8)
    requires
        idx < 8,
    ensures
        r == spec_set_bit(v, idx),
{
    if !v {
        return 0;
    }
    1u8 << idx
}

/// Whether a status byte reports normal operation: no error, warmup,
/// calibration or self-test bit set.
pub open spec fn spec_is_normal(v: u8) -> bool {
    &&& !spec_bit(v, 0)
    &&& !spec_bit(v, 1)
    &&& !spec_bit(v, 2)
    &&& !spec_bit(v, 7)
}

/// The status byte read from a payload: defined exactly on one-byte
/// payloads.
pub open spec fn status_decoded(s: Seq<u8>) -> Option<u8> {
    if s.len() == 1 {
        Some(s[0])
    } else {
        None
    }
}

/// The device status bitfield. Bits are independently settable; several may
/// be set simultaneously.
#[derive(Debug, PartialEq, Eq, Structural, Clone, Copy)]
pub struct Status {
    v: u8,
}

impl Status {
    /// The raw status byte.
    pub closed spec fn byte(self) -> u8 {
        self.v
    }

    /// Decodes a status bitfield from exactly one byte.
    pub fn decode(p: &Payload) -> (r: Result<Status, ParseError>)
        ensures
            r is Ok <==> status_decoded(p@) is Some,
            r is Ok ==> Some(r->Ok_0.byte()) == status_decoded(p@),
            r is Err ==> r->Err_0 == ParseError::WrongLength,
    {
        let bs = p.bytes();
        if bs.len() != 1 {
            return Err(ParseError::WrongLength);
        }
        Ok(Status { v: bs[0] })
    }

    /// Encodes the bitfield as its single byte.
    pub fn encode(&self) -> (p: Payload)
        ensures
            p@ == seq![self.byte()],
    {
        let mut bs: Vec<u8> = Vec::new();
        bs.push(self.v);
        proof {
            assert(bs@ =~= seq![self.byte()]);
        }
        Payload(bs)
    }

    /// The raw status byte.
    pub fn byte_value(&self) -> (r: u8)
        ensures
            r == self.byte(),
    {
        self.v
    }

    /// Whether the error bit (bit 0) is set.
    pub fn is_err(&self) -> (r: bool)
        ensures
            r == spec_bit(self.byte(), 0),
    {
        bit_at(self.v, 0)
    }

    /// Whether the warmup bit (bit 1) is set.
    pub fn in_warmup(&self) -> (r: bool)
        ensures
            r == spec_bit(self.byte(), 1),
    {
        bit_at(self.v, 1)
    }

    /// Whether the calibration bit (bit 2) is set.
    pub fn in_calibration(&self) -> (r: bool)
        ensures
            r == spec_bit(self.byte(), 2),
    {
        bit_at(self.v, 2)
    }

    /// Whether the idle bit (bit 3) is set.
    pub fn in_idle(&self) -> (r: bool)
        ensures
            r == spec_bit(self.byte(), 3),
    {
        bit_at(self.v, 3)
    }

    /// Whether the self-test bit (bit 7) is set.
    pub fn in_self_test(&self) -> (r: bool)
        ensures
            r == spec_bit(self.byte(), 7),
    {
        bit_at(self.v, 7)
    }

    /// Whether the device reports normal operation: no error, warmup,
    /// calibration or self-test bit set.
    pub fn is_normal(&self) -> (r: bool)
        ensures
            r == spec_is_normal(self.byte()),
    {
        !self.is_err() && !self.in_warmup() && !self.in_calibration() && !self.in_self_test()
    }
}

/// Law: an encoded status bitfield decodes back to the original byte.
pub proof fn lemma_status_round_trip(b: u8)
    ensures
        status_decoded(seq![b]) == Some(b),
{
}

/// A status bitfield taken apart into one boolean per flag.
#[derive(Debug, PartialEq, Eq, Structural, Clone, Copy)]
pub struct StatusFlags {
    pub in_err: bool,
    pub in_warmup: bool,
    pub in_calibration: bool,
    pub in_idle: bool,
    pub in_self_test: bool,
}

/// The status byte assembled from separate flags.
pub open spec fn flags_byte(sf: StatusFlags) -> u8 {
    spec_set_bit(sf.in_err, 0) | spec_set_bit(sf.in_warmup, 1) | spec_set_bit(sf.in_calibration, 2)
        | spec_set_bit(sf.in_idle, 3) | spec_set_bit(sf.in_self_test, 7)
}

impl Default for StatusFlags {
    /// All flags clear.
    fn default() -> (r: StatusFlags)
        ensures
            r == (StatusFlags {
                in_err: false,
                in_warmup: false,
                in_calibration: false,
                in_idle: false,
                in_self_test: false,
            }),
    {
        StatusFlags {
            in_err: false,
            in_warmup: false,
            in_calibration: false,
            in_idle: false,
            in_self_test: false,
        }
    }
}

impl StatusFlags {
    /// Assembles the status bitfield that sets exactly these flags.
    pub fn to_status(&self) -> (s: Status)
        ensures
            s.byte() == flags_byte(*self),
    {
        let b = set_bit_at(self.in_err, 0) | set_bit_at(self.in_warmup, 1)
            | set_bit_at(self.in_calibration, 2) | set_bit_at(self.in_idle, 3)
            | set_bit_at(self.in_self_test, 7);
        Status { v: b }
    }
}

/// Law: each flag can be read back from the assembled status byte through
/// the matching bit, independently of the other flags.
pub proof fn lemma_flags_byte_bits(sf: StatusFlags)
    ensures
        spec_bit(flags_byte(sf), 0) == sf.in_err,
        spec_bit(flags_byte(sf), 1) == sf.in_warmup,
        spec_bit(flags_byte(sf), 2) == sf.in_calibration,
        spec_bit(flags_byte(sf), 3) == sf.in_idle,
        spec_bit(flags_byte(sf), 7) == sf.in_self_test,
{
    let e = spec_set_bit(sf.in_err, 0);
    let w = spec_set_bit(sf.in_warmup, 1);
    let c = spec_set_bit(sf.in_calibration, 2);
    let i = spec_set_bit(sf.in_idle, 3);
    let t = spec_set_bit(sf.in_self_test, 7);
    assert(1u8 << 0 == 1 && 1u8 << 1 == 2 && 1u8 << 2 == 4 && 1u8 << 3 == 8 && 1u8 << 7 == 128)
        by (bit_vector);
    assert((((e | w | c | i | t) >> 0) & 1 == 1) == (e == 1)) by (bit_vector)
        requires
            e == 0 || e == 1,
            w == 0 || w == 2,
            c == 0 || c == 4,
            i == 0 || i == 8,
            t == 0 || t == 128,
    ;
    assert((((e | w | c | i | t) >> 1) & 1 == 1) == (w == 2)) by (bit_vector)
        requires
            e == 0 || e == 1,
            w == 0 || w == 2,
            c == 0 || c == 4,
            i == 0 || i == 8,
            t == 0 || t == 128,
    ;
    assert((((e | w | c | i | t) >> 2) & 1 == 1) == (c == 4)) by (bit_vector)
        requires
            e == 0 || e == 1,
            w == 0 || w == 2,
            c == 0 || c == 4,
            i == 0 || i == 8,
            t == 0 || t == 128,
    ;
    assert((((e | w | c | i | t) >> 3) & 1 == 1) == (i == 8)) by (bit_vector)
        requires
            e == 0 || e == 1,
            w == 0 || w == 2,
            c == 0 || c == 4,
            i == 0 || i == 8,
            t == 0 || t == 128,
    ;
    assert((((e | w | c | i | t) >> 7) & 1 == 1) == (t == 128)) by (bit_vector)
        requires
            e == 0 || e == 1,
            w == 0 || w == 2,
            c == 0 || c == 4,
            i == 0 || i == 8,
            t == 0 || t == 128,
    ;
}

/// Converts a byte vector to a string. Relies on `String::from_utf8`: it
/// succeeds exactly on valid UTF-8 input, and the resulting string holds the
/// characters those bytes encode.
#[verifier::external_body]
fn string_from_utf8(bytes: Vec<u8>) -> (r: Option<String>)
    ensures
        r is Some <==> valid_utf8(bytes@),
        r is Some ==> r->0@ == decode_utf8(bytes@),
{
    String::from_utf8(bytes).ok()
}

/// The prefix of a byte sequence up to (and excluding) its first `0x00`
/// byte, or the whole sequence when it holds none.
pub open spec fn nul_prefix(s: Seq<u8>) -> Seq<u8>
    decreases s.len(),
{
    if s.len() == 0 {
        s
    } else if s[0] == 0 {
        Seq::empty()
    } else {
        seq![s[0]] + nul_prefix(s.skip(1))
    }
}

/// When the first `i` bytes are nonzero and byte `i` (if any) is zero, the
/// nul-terminated prefix is exactly the first `i` bytes.
proof fn lemma_nul_prefix_take(s: Seq<u8>, i: int)
    requires
        0 <= i <= s.len(),
        forall|j: int| 0 <= j < i ==> s[j] != 0,
        i == s.len() || s[i] == 0,
    ensures
        nul_prefix(s) == s.take(i),
    decreases s.len(),
{
    if s.len() == 0 {
        assert(s.take(0) =~= s);
    } else if i == 0 {
        assert(s.take(0) =~= Seq::<u8>::empty());
    } else {
        lemma_nul_prefix_take(s.skip(1), i - 1);
        assert(seq![s[0]] + s.skip(1).take(i - 1) =~= s.take(i));
    }
}

/// The device's serial number, read as a nul-terminated string.
#[derive(Debug)]
pub struct SerialNumber(pub String);

impl SerialNumber {
    /// Decodes a serial number: at most 15 bytes, of which the prefix before
    /// the first `0x00` byte must be valid UTF-8.
    pub fn decode(p: &Payload) -> (r: Result<SerialNumber, ParseError>)
        ensures
            p@.len() > 15 ==> r == Err::<SerialNumber, ParseError>(ParseError::WrongLength),
            p@.len() <= 15 && valid_utf8(nul_prefix(p@)) ==> r is Ok && r->Ok_0.0@ == decode_utf8(
                nul_prefix(p@),
            ),
            p@.len() <= 15 && !valid_utf8(nul_prefix(p@)) ==> r == Err::<SerialNumber, ParseError>(
                ParseError::InvalidUtf8,
            ),
    {
        let bs = p.bytes();
        if bs.len() > 15 {
            return Err(ParseError::WrongLength);
        }
        let n = bs.len();
        let mut prefix: Vec<u8> = Vec::new();
        let mut i: usize = 0;
        while i < n && bs[i] != 0
            invariant
                n == p@.len(),
                i <= n,
                bs@ == p@,
                prefix@ == p@.take(i as int),
                forall|j: int| 0 <= j < i ==> p@[j] != 0,
            decreases n - i,
        {
            prefix.push(bs[i]);
            proof {
                assert(p@.take(i + 1) =~= p@.take(i as int).push(p@[i as int]));
            }
            i = i + 1;
        }
        proof {
            lemma_nul_prefix_take(p@, i as int);
        }
        match string_from_utf8(prefix) {
            Some(s) => Ok(SerialNumber(s)),
            None => Err(ParseError::InvalidUtf8),
        }
    }
}

impl PartialEq for SerialNumber {
    fn eq(&self, other: &SerialNumber) -> (r: bool) {
        self.0 == other.0
    }
}

impl vstd::std_specs::cmp::PartialEqSpecImpl for SerialNumber {
    open spec fn obeys_eq_spec() -> bool {
        true
    }

    open spec fn eq_spec(&self, other: &SerialNumber) -> bool {
        self.0@ == other.0@
    }
}

/// The compile subvolume identifier reported by the device.
#[derive(Debug)]
pub struct CompileSubvol(pub String);

impl CompileSubvol {
    /// Decodes a compile subvolume: exactly 3 bytes of valid UTF-8.
    pub fn decode(p: &Payload) -> (r: Result<CompileSubvol, ParseError>)
        ensures
            p@.len() != 3 ==> r == Err::<CompileSubvol, ParseError>(ParseError::WrongLength),
            p@.len() == 3 && valid_utf8(p@) ==> r is Ok && r->Ok_0.0@ == decode_utf8(p@),
            p@.len() == 3 && !valid_utf8(p@) ==> r == Err::<CompileSubvol, ParseError>(
                ParseError::InvalidUtf8,
            ),
    {
        if p.len() != 3 {
            return Err(ParseError::WrongLength);
        }
        match string_from_utf8(p.to_vec()) {
            Some(s) => Ok(CompileSubvol(s)),
            None => Err(ParseError::InvalidUtf8),
        }
    }
}

impl PartialEq for CompileSubvol {
    fn eq(&self, other: &CompileSubvol) -> (r: bool) {
        self.0 == other.0
    }
}

impl vstd::std_specs::cmp::PartialEqSpecImpl for CompileSubvol {
    open spec fn obeys_eq_spec() -> bool {
        true
    }

    open spec fn eq_spec(&self, other: &CompileSubvol) -> bool {
        self.0@ == other.0@
    }
}

/// Checks that year, month and day name a real calendar date. Relies on
/// `chrono::NaiveDate::from_ymd_opt`, which returns `Some` exactly on valid
/// Gregorian dates; the years admitted here are well inside chrono's range.
#[verifier::external_body]
fn ymd_is_valid(year: u16, month: u8, day: u8) -> (r: bool)
    requires
        2000 <= year <= 2099,
    ensures
        r == valid_date(year as int, month as int, day as int),
{
    chrono::NaiveDate::from_ymd_opt(year as i32, month as u32, day as u32).is_some()
}

/// Whether `b` is the ASCII code of a decimal digit.
pub open spec fn is_digit(b: u8) -> bool {
    48 <= b <= 57
}

/// The value of a two-digit ASCII number.
pub open spec fn two_digit(hi: u8, lo: u8) -> int
    recommends
        is_digit(hi),
        is_digit(lo),
{
    (hi - 48) * 10 + (lo - 48)
}

/// Whether a six-byte payload holds only ASCII digits.
pub open spec fn all_digits(s: Seq<u8>) -> bool {
    forall|i: int| 0 <= i < s.len() ==> is_digit(#[trigger] s[i])
}

/// The year encoded by a `yymmdd` payload; two-digit years are taken to lie
/// in the 2000s.
pub open spec fn date_year(s: Seq<u8>) -> int {
    2000 + two_digit(s[0], s[1])
}

/// The month encoded by a `yymmdd` payload.
pub open spec fn date_month(s: Seq<u8>) -> int {
    two_digit(s[2], s[3])
}

/// The day encoded by a `yymmdd` payload.
pub open spec fn date_day(s: Seq<u8>) -> int {
    two_digit(s[4], s[5])
}

/// The firmware compile date reported by the device.
#[derive(Debug, PartialEq, Eq, Structural, Clone, Copy)]
pub struct CompileDate(pub Date);

impl CompileDate {
    /// Decodes a compile date: exactly six ASCII digit bytes read as
    /// `yymmdd`, which must name a real calendar date in the 2000s.
    pub fn decode(p: &Payload) -> (r: Result<CompileDate, ParseError>)
        ensures
            p@.len() != 6 ==> r == Err::<CompileDate, ParseError>(ParseError::WrongLength),
            p@.len() == 6 && !all_digits(p@) ==> r == Err::<CompileDate, ParseError>(
                ParseError::InvalidDate,
            ),
            p@.len() == 6 && all_digits(p@) && !valid_date(
                date_year(p@),
                date_month(p@),
                date_day(p@),
            ) ==> r == Err::<CompileDate, ParseError>(ParseError::InvalidDate),
            p@.len() == 6 && all_digits(p@) && valid_date(
                date_year(p@),
                date_month(p@),
                date_day(p@),
            ) ==> r == Ok::<CompileDate, ParseError>(CompileDate(Date {
                year: date_year(p@) as u16,
                month: date_month(p@) as u8,
                day: date_day(p@) as u8,
            })),
    {
        let bs = p.bytes();
        if bs.len() != 6 {
            return Err(ParseError::WrongLength);
        }
        let mut i: usize = 0;
        while i < 6
            invariant
                bs@ == p@,
                p@.len() == 6,
                i <= 6,
                forall|j: int| 0 <= j < i ==> is_digit(#[trigger] p@[j]),
            decreases 6 - i,
        {
            if bs[i] < 48 || bs[i] > 57 {
                return Err(ParseError::InvalidDate);
            }
            i = i + 1;
        }
        let year: u16 = 2000 + (bs[0] - 48) as u16 * 10 + (bs[1] - 48) as u16;
        let month: u8 = (bs[2] - 48) * 10 + (bs[3] - 48);
        let day: u8 = (bs[4] - 48) * 10 + (bs[5] - 48);
        if !ymd_is_valid(year, month, day) {
            return Err(ParseError::InvalidDate);
        }
        Ok(CompileDate(Date { year, month, day }))
    }
}

/// The automatic-baseline-correction toggle state the device reports.
#[derive(Debug, PartialEq, Eq, Structural, Clone, Copy)]
pub enum ABCState {
    On,
    Off,
}

impl ABCState {
    /// Decodes the toggle state from exactly one byte: `0x01` is on, `0x02`
    /// is off, and any other value is a parse error.
    pub fn decode(p: &Payload) -> (r: Result<ABCState, ParseError>)
        ensures
            p@.len() != 1 ==> r == Err::<ABCState, ParseError>(ParseError::WrongLength),
            p@.len() == 1 && p@[0] == 1 ==> r == Ok::<ABCState, ParseError>(ABCState::On),
            p@.len() == 1 && p@[0] == 2 ==> r == Ok::<ABCState, ParseError>(ABCState::Off),
            p@.len() == 1 && p@[0] != 1 && p@[0] != 2 ==> r == Err::<ABCState, ParseError>(
                ParseError::UnknownDiscriminant(p@[0]),
            ),
    {
        let bs = p.bytes();
        if bs.len() != 1 {
            return Err(ParseError::WrongLength);
        }
        match bs[0] {
            0x1 => Ok(ABCState::On),
            0x2 => Ok(ABCState::Off),
            unk => Err(ParseError::UnknownDiscriminant(unk)),
        }
    }
}

/// The bytes the device echoed back from a loopback command.
#[derive(Debug)]
pub struct Loopback(pub Vec<u8>);

impl Loopback {
    /// Decodes an echo reply; every payload is one, carrying its bytes
    /// unchanged.
    pub fn decode(p: &Payload) -> (r: Result<Loopback, ParseError>)
        ensures
            r is Ok,
            r->Ok_0.0@ == p@,
    {
        Ok(Loopback(p.to_vec()))
    }
}

/// Whether the device recognized the status field of a self-test reply.
#[derive(Debug, PartialEq, Eq, Structural, Clone, Copy)]
pub enum SelfTestStatus {
    Unknown,
    Recognized,
}

/// The pass/fail field of a self-test reply.
#[derive(Debug, PartialEq, Eq, Structural, Clone, Copy)]
pub enum TestResult {
    Pass,
    Fail,
}

/// The outcome of a device self test.
#[derive(Debug, PartialEq, Eq, Structural, Clone, Copy)]
pub struct SelfTest {
    pub status: SelfTestStatus,
    pub result: TestResult,
    pub good_dsp: u8,
    pub total_dsp: u8,
}

impl SelfTest {
    /// Decodes a self-test reply from exactly four bytes: a status byte
    /// (`0x0F` means recognized), a result byte (`0x01` pass, `0x00` fail,
    /// anything else a parse error), and the good and total DSP cycle
    /// counts.
    pub fn decode(p: &Payload) -> (r: Result<SelfTest, ParseError>)
        ensures
            p@.len() != 4 ==> r == Err::<SelfTest, ParseError>(ParseError::WrongLength),
            p@.len() == 4 && p@[1] != 0 && p@[1] != 1 ==> r == Err::<SelfTest, ParseError>(
                ParseError::UnknownDiscriminant(p@[1]),
            ),
            p@.len() == 4 && (p@[1] == 0 || p@[1] == 1) ==> r == Ok::<SelfTest, ParseError>(
                SelfTest {
                    status: if p@[0] == 0x0F {
                        SelfTestStatus::Recognized
                    } else {
                        SelfTestStatus::Unknown
                    },
                    result: if p@[1] == 1 {
                        TestResult::Pass
                    } else {
                        TestResult::Fail
                    },
                    good_dsp: p@[2],
                    total_dsp: p@[3],
                },
            ),
    {
        let bs = p.bytes();
        if bs.len() != 4 {
            return Err(ParseError::WrongLength);
        }
        let status = if bs[0] == 0x0F {
            SelfTestStatus::Recognized
        } else {
            SelfTestStatus::Unknown
        };
        let result = match bs[1] {
            0x01 => TestResult::Pass,
            0x00 => TestResult::Fail,
            unk => {
                return Err(ParseError::UnknownDiscriminant(unk));
            },
        };
        Ok(SelfTest { status, result, good_dsp: bs[2], total_dsp: bs[3] })
    }

    /// Whether the self test passed: the status was recognized, the result
    /// was a pass, and every DSP cycle was good.
    pub fn passed(&self) -> (r: bool)
        ensures
            r == (self.status is Recognized && self.result is Pass && self.good_dsp
                == self.total_dsp),
    {
        self.status == SelfTestStatus::Recognized && self.result == TestResult::Pass
            && self.good_dsp == self.total_dsp
    }

    /// The total number of DSP cycles the test ran.
    pub fn total_dsp_cycles(&self) -> (r: u8)
        ensures
            r == self.total_dsp,
    {
        self.total_dsp
    }
}

impl PartialEq for Loopback {
    fn eq(&self, other: &Loopback) -> (r: bool) {
        let r = self.0 == other.0;
        proof {
            if r {
                assert(self.0@ =~= other.0@);
            }
        }
        r
    }
}

impl vstd::std_specs::cmp::PartialEqSpecImpl for Loopback {
    open spec fn obeys_eq_spec() -> bool {
        true
    }

    open spec fn eq_spec(&self, other: &Loopback) -> bool {
        self.0@ == other.0@
    }
}

} // verus!
