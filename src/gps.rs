//! NMEA GGA sentences from a GPS receiver, split into their ASCII fields
use arrayvec::{ArrayVec, CapacityError};
use core::num::{ParseFloatError, ParseIntError};
use core::str::Utf8Error;
use vstd::prelude::*;

verus! {

#[verifier::external_type_specification]
#[verifier::external_body]
#[verifier::reject_recursive_types(T)]
pub struct ExArrayVec<T, const CAP: usize>(ArrayVec<T, CAP>);

#[verifier::external_type_specification]
#[verifier::external_body]
#[verifier::reject_recursive_types(T)]
pub struct ExCapacityError<T>(CapacityError<T>);

/// The digits held by a satellite-count field
pub uninterp spec fn satellite_digits(field: ArrayVec<u8, 2>) -> Seq<u8>;

/// The characters held by an altitude field
pub uninterp spec fn altitude_chars(field: ArrayVec<u8, 7>) -> Seq<u8>;

/// Relies on `arrayvec::ArrayVec::new`: a new vector holds nothing.
#[verifier::external_body]
fn satellites_new() -> (r: ArrayVec<u8, 2>)
    ensures
        satellite_digits(r) == Seq::<u8>::empty(),
{
    ArrayVec::new()
}

/// Relies on `arrayvec::ArrayVec::try_extend_from_slice`: appends all of `digits` when they fit into the
/// remaining capacity, and otherwise fails and leaves the vector as it was.
#[verifier::external_body]
fn satellites_extend(field: &mut ArrayVec<u8, 2>, digits: &[u8]) -> (r: Result<(), CapacityError>)
    ensures
        r is Ok <==> satellite_digits(*old(field)).len() + digits@.len() <= 2,
        r is Ok ==> satellite_digits(*final(field)) == satellite_digits(*old(field)) + digits@,
        r is Err ==> satellite_digits(*final(field)) == satellite_digits(*old(field)),
{
    field.try_extend_from_slice(digits)
}

/// Relies on `arrayvec::ArrayVec::as_slice`: the slice of the elements held.
#[verifier::external_body]
fn satellites_slice(field: &ArrayVec<u8, 2>) -> (r: &[u8])
    ensures
        r@ == satellite_digits(*field),
{
    field.as_slice()
}

/// Relies on `arrayvec::ArrayVec::new`: a new vector holds nothing.
#[verifier::external_body]
fn altitude_new() -> (r: ArrayVec<u8, 7>)
    ensures
        altitude_chars(r) == Seq::<u8>::empty(),
{
    ArrayVec::new()
}

/// Relies on `arrayvec::ArrayVec::try_extend_from_slice`: appends all of `chars` when they fit into the
/// remaining capacity, and otherwise fails and leaves the vector as it was.
#[verifier::external_body]
fn altitude_extend(field: &mut ArrayVec<u8, 7>, chars: &[u8]) -> (r: Result<(), CapacityError>)
    ensures
        r is Ok <==> altitude_chars(*old(field)).len() + chars@.len() <= 7,
        r is Ok ==> altitude_chars(*final(field)) == altitude_chars(*old(field)) + chars@,
        r is Err ==> altitude_chars(*final(field)) == altitude_chars(*old(field)),
{
    field.try_extend_from_slice(chars)
}

/// Relies on `arrayvec::ArrayVec::as_slice`: the slice of the elements held.
#[verifier::external_body]
fn altitude_slice(field: &ArrayVec<u8, 7>) -> (r: &[u8])
    ensures
        r@ == altitude_chars(*field),
{
    field.as_slice()
}

/// The field separator of NMEA sentences
pub const COMMA: u8 = 0x2C;

/// The number of comma-separated sections in a GGA sentence
pub const GGA_SECTIONS: usize = 15;

/// Why a GGA sentence could not be split into its fields
#[derive(Debug, Clone, Copy, PartialEq, Eq, Structural)]
pub enum GgaParseError {
    /// The sentence does not have 15 comma-separated sections
    WrongSectionCount,
    /// The sentence's checksum does not match
    InvalidChecksum,
    /// A section is too long or too short for its field
    WrongSectionLength,
}

/// The positions of the commas in a sentence, in order
pub open spec fn comma_positions(message: Seq<u8>) -> Seq<int>
    decreases message.len(),
{
    if message.len() == 0 {
        Seq::empty()
    } else if message.last() == COMMA {
        comma_positions(message.drop_last()).push(message.len() - 1)
    } else {
        comma_positions(message.drop_last())
    }
}

/// The number of sections between commas, counting empty ones
pub open spec fn section_count(message: Seq<u8>) -> int {
    comma_positions(message).len() + 1 as int
}

/// Section `k` of a sentence: the bytes between the `k`-th comma and the next one (or the ends)
pub open spec fn section(message: Seq<u8>, k: int) -> Seq<u8> {
    let commas = comma_positions(message);
    let start = if k == 0 { 0 } else { commas[k - 1] + 1 };
    let end = if k == commas.len() { message.len() as int } else { commas[k] };
    message.subrange(start, end)
}

/// The error a GGA sentence is rejected with, if any: the section count is checked first, then the length
/// of every field section (a single-character field must not be empty)
pub open spec fn gga_error(message: Seq<u8>) -> Option<GgaParseError> {
    if section_count(message) != GGA_SECTIONS {
        Some(GgaParseError::WrongSectionCount)
    } else if section(message, 1).len() != 10 || section(message, 2).len() != 9 || section(message, 3).len() == 0
        || section(message, 4).len() != 10 || section(message, 5).len() == 0 || section(message, 6).len() == 0
        || section(message, 7).len() > 2 || section(message, 9).len() > 7 || section(message, 10).len() == 0 {
        Some(GgaParseError::WrongSectionLength)
    } else {
        None
    }
}

/// Collects the positions of the commas in a sentence
fn find_commas(message: &[u8]) -> (r: Vec<usize>)
    ensures
        r@.len() == comma_positions(message@).len(),
        forall|j: int| 0 <= j < r@.len() ==> r@[j] as int == #[trigger] comma_positions(message@)[j],
        forall|j: int| 0 <= j < r@.len() ==> r@[j] < message@.len(),
        forall|j: int, l: int| 0 <= j < l < r@.len() ==> r@[j] < r@[l],
{
    let mut commas: Vec<usize> = Vec::new();
    let mut i: usize = 0;
    while i < message.len()
        invariant
            i <= message@.len(),
            commas@.len() == comma_positions(message@.take(i as int)).len(),
            forall|j: int| 0 <= j < commas@.len() ==> commas@[j] as int == #[trigger] comma_positions(
                message@.take(i as int),
            )[j],
            forall|j: int| 0 <= j < commas@.len() ==> commas@[j] < i,
            forall|j: int, l: int| 0 <= j < l < commas@.len() ==> commas@[j] < commas@[l],
        decreases message.len() - i,
    {
        assert(message@.take(i + 1).drop_last() =~= message@.take(i as int));
        if message[i] == COMMA {
            commas.push(i);
        }
        i = i + 1;
    }
    assert(message@.take(message@.len() as int) =~= message@);
    commas
}

/// Copies `N` bytes starting at `start` into an array
fn copy_field<const N: usize>(message: &[u8], start: usize) -> (r: [u8; N])
    requires
        start + N <= message@.len(),
    ensures
        r@ == message@.subrange(start as int, start + N),
{
    let mut field = [0u8; N];
    let len = message.len();
    let mut j: usize = 0;
    while j < N
        invariant
            len == message@.len(),
            start + N <= message@.len(),
            j <= N,
            field@.len() == N,
            forall|l: int| 0 <= l < j ==> field@[l] == message@[start + l],
        decreases N - j,
    {
        field[j] = message[start + j];
        j = j + 1;
    }
    assert(field@ =~= message@.subrange(start as int, start + N));
    field
}

/// A GGA sentence split into its fields, still in ASCII
pub struct AsciiGpsGgaPacket {
    utc_time: [u8; 10],
    latitude: [u8; 9],
    north_south_indicator: u8,
    longitude: [u8; 10],
    east_west_indicator: u8,
    position_fix_indicator: u8,
    num_satellites: ArrayVec<u8, 2>,
    mean_sea_level_altitude: ArrayVec<u8, 7>,
    altitude_units: u8,
}

impl AsciiGpsGgaPacket {
    /// The fields of the packet, in sentence order: UTC time, latitude, N/S indicator, longitude, E/W
    /// indicator, position fix indicator, satellites used, altitude and altitude units
    pub closed spec fn fields(&self) -> Seq<Seq<u8>> {
        seq![
            self.utc_time@,
            self.latitude@,
            seq![self.north_south_indicator],
            self.longitude@,
            seq![self.east_west_indicator],
            seq![self.position_fix_indicator],
            satellite_digits(self.num_satellites),
            altitude_chars(self.mean_sea_level_altitude),
            seq![self.altitude_units],
        ]
    }

    /// Splits a GGA sentence into its fields
    ///
    /// Sections 1 to 7, 9 and 10 hold the fields; the sentence identifier, the dilution of precision, the
    /// geoid separation and the checksum sections are not kept.
    pub fn parse(message: &[u8]) -> (r: Result<AsciiGpsGgaPacket, GgaParseError>)
        ensures
            match r {
                Ok(packet) => {
                    &&& gga_error(message@) is None
                    &&& packet.fields() == seq![
                        section(message@, 1),
                        section(message@, 2),
                        section(message@, 3).take(1),
                        section(message@, 4),
                        section(message@, 5).take(1),
                        section(message@, 6).take(1),
                        section(message@, 7),
                        section(message@, 9),
                        section(message@, 10).take(1),
                    ]
                },
                Err(e) => gga_error(message@) == Some(e),
            },
    {
        let commas = find_commas(message);
        if commas.len() != GGA_SECTIONS - 1 {
            return Err(GgaParseError::WrongSectionCount);
        }
        let ghost m = message@;
        // Section k spans from after comma k - 1 up to comma k
        assert(forall|k: int| 1 <= k <= 10 ==> #[trigger] section(m, k) == m.subrange(commas@[k - 1] + 1, commas@[k] as int));
        if commas[1] - (commas[0] + 1) != 10 || commas[2] - (commas[1] + 1) != 9 || commas[3] - (commas[2] + 1) == 0
            || commas[4] - (commas[3] + 1) != 10 || commas[5] - (commas[4] + 1) == 0 || commas[6] - (commas[5] + 1) == 0
            || commas[7] - (commas[6] + 1) > 2 || commas[9] - (commas[8] + 1) > 7 || commas[10] - (commas[9] + 1) == 0 {
            return Err(GgaParseError::WrongSectionLength);
        }
        let utc_time: [u8; 10] = copy_field(message, commas[0] + 1);
        let latitude: [u8; 9] = copy_field(message, commas[1] + 1);
        let north_south_indicator = message[commas[2] + 1];
        let longitude: [u8; 10] = copy_field(message, commas[3] + 1);
        let east_west_indicator = message[commas[4] + 1];
        let position_fix_indicator = message[commas[5] + 1];
        let mut num_satellites = satellites_new();
        if satellites_extend(&mut num_satellites, slice_between(message, commas[6] + 1, commas[7])).is_err() {
            return Err(GgaParseError::WrongSectionLength);
        }
        let mut mean_sea_level_altitude = altitude_new();
        if altitude_extend(&mut mean_sea_level_altitude, slice_between(message, commas[8] + 1, commas[9])).is_err() {
            return Err(GgaParseError::WrongSectionLength);
        }
        let altitude_units = message[commas[9] + 1];
        let packet = AsciiGpsGgaPacket {
            utc_time,
            latitude,
            north_south_indicator,
            longitude,
            east_west_indicator,
            position_fix_indicator,
            num_satellites,
            mean_sea_level_altitude,
            altitude_units,
        };
        assert(section(m, 3).take(1) =~= seq![north_south_indicator]);
        assert(section(m, 5).take(1) =~= seq![east_west_indicator]);
        assert(section(m, 6).take(1) =~= seq![position_fix_indicator]);
        assert(section(m, 10).take(1) =~= seq![altitude_units]);
        assert(satellite_digits(num_satellites) =~= section(m, 7));
        assert(altitude_chars(mean_sea_level_altitude) =~= section(m, 9));
        assert(packet.fields() =~= seq![
            section(m, 1),
            section(m, 2),
            section(m, 3).take(1),
            section(m, 4),
            section(m, 5).take(1),
            section(m, 6).take(1),
            section(m, 7),
            section(m, 9),
            section(m, 10).take(1),
        ]);
        Ok(packet)
    }

    /// The utc time field
    pub fn utc_time(&self) -> (r: [u8; 10])
        ensures
            r@ == self.fields()[0],
    {
        self.utc_time
    }

    /// The latitude field
    pub fn latitude(&self) -> (r: [u8; 9])
        ensures
            r@ == self.fields()[1],
    {
        self.latitude
    }

    /// The north south indicator field
    pub fn north_south_indicator(&self) -> (r: u8)
        ensures
            seq![r] == self.fields()[2],
    {
        self.north_south_indicator
    }

    /// The longitude field
    pub fn longitude(&self) -> (r: [u8; 10])
        ensures
            r@ == self.fields()[3],
    {
        self.longitude
    }

    /// The east west indicator field
    pub fn east_west_indicator(&self) -> (r: u8)
        ensures
            seq![r] == self.fields()[4],
    {
        self.east_west_indicator
    }

    /// The position fix indicator field
    pub fn position_fix_indicator(&self) -> (r: u8)
        ensures
            seq![r] == self.fields()[5],
    {
        self.position_fix_indicator
    }

    /// The num satellites field
    pub fn num_satellites(&self) -> (r: &[u8])
        ensures
            r@ == self.fields()[6],
    {
        satellites_slice(&self.num_satellites)
    }

    /// The mean sea level altitude field
    pub fn mean_sea_level_altitude(&self) -> (r: &[u8])
        ensures
            r@ == self.fields()[7],
    {
        altitude_slice(&self.mean_sea_level_altitude)
    }

    /// The altitude units field
    pub fn altitude_units(&self) -> (r: u8)
        ensures
            seq![r] == self.fields()[8],
    {
        self.altitude_units
    }
}

impl TryFrom<&[u8]> for AsciiGpsGgaPacket {
    type Error = GgaParseError;

    fn try_from(message: &[u8]) -> (r: Result<Self, GgaParseError>) {
        Self::parse(message)
    }
}

/// The conversion is described by [`AsciiGpsGgaPacket::parse`]; a packet's fields are not a plain value
impl vstd::std_specs::convert::TryFromSpecImpl<&[u8]> for AsciiGpsGgaPacket {
    open spec fn obeys_try_from_spec() -> bool {
        false
    }

    open spec fn try_from_spec(v: &[u8]) -> Result<Self, GgaParseError> {
        arbitrary()
    }
}

/// The bytes of `message` from `start` up to `end`
fn slice_between(message: &[u8], start: usize, end: usize) -> (r: &[u8])
    requires
        start <= end <= message@.len(),
    ensures
        r@ == message@.subrange(start as int, end as int),
{
    &message[start..end]
}

#[verifier::external_type_specification]
#[verifier::external_body]
pub struct ExParseIntError(ParseIntError);

#[verifier::external_type_specification]
#[verifier::external_body]
pub struct ExParseFloatError(ParseFloatError);

#[verifier::external_type_specification]
#[verifier::external_body]
pub struct ExUtf8Error(Utf8Error);

/// Why a numeric GGA field could not be read
#[derive(Debug)]
pub enum IntOrFloatParseError {
    /// An integer field is not a decimal number of the right size
    IntError(ParseIntError),
    /// A decimal-fraction field is not a number
    FloatError(ParseFloatError),
}

/// The characters that ASCII bytes stand for
pub open spec fn ascii_chars(bytes: Seq<u8>) -> Seq<char> {
    Seq::new(bytes.len(), |i: int| bytes[i] as char)
}

/// Bytes that are all ASCII
pub open spec fn is_ascii(bytes: Seq<u8>) -> bool {
    forall|i: int| 0 <= i < bytes.len() ==> #[trigger] bytes[i] < 128
}

/// A non-empty run of decimal digits
pub open spec fn is_decimal(digits: Seq<char>) -> bool {
    &&& digits.len() > 0
    &&& forall|i: int| 0 <= i < digits.len() ==> '0' <= #[trigger] digits[i] <= '9'
}

/// The value of a run of decimal digits
pub open spec fn decimal_value(digits: Seq<char>) -> int
    decreases digits.len(),
{
    if digits.len() == 0 {
        0
    } else {
        decimal_value(digits.drop_last()) * 10 + (digits.last() as int - '0' as int)
    }
}

/// The unsigned number a string denotes, if it is an optional `+` followed by decimal digits whose value
/// is at most `max`
pub open spec fn unsigned_value(text: Seq<char>, max: int) -> Option<int> {
    let digits = if text.len() > 0 && text[0] == '+' { text.skip(1) } else { text };
    if is_decimal(digits) && decimal_value(digits) <= max {
        Some(decimal_value(digits))
    } else {
        None
    }
}

/// Relies on `core::str::from_utf8`: ASCII bytes are valid UTF-8, and the string holds the same characters.
#[verifier::external_body]
fn ascii_str(bytes: &[u8]) -> (r: Result<&str, Utf8Error>)
    ensures
        is_ascii(bytes@) ==> r is Ok,
        is_ascii(bytes@) ==> r.unwrap()@ == ascii_chars(bytes@),
{
    core::str::from_utf8(bytes)
}

/// Relies on `str::parse::<u8>`: an optional `+` followed by decimal digits whose value fits in a `u8`.
#[verifier::external_body]
fn parse_u8(text: &str) -> (r: Result<u8, ParseIntError>)
    ensures
        match r {
            Ok(value) => unsigned_value(text@, 0xFF) == Some(value as int),
            Err(_) => unsigned_value(text@, 0xFF) is None,
        },
{
    text.parse()
}

/// Relies on `str::parse::<u16>`: an optional `+` followed by decimal digits whose value fits in a `u16`.
#[verifier::external_body]
fn parse_u16(text: &str) -> (r: Result<u16, ParseIntError>)
    ensures
        match r {
            Ok(value) => unsigned_value(text@, 0xFFFF) == Some(value as int),
            Err(_) => unsigned_value(text@, 0xFFFF) is None,
        },
{
    text.parse()
}

/// Reads an ASCII decimal field as a `u8`
pub fn bytes_to_u8(bytes: &[u8]) -> (r: Result<u8, IntOrFloatParseError>)
    requires
        is_ascii(bytes@),
    ensures
        match r {
            Ok(value) => unsigned_value(ascii_chars(bytes@), 0xFF) == Some(value as int),
            Err(IntOrFloatParseError::IntError(_)) => unsigned_value(ascii_chars(bytes@), 0xFF) is None,
            Err(IntOrFloatParseError::FloatError(_)) => false,
        },
{
    let text = ascii_str(bytes).unwrap();
    match parse_u8(text) {
        Ok(value) => Ok(value),
        Err(e) => Err(IntOrFloatParseError::IntError(e)),
    }
}

/// Reads an ASCII decimal field as a `u16`
pub fn bytes_to_u16(bytes: &[u8]) -> (r: Result<u16, IntOrFloatParseError>)
    requires
        is_ascii(bytes@),
    ensures
        match r {
            Ok(value) => unsigned_value(ascii_chars(bytes@), 0xFFFF) == Some(value as int),
            Err(IntOrFloatParseError::IntError(_)) => unsigned_value(ascii_chars(bytes@), 0xFFFF) is None,
            Err(IntOrFloatParseError::FloatError(_)) => false,
        },
{
    let text = ascii_str(bytes).unwrap();
    match parse_u16(text) {
        Ok(value) => Ok(value),
        Err(e) => Err(IntOrFloatParseError::IntError(e)),
    }
}

} // verus!
