//! Decoding of the measurement characteristic's payload.
use vstd::prelude::*;
use vstd::string::*;
use crate::text::{decimal, decimal_text};

verus! {

/// Fewest bytes a measurement payload can have.
pub const MINIMUM_LENGTH: usize = 8;

/// One decoded measurement.
///
/// Temperature and pressure are kept as the device sends them, in fixed
/// units: `temp_raw` in twentieths of a degree Celsius, `pressure_raw` in
/// tenths of a hectopascal.
#[derive(Clone, Copy, Debug, PartialEq, Eq, Structural)]
pub struct Sample {
    /// CO2 concentration in parts per million.
    pub co2: u16,
    /// Temperature in units of 1/20 degree Celsius.
    pub temp_raw: u16,
    /// Pressure in units of 1/10 hectopascal.
    pub pressure_raw: u16,
    /// Relative humidity in percent.
    pub humidity: u8,
    /// Battery charge in percent.
    pub battery: u8,
}

/// Why a payload could not be decoded.
#[derive(Clone, Copy, Debug, PartialEq, Eq, Structural)]
pub enum DecodeError {
    TooShort { required: usize, actual: usize },
}

/// The unsigned 16-bit value of two bytes in little-endian order.
pub open spec fn le_u16(lo: u8, hi: u8) -> u16 {
    (lo as int + 256 * hi as int) as u16
}

/// What a payload decodes to.
pub open spec fn decode_spec(p: Seq<u8>) -> Result<Sample, DecodeError> {
    if p.len() < MINIMUM_LENGTH {
        Err(DecodeError::TooShort { required: MINIMUM_LENGTH, actual: p.len() as usize })
    } else {
        Ok(
            Sample {
                co2: le_u16(p[0], p[1]),
                temp_raw: le_u16(p[2], p[3]),
                pressure_raw: le_u16(p[4], p[5]),
                humidity: p[6],
                battery: p[7],
            },
        )
    }
}

/// The 16-bit value whose low byte is `lo` and high byte is `hi`.
fn from_le(lo: u8, hi: u8) -> (r: u16)
    ensures
        r == le_u16(lo, hi),
{
    lo as u16 + hi as u16 * 256
}

/// Decodes a measurement payload: bytes 0-1 CO2, 2-3 temperature, 4-5
/// pressure (each little-endian), 6 humidity, 7 battery. Bytes past the eighth
/// are ignored.
pub fn decode(payload: &Vec<u8>) -> (r: Result<Sample, DecodeError>)
    ensures
        r == decode_spec(payload@),
        r is Err <==> payload@.len() < MINIMUM_LENGTH,
{
    if payload.len() < MINIMUM_LENGTH {
        return Err(DecodeError::TooShort { required: MINIMUM_LENGTH, actual: payload.len() });
    }
    Ok(
        Sample {
            co2: from_le(payload[0], payload[1]),
            temp_raw: from_le(payload[2], payload[3]),
            pressure_raw: from_le(payload[4], payload[5]),
            humidity: payload[6],
            battery: payload[7],
        },
    )
}

/// The eight bytes that carry a sample, low byte first in each 16-bit field.
pub open spec fn encode_spec(s: Sample) -> Seq<u8> {
    seq![
        (s.co2 % 256) as u8,
        (s.co2 / 256) as u8,
        (s.temp_raw % 256) as u8,
        (s.temp_raw / 256) as u8,
        (s.pressure_raw % 256) as u8,
        (s.pressure_raw / 256) as u8,
        s.humidity,
        s.battery,
    ]
}

/// Hundredths of a degree Celsius rounded to the nearest twentieth of a degree.
pub open spec fn temp_raw_of_centi(c: nat) -> nat {
    (c + 2) / 5
}

/// Hundredths of a hectopascal rounded to the nearest tenth of a hectopascal.
pub open spec fn pressure_raw_of_centi(h: nat) -> nat {
    (h + 5) / 10
}

proof fn lemma_le_u16_split(v: u16)
    ensures
        le_u16((v % 256) as u8, (v / 256) as u8) == v,
{
}

/// Appending any bytes to a payload of eight bytes or more does not change
/// what it decodes to: only the first eight bytes count.
pub proof fn lemma_decode_ignores_trailing(p: Seq<u8>, extra: Seq<u8>)
    requires
        p.len() >= MINIMUM_LENGTH,
    ensures
        decode_spec(p + extra) == decode_spec(p),
{
    let q = p + extra;
    assert forall|i: int| 0 <= i < 8 implies q[i] == p[i] by {}
}

/// Encoding a sample into its eight bytes and decoding them gives the sample
/// back.
pub proof fn lemma_decode_encode(s: Sample)
    ensures
        decode_spec(encode_spec(s)) == Ok::<Sample, DecodeError>(s),
{
    lemma_le_u16_split(s.co2);
    lemma_le_u16_split(s.temp_raw);
    lemma_le_u16_split(s.pressure_raw);
}

/// A measurement given in hundredths (temperature `temp_centi` in 1/100 degree
/// Celsius, pressure `pressure_centi` in 1/100 hectopascal), rounded to the
/// device's units, encoded and decoded, comes back with the same CO2,
/// humidity and battery, and with temperature and pressure each within
/// five hundredths of the value given.
pub proof fn lemma_round_trip(
    co2: u16,
    temp_centi: nat,
    pressure_centi: nat,
    humidity: u8,
    battery: u8,
)
    requires
        temp_raw_of_centi(temp_centi) <= u16::MAX,
        pressure_raw_of_centi(pressure_centi) <= u16::MAX,
    ensures
        ({
            let sent = Sample {
                co2,
                temp_raw: temp_raw_of_centi(temp_centi) as u16,
                pressure_raw: pressure_raw_of_centi(pressure_centi) as u16,
                humidity,
                battery,
            };
            decode_spec(encode_spec(sent)) matches Ok(got) && {
                &&& got.co2 == co2
                &&& got.humidity == humidity
                &&& got.battery == battery
                &&& -5 <= got.temp_raw * 5 - temp_centi <= 5
                &&& -5 <= got.pressure_raw * 10 - pressure_centi <= 5
            }
        }),
{
    let sent = Sample {
        co2,
        temp_raw: temp_raw_of_centi(temp_centi) as u16,
        pressure_raw: pressure_raw_of_centi(pressure_centi) as u16,
        humidity,
        battery,
    };
    lemma_decode_encode(sent);
}

/// The text of a decode error.
pub open spec fn error_text(e: DecodeError) -> Seq<char> {
    match e {
        DecodeError::TooShort { required, .. } => "response is too short; needs to have at least "@
            + decimal(required as nat) + " elements"@,
    }
}

impl DecodeError {
    /// A human-readable description of the error.
    pub fn message(&self) -> (r: String)
        ensures
            r@ == error_text(*self),
    {
        match self {
            DecodeError::TooShort { required, .. } => {
                let mut s = String::from_str("response is too short; needs to have at least ");
                let n = decimal_text(*required);
                s.append(n.as_str());
                s.append(" elements");
                s
            },
        }
    }
}

impl Sample {
    /// The temperature in hundredths of a degree Celsius.
    pub fn temp_centi(&self) -> (r: u32)
        ensures
            r == self.temp_raw as int * 5,
    {
        self.temp_raw as u32 * 5
    }
}

} // verus!
