//! The identities that single out the sensor: its advertised service, the
//! measurement characteristic and its local-name prefix.
use vstd::prelude::*;
use vstd::string::*;

verus! {

/// The service that Aranet4 sensors advertise, `0000fce0-0000-1000-8000-00805f9b34fb`.
pub const ARANET4_SERVICE: u128 = 0x0000fce0_0000_1000_8000_00805f9b34fb;

/// The Aranet4 current-readings characteristic, `f0cd1503-95da-4f4b-9ac8-aa55d312af0c`.
pub const ARANET4_MEASUREMENT: u128 = 0xf0cd1503_95da_4f4b_9ac8_aa55d312af0c;

/// What the `uuid` crate parses a text to, as a 128-bit value, or `None`
/// where it refuses the text.
pub uninterp spec fn uuid_value_of(s: Seq<char>) -> Option<u128>;

/// Relies on `uuid::Uuid::parse_str` (simple, hyphenated, braced and URN
/// forms), read out with `Uuid::as_u128`; a refused text gives `None`.
#[verifier::external_body]
fn parse_uuid(s: &str) -> (r: Option<u128>)
    ensures
        r == uuid_value_of(s@),
{
    uuid::Uuid::parse_str(s).ok().map(|u| u.as_u128())
}

/// The sensor family that the pipeline looks for.
#[derive(Debug)]
pub struct SensorProfile {
    /// UUID of the advertised service that holds the measurement.
    pub service: u128,
    /// UUID of the readable measurement characteristic.
    pub characteristic: u128,
    /// Text that a device's local name contains.
    pub name_prefix: String,
}

/// Which identity text could not be parsed.
#[derive(Clone, Copy, Debug, PartialEq, Eq, Structural)]
pub enum ProfileError {
    InvalidServiceUuid,
    InvalidCharacteristicUuid,
}

impl SensorProfile {
    /// The profile of Aranet4 sensors.
    pub fn aranet4() -> (r: SensorProfile)
        ensures
            r.service == ARANET4_SERVICE,
            r.characteristic == ARANET4_MEASUREMENT,
            r.name_prefix@ == "Aranet4"@,
    {
        SensorProfile {
            service: ARANET4_SERVICE,
            characteristic: ARANET4_MEASUREMENT,
            name_prefix: String::from_str("Aranet4"),
        }
    }

    /// A profile for another sensor model, from the textual UUIDs of its
    /// service and characteristic.
    pub fn from_text(service: &str, characteristic: &str, name_prefix: &str) -> (r: Result<
        SensorProfile,
        ProfileError,
    >)
        ensures
            match r {
                Ok(p) => uuid_value_of(service@) == Some(p.service) && uuid_value_of(
                    characteristic@,
                ) == Some(p.characteristic) && p.name_prefix@ == name_prefix@,
                Err(ProfileError::InvalidServiceUuid) => uuid_value_of(service@) is None,
                Err(ProfileError::InvalidCharacteristicUuid) => uuid_value_of(service@) is Some
                    && uuid_value_of(characteristic@) is None,
            },
    {
        let s = match parse_uuid(service) {
            Some(v) => v,
            None => return Err(ProfileError::InvalidServiceUuid),
        };
        let c = match parse_uuid(characteristic) {
            Some(v) => v,
            None => return Err(ProfileError::InvalidCharacteristicUuid),
        };
        Ok(SensorProfile { service: s, characteristic: c, name_prefix: String::from_str(name_prefix) })
    }
}

} // verus!
