use vstd::prelude::*;

use crate::error::{validation_error, DomainError};
use crate::float_bits::{eq, eq_spec, is_finite, is_finite_spec, le, le_spec};
use vstd::std_specs::cmp::PartialEqSpecImpl;

verus! {

/// The bit pattern of `90.0`.
pub const NINETY_BITS: u64 = 0x4056_8000_0000_0000u64;

/// The bit pattern of `-90.0`.
pub const MINUS_NINETY_BITS: u64 = 0xc056_8000_0000_0000u64;

/// The bit pattern of `180.0`.
pub const ONE_EIGHTY_BITS: u64 = 0x4066_8000_0000_0000u64;

/// The bit pattern of `-180.0`.
pub const MINUS_ONE_EIGHTY_BITS: u64 = 0xc066_8000_0000_0000u64;

/// A WGS-84 coordinate pair. Each coordinate is an `f64`, carried as its
/// IEEE-754 bit pattern (`f64::to_bits`); `f64::from_bits` gives it back.
#[derive(Debug, Clone, Copy)]
pub struct Location {
    pub latitude_bits: u64,
    pub longitude_bits: u64,
}

/// The latitude lies in `[-90, 90]`.
pub open spec fn latitude_in_range(bits: u64) -> bool {
    le_spec(MINUS_NINETY_BITS, bits) && le_spec(bits, NINETY_BITS)
}

/// The longitude lies in `[-180, 180]`.
pub open spec fn longitude_in_range(bits: u64) -> bool {
    le_spec(MINUS_ONE_EIGHTY_BITS, bits) && le_spec(bits, ONE_EIGHTY_BITS)
}

/// The message of the first check that a coordinate pair fails, if any.
pub open spec fn location_error(latitude_bits: u64, longitude_bits: u64) -> Option<Seq<char>> {
    if !is_finite_spec(latitude_bits) || !is_finite_spec(longitude_bits) {
        Some("latitude and longitude must be finite numbers"@)
    } else if !latitude_in_range(latitude_bits) {
        Some("latitude must be within [-90, 90]"@)
    } else if !longitude_in_range(longitude_bits) {
        Some("longitude must be within [-180, 180]"@)
    } else {
        None
    }
}

impl Location {
    /// Validates a coordinate pair: both finite, latitude in `[-90, 90]`,
    /// longitude in `[-180, 180]`.
    pub fn new(latitude_bits: u64, longitude_bits: u64) -> (r: Result<Location, DomainError>)
        ensures
            match location_error(latitude_bits, longitude_bits) {
                None => r == Ok::<Location, DomainError>(
                    Location { latitude_bits, longitude_bits },
                ),
                Some(m) => r matches Err(e) && e is Validation && e.message() == m,
            },
    {
        if !is_finite(latitude_bits) || !is_finite(longitude_bits) {
            return Err(validation_error("latitude and longitude must be finite numbers"));
        }
        if !(le(MINUS_NINETY_BITS, latitude_bits) && le(latitude_bits, NINETY_BITS)) {
            return Err(validation_error("latitude must be within [-90, 90]"));
        }
        if !(le(MINUS_ONE_EIGHTY_BITS, longitude_bits) && le(longitude_bits, ONE_EIGHTY_BITS)) {
            return Err(validation_error("longitude must be within [-180, 180]"));
        }
        Ok(Location { latitude_bits, longitude_bits })
    }
}

/// Two locations are equal when their coordinates are equal as numbers (so
/// `-0.0` equals `0.0`, and a NaN coordinate equals nothing).
impl PartialEq for Location {
    fn eq(&self, other: &Location) -> (r: bool) {
        eq(self.latitude_bits, other.latitude_bits) && eq(self.longitude_bits, other.longitude_bits)
    }
}

impl PartialEqSpecImpl for Location {
    open spec fn obeys_eq_spec() -> bool {
        true
    }

    open spec fn eq_spec(&self, other: &Location) -> bool {
        eq_spec(self.latitude_bits, other.latitude_bits) && eq_spec(
            self.longitude_bits,
            other.longitude_bits,
        )
    }
}

} // verus!
