use vstd::prelude::*;

use crate::float_bits::{le_spec, lt, lt_spec};
use crate::platform::now_micros;

verus! {

/// A cold-chain sensor reading for an order. Temperatures and humidity are
/// `f64` values carried as their IEEE-754 bit patterns.
#[derive(Debug, Clone)]
pub struct ColdChainTelemetry {
    pub order_id: u128,
    pub sensor_id: String,
    pub temperature_celsius_bits: u64,
    pub humidity_percent_bits: u64,
    pub min_allowed_temp_bits: u64,
    pub max_allowed_temp_bits: u64,
    pub is_violation: bool,
    pub timestamp: i64,
}

/// The reading lies outside the allowed range.
pub open spec fn is_temperature_violation(temp: u64, min_allowed: u64, max_allowed: u64) -> bool {
    lt_spec(temp, min_allowed) || lt_spec(max_allowed, temp)
}

/// A reading strictly below the minimum or strictly above the maximum (as
/// numbers) is a violation, and a reading within `[min, max]` is not.
pub proof fn law_violation_is_outside_range(temp: u64, min_allowed: u64, max_allowed: u64)
    ensures
        lt_spec(temp, min_allowed) ==> is_temperature_violation(temp, min_allowed, max_allowed),
        lt_spec(max_allowed, temp) ==> is_temperature_violation(temp, min_allowed, max_allowed),
        le_spec(min_allowed, temp) && le_spec(temp, max_allowed) ==> !is_temperature_violation(
            temp,
            min_allowed,
            max_allowed,
        ),
{
}

impl ColdChainTelemetry {
    /// A reading stamped with the current time; flagged as a violation when
    /// the temperature is below the minimum or above the maximum.
    pub fn new(
        order_id: u128,
        sensor_id: &str,
        temp_bits: u64,
        humidity_bits: u64,
        min_allowed_bits: u64,
        max_allowed_bits: u64,
    ) -> (t: ColdChainTelemetry)
        ensures
            t.order_id == order_id,
            t.sensor_id@ == sensor_id@,
            t.temperature_celsius_bits == temp_bits,
            t.humidity_percent_bits == humidity_bits,
            t.min_allowed_temp_bits == min_allowed_bits,
            t.max_allowed_temp_bits == max_allowed_bits,
            t.is_violation == is_temperature_violation(temp_bits, min_allowed_bits, max_allowed_bits),
            lt_spec(temp_bits, min_allowed_bits) ==> t.is_violation,
            lt_spec(max_allowed_bits, temp_bits) ==> t.is_violation,
            le_spec(min_allowed_bits, temp_bits) && le_spec(temp_bits, max_allowed_bits) ==> !t.is_violation,
    {
        proof {
            law_violation_is_outside_range(temp_bits, min_allowed_bits, max_allowed_bits);
        }
        let is_violation = lt(temp_bits, min_allowed_bits) || lt(max_allowed_bits, temp_bits);
        ColdChainTelemetry {
            order_id,
            sensor_id: sensor_id.to_owned(),
            temperature_celsius_bits: temp_bits,
            humidity_percent_bits: humidity_bits,
            min_allowed_temp_bits: min_allowed_bits,
            max_allowed_temp_bits: max_allowed_bits,
            is_violation,
            timestamp: now_micros(),
        }
    }
}

} // verus!
