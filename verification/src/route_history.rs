use vstd::prelude::*;

use crate::float_bits::ZERO_BITS;
use crate::location::Location;

verus! {

/// One recorded position of a courier's route. `speed_kmh_bits` is an `f64`
/// carried as its IEEE-754 bit pattern; `timestamp` is in microseconds since
/// the Unix epoch.
#[derive(Debug, Clone)]
pub struct RouteBreadcrumb {
    pub courier_id: u128,
    pub location: Location,
    pub speed_kmh_bits: u64,
    pub battery_level: u8,
    pub timestamp: i64,
}

/// A courier's route over one day, for playback. The totals are `f64`
/// values carried as their IEEE-754 bit patterns.
#[derive(Debug, Clone)]
pub struct CourierPlaybackTrack {
    pub courier_id: u128,
    /// YYYY-MM-DD.
    pub date: String,
    pub total_distance_km_bits: u64,
    pub average_speed_kmh_bits: u64,
    pub breadcrumbs: Vec<RouteBreadcrumb>,
}

impl CourierPlaybackTrack {
    /// An empty track with zero distance and zero average speed.
    pub fn new(courier_id: u128, date: &str) -> (t: CourierPlaybackTrack)
        ensures
            t.courier_id == courier_id,
            t.date@ == date@,
            t.total_distance_km_bits == ZERO_BITS,
            t.average_speed_kmh_bits == ZERO_BITS,
            t.breadcrumbs@ == Seq::<RouteBreadcrumb>::empty(),
    {
        CourierPlaybackTrack {
            courier_id,
            date: date.to_owned(),
            total_distance_km_bits: ZERO_BITS,
            average_speed_kmh_bits: ZERO_BITS,
            breadcrumbs: Vec::new(),
        }
    }
}

} // verus!
