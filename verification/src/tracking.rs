use vstd::prelude::*;

use crate::error::{
    fails_transition, fails_validation, join_text, transition_error, validation_error, DomainError,
};
use crate::float_bits::{is_finite, is_finite_spec, lt, lt_spec, ZERO_BITS};
use crate::location::Location;
use crate::platform::{new_id, uuid_version};
use crate::text::text_eq;

verus! {

/// One location sample of a courier. `speed_kmh` and `fraud_risk_score` are
/// `f64` values carried as their IEEE-754 bit patterns; `recorded_at` is in
/// microseconds since the Unix epoch.
#[derive(Debug, Clone, PartialEq)]
pub struct TrackingPoint {
    pub id: u128,
    pub courier_id: u128,
    pub location: Location,
    pub speed_kmh_bits: Option<u64>,
    pub battery_pct: Option<u8>,
    pub recorded_at: i64,
    /// Set when the point implies a physically impossible speed from the
    /// courier's previous point; the point is still recorded.
    pub fraud_flagged: bool,
    /// The normalised 0.0–1.0 anomaly score backing `fraud_flagged`.
    pub fraud_risk_score_bits: u64,
}

/// A speed is acceptable when it is a finite, non-negative number.
pub open spec fn speed_acceptable(bits: u64) -> bool {
    !(lt_spec(bits, ZERO_BITS) || !is_finite_spec(bits))
}

/// The message of the first check that `TrackingPoint::new` fails, if any.
pub open spec fn tracking_point_error(
    courier_id: u128,
    speed_kmh_bits: Option<u64>,
    battery_pct: Option<u8>,
) -> Option<Seq<char>> {
    if courier_id == 0 {
        Some("courier id is required"@)
    } else if speed_kmh_bits matches Some(s) && !speed_acceptable(s) {
        Some("speed must be a non-negative finite number"@)
    } else if battery_pct matches Some(b) && b > 100 {
        Some("battery percentage must be 0–100"@)
    } else {
        None
    }
}

impl TrackingPoint {
    /// A sample with a courier, a finite non-negative speed (if any) and a
    /// battery level of at most 100 (if any); not flagged.
    pub fn new(
        courier_id: u128,
        location: Location,
        speed_kmh_bits: Option<u64>,
        battery_pct: Option<u8>,
        recorded_at: i64,
    ) -> (r: Result<TrackingPoint, DomainError>)
        ensures
            match tracking_point_error(courier_id, speed_kmh_bits, battery_pct) {
                Some(m) => fails_validation(r, m),
                None => r matches Ok(p) && p.id != 0 && uuid_version(p.id) == 7 && p.courier_id
                    == courier_id && p.location == location && p.speed_kmh_bits == speed_kmh_bits
                    && p.battery_pct == battery_pct && p.recorded_at == recorded_at
                    && !p.fraud_flagged && p.fraud_risk_score_bits == ZERO_BITS,
            },
    {
        if courier_id == 0 {
            return Err(validation_error("courier id is required"));
        }
        if let Some(speed) = speed_kmh_bits {
            if lt(speed, ZERO_BITS) || !is_finite(speed) {
                return Err(validation_error("speed must be a non-negative finite number"));
            }
        }
        if let Some(battery) = battery_pct {
            if battery > 100 {
                return Err(validation_error("battery percentage must be 0–100"));
            }
        }
        Ok(
            TrackingPoint {
                id: new_id(),
                courier_id,
                location,
                speed_kmh_bits,
                battery_pct,
                recorded_at,
                fraud_flagged: false,
                fraud_risk_score_bits: ZERO_BITS,
            },
        )
    }

    /// Marks the point as suspicious; the point is kept.
    pub fn flag_fraud_risk(&mut self, risk_score_bits: u64)
        ensures
            *final(self) == (TrackingPoint {
                fraud_flagged: true,
                fraud_risk_score_bits: risk_score_bits,
                ..*old(self)
            }),
    {
        self.fraud_flagged = true;
        self.fraud_risk_score_bits = risk_score_bits;
    }
}

/// State of a tracking session.
#[derive(Debug, Clone, Copy, PartialEq, Eq, Hash, Structural)]
pub enum TrackingSessionStatus {
    Active,
    Ended,
}

impl TrackingSessionStatus {
    /// The canonical text of each variant.
    pub open spec fn name(self) -> Seq<char> {
        match self {
            TrackingSessionStatus::Active => "active"@,
            TrackingSessionStatus::Ended => "ended"@,
        }
    }

    /// The variant whose canonical text is `value`, if any.
    pub open spec fn parse_spec(value: Seq<char>) -> Option<TrackingSessionStatus> {
        if value == "active"@ {
            Some(TrackingSessionStatus::Active)
        } else if value == "ended"@ {
            Some(TrackingSessionStatus::Ended)
        } else {
            None
        }
    }

    /// The message of the error for an unknown text.
    pub open spec fn unknown_message(value: Seq<char>) -> Seq<char> {
        "unknown tracking session status: "@ + value
    }

    pub fn as_str(&self) -> (s: &'static str)
        ensures
            s@ == self.name(),
    {
        match self {
            TrackingSessionStatus::Active => "active",
            TrackingSessionStatus::Ended => "ended",
        }
    }

    /// Parses the canonical text of a variant.
    pub fn parse(value: &str) -> (r: Result<TrackingSessionStatus, DomainError>)
        ensures
            match TrackingSessionStatus::parse_spec(value@) {
                Some(s) => r == Ok::<TrackingSessionStatus, DomainError>(s),
                None => fails_validation(r, TrackingSessionStatus::unknown_message(value@)),
            },
    {
        if text_eq(value, "active") {
            Ok(TrackingSessionStatus::Active)
        } else if text_eq(value, "ended") {
            Ok(TrackingSessionStatus::Ended)
        } else {
            Err(DomainError::validation(join_text("unknown tracking session status: ", value)))
        }
    }
}

impl std::str::FromStr for TrackingSessionStatus {
    type Err = DomainError;

    fn from_str(value: &str) -> (r: Result<TrackingSessionStatus, DomainError>)
        ensures
            match TrackingSessionStatus::parse_spec(value@) {
                Some(s) => r == Ok::<TrackingSessionStatus, DomainError>(s),
                None => fails_validation(r, TrackingSessionStatus::unknown_message(value@)),
            },
    {
        TrackingSessionStatus::parse(value)
    }
}

/// Every variant's canonical text parses back to that variant.
pub proof fn lemma_tracking_session_status_text_round_trip(s: TrackingSessionStatus)
    ensures
        TrackingSessionStatus::parse_spec(s.name()) == Some(s),
{
    reveal_strlit("active");
    reveal_strlit("ended");
    assert("active"@.len() != "ended"@.len());
}

/// A run of consecutive tracking points of a courier's shift. Timestamps are
/// microseconds since the Unix epoch.
#[derive(Debug, Clone, PartialEq)]
pub struct TrackingSession {
    pub id: u128,
    pub courier_id: u128,
    pub status: TrackingSessionStatus,
    pub started_at: i64,
    pub ended_at: Option<i64>,
}

impl TrackingSession {
    /// An active session for the courier.
    pub fn start(courier_id: u128, now: i64) -> (r: Result<TrackingSession, DomainError>)
        ensures
            courier_id == 0 ==> fails_validation(r, "courier id is required"@),
            courier_id != 0 ==> (r matches Ok(s) && s.id != 0 && uuid_version(s.id) == 7
                && s.courier_id == courier_id && s.status == TrackingSessionStatus::Active
                && s.started_at == now && s.ended_at is None),
    {
        if courier_id == 0 {
            return Err(validation_error("courier id is required"));
        }
        Ok(
            TrackingSession {
                id: new_id(),
                courier_id,
                status: TrackingSessionStatus::Active,
                started_at: now,
                ended_at: None,
            },
        )
    }

    /// Active -> Ended, at a time not before the start.
    pub fn end(&mut self, now: i64) -> (r: Result<(), DomainError>)
        ensures
            old(self).status != TrackingSessionStatus::Active ==> *final(self) == *old(self)
                && fails_transition(r, "can only end an active tracking session"@),
            old(self).status == TrackingSessionStatus::Active && now < old(self).started_at
                ==> *final(self) == *old(self) && fails_validation(
                r,
                "end time cannot precede start time"@,
            ),
            old(self).status == TrackingSessionStatus::Active && now >= old(self).started_at
                ==> r is Ok && *final(self) == (TrackingSession {
                status: TrackingSessionStatus::Ended,
                ended_at: Some(now),
                ..*old(self)
            }),
    {
        if self.status != TrackingSessionStatus::Active {
            return Err(transition_error("can only end an active tracking session"));
        }
        if now < self.started_at {
            return Err(validation_error("end time cannot precede start time"));
        }
        self.status = TrackingSessionStatus::Ended;
        self.ended_at = Some(now);
        Ok(())
    }

    pub fn is_active(&self) -> (b: bool)
        ensures
            b == (self.status == TrackingSessionStatus::Active),
    {
        self.status == TrackingSessionStatus::Active
    }
}

} // verus!
