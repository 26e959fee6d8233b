use vstd::prelude::*;

use crate::courier::VehicleType;
use crate::error::{fails_transition, fails_validation, join_text, transition_error, validation_error, DomainError};
use crate::platform::{new_id, uuid_version};
use crate::text::{is_blank, is_blank_spec, text_eq};

verus! {

/// Identifier of a fleet vehicle.
#[derive(Debug, Clone, Copy, PartialEq, Eq, Hash, Structural)]
pub struct VehicleId(pub u128);

impl VehicleId {
    /// A fresh time-ordered identifier.
    pub fn new() -> (id: VehicleId)
        ensures
            id.0 != 0,
            uuid_version(id.0) == 7,
    {
        VehicleId(new_id())
    }
}

impl Default for VehicleId {
    fn default() -> (id: VehicleId)
        ensures
            id.0 != 0,
            uuid_version(id.0) == 7,
    {
        VehicleId::new()
    }
}

/// Operational state of a fleet vehicle.
#[derive(Debug, Clone, Copy, PartialEq, Eq, Hash, Structural)]
pub enum VehicleStatus {
    Active,
    Maintenance,
    Decommissioned,
}

impl VehicleStatus {
    /// The canonical text of each variant.
    pub open spec fn name(self) -> Seq<char> {
        match self {
            VehicleStatus::Active => "active"@,
            VehicleStatus::Maintenance => "maintenance"@,
            VehicleStatus::Decommissioned => "decommissioned"@,
        }
    }

    /// The variant whose canonical text is `value`, if any.
    pub open spec fn parse_spec(value: Seq<char>) -> Option<VehicleStatus> {
        if value == "active"@ {
            Some(VehicleStatus::Active)
        } else if value == "maintenance"@ {
            Some(VehicleStatus::Maintenance)
        } else if value == "decommissioned"@ {
            Some(VehicleStatus::Decommissioned)
        } else {
            None
        }
    }

    /// The message of the error for an unknown text.
    pub open spec fn unknown_message(value: Seq<char>) -> Seq<char> {
        "unknown vehicle status: "@ + value
    }

    pub fn as_str(&self) -> (s: &'static str)
        ensures
            s@ == self.name(),
    {
        match self {
            VehicleStatus::Active => "active",
            VehicleStatus::Maintenance => "maintenance",
            VehicleStatus::Decommissioned => "decommissioned",
        }
    }

    /// Parses the canonical text of a variant.
    pub fn parse(value: &str) -> (r: Result<VehicleStatus, DomainError>)
        ensures
            match VehicleStatus::parse_spec(value@) {
                Some(s) => r == Ok::<VehicleStatus, DomainError>(s),
                None => fails_validation(r, VehicleStatus::unknown_message(value@)),
            },
    {
        if text_eq(value, "active") {
            Ok(VehicleStatus::Active)
        } else if text_eq(value, "maintenance") {
            Ok(VehicleStatus::Maintenance)
        } else if text_eq(value, "decommissioned") {
            Ok(VehicleStatus::Decommissioned)
        } else {
            Err(DomainError::validation(join_text("unknown vehicle status: ", value)))
        }
    }
}

impl std::str::FromStr for VehicleStatus {
    type Err = DomainError;

    fn from_str(value: &str) -> (r: Result<VehicleStatus, DomainError>)
        ensures
            match VehicleStatus::parse_spec(value@) {
                Some(s) => r == Ok::<VehicleStatus, DomainError>(s),
                None => fails_validation(r, VehicleStatus::unknown_message(value@)),
            },
    {
        VehicleStatus::parse(value)
    }
}

/// Every variant's canonical text parses back to that variant.
pub proof fn lemma_vehicle_status_text_round_trip(s: VehicleStatus)
    ensures
        VehicleStatus::parse_spec(s.name()) == Some(s),
{
    reveal_strlit("active");
    reveal_strlit("maintenance");
    reveal_strlit("decommissioned");
    assert("active"@.len() != "maintenance"@.len());
    assert("active"@.len() != "decommissioned"@.len());
    assert("maintenance"@.len() != "decommissioned"@.len());
}

/// A fleet vehicle. Calendar dates (`insurance_expiry`) are day numbers
/// counted from the common era (`NaiveDate::num_days_from_ce`); `registered_at`
/// is in microseconds since the Unix epoch.
#[derive(Debug, Clone, PartialEq)]
pub struct Vehicle {
    pub id: VehicleId,
    pub plate_number: String,
    pub vehicle_type: VehicleType,
    pub status: VehicleStatus,
    pub assigned_courier_id: Option<u128>,
    pub insurance_expiry: Option<i32>,
    pub registered_at: i64,
}

impl Vehicle {
    /// An active, unassigned vehicle; the plate number must not be blank.
    pub fn register(
        id: VehicleId,
        plate_number: &str,
        vehicle_type: VehicleType,
        insurance_expiry: Option<i32>,
        registered_at: i64,
    ) -> (r: Result<Vehicle, DomainError>)
        ensures
            is_blank_spec(plate_number@) ==> fails_validation(r, "plate number is required"@),
            !is_blank_spec(plate_number@) ==> (r matches Ok(v) && v.id == id && v.plate_number@
                == plate_number@ && v.vehicle_type == vehicle_type && v.status
                == VehicleStatus::Active && v.assigned_courier_id is None && v.insurance_expiry
                == insurance_expiry && v.registered_at == registered_at),
    {
        if is_blank(plate_number) {
            return Err(validation_error("plate number is required"));
        }
        Ok(
            Vehicle {
                id,
                plate_number: plate_number.to_owned(),
                vehicle_type,
                status: VehicleStatus::Active,
                assigned_courier_id: None,
                insurance_expiry,
                registered_at,
            },
        )
    }

    /// Assigns a courier to an active vehicle.
    pub fn assign_courier(&mut self, courier_id: u128) -> (r: Result<(), DomainError>)
        ensures
            old(self).status != VehicleStatus::Active ==> *final(self) == *old(self)
                && fails_transition(
                r,
                "cannot assign courier to a "@ + old(self).status.name() + " vehicle"@,
            ),
            old(self).status == VehicleStatus::Active && courier_id == 0 ==> *final(self)
                == *old(self) && fails_validation(r, "courier id is required"@),
            old(self).status == VehicleStatus::Active && courier_id != 0 ==> r is Ok && *final(
                self) == (Vehicle { assigned_courier_id: Some(courier_id), ..*old(self) }),
    {
        if self.status != VehicleStatus::Active {
            return Err(
                DomainError::invalid_transition(
                    join_text("cannot assign courier to a ", self.status.as_str()).concat(
                        " vehicle",
                    ),
                ),
            );
        }
        if courier_id == 0 {
            return Err(validation_error("courier id is required"));
        }
        self.assigned_courier_id = Some(courier_id);
        Ok(())
    }

    pub fn unassign_courier(&mut self)
        ensures
            *final(self) == (Vehicle { assigned_courier_id: None, ..*old(self) }),
    {
        self.assigned_courier_id = None;
    }

    /// Active -> Maintenance, dropping the courier assignment.
    pub fn send_to_maintenance(&mut self) -> (r: Result<(), DomainError>)
        ensures
            old(self).status == VehicleStatus::Active ==> r is Ok && *final(self) == (Vehicle {
                assigned_courier_id: None,
                status: VehicleStatus::Maintenance,
                ..*old(self)
            }),
            old(self).status != VehicleStatus::Active ==> *final(self) == *old(self)
                && fails_transition(
                r,
                "only active vehicles can be sent to maintenance, current status: "@ + old(
                    self,
                ).status.name(),
            ),
    {
        if self.status != VehicleStatus::Active {
            return Err(
                DomainError::invalid_transition(
                    join_text(
                        "only active vehicles can be sent to maintenance, current status: ",
                        self.status.as_str(),
                    ),
                ),
            );
        }
        self.assigned_courier_id = None;
        self.status = VehicleStatus::Maintenance;
        Ok(())
    }

    /// Maintenance -> Active.
    pub fn activate(&mut self) -> (r: Result<(), DomainError>)
        ensures
            old(self).status == VehicleStatus::Maintenance ==> r is Ok && *final(self) == (
            Vehicle { status: VehicleStatus::Active, ..*old(self) }),
            old(self).status != VehicleStatus::Maintenance ==> *final(self) == *old(self)
                && fails_transition(
                r,
                "only vehicles in maintenance can be activated, current status: "@ + old(
                    self,
                ).status.name(),
            ),
    {
        if self.status != VehicleStatus::Maintenance {
            return Err(
                DomainError::invalid_transition(
                    join_text(
                        "only vehicles in maintenance can be activated, current status: ",
                        self.status.as_str(),
                    ),
                ),
            );
        }
        self.status = VehicleStatus::Active;
        Ok(())
    }

    /// Any status but Decommissioned -> Decommissioned, dropping the courier.
    pub fn decommission(&mut self) -> (r: Result<(), DomainError>)
        ensures
            old(self).status != VehicleStatus::Decommissioned ==> r is Ok && *final(self) == (
            Vehicle {
                assigned_courier_id: None,
                status: VehicleStatus::Decommissioned,
                ..*old(self)
            }),
            old(self).status == VehicleStatus::Decommissioned ==> *final(self) == *old(self)
                && fails_transition(r, "vehicle is already decommissioned"@),
    {
        if self.status == VehicleStatus::Decommissioned {
            return Err(transition_error("vehicle is already decommissioned"));
        }
        self.assigned_courier_id = None;
        self.status = VehicleStatus::Decommissioned;
        Ok(())
    }

    /// The insurance has expired before `today`; a vehicle without a recorded
    /// expiry counts as expired.
    pub fn is_insurance_expired(&self, today: i32) -> (b: bool)
        ensures
            b == match self.insurance_expiry {
                Some(expiry) => expiry < today,
                None => true,
            },
    {
        match self.insurance_expiry {
            Some(expiry) => expiry < today,
            None => true,
        }
    }
}

} // verus!
