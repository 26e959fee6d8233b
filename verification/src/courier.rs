use vstd::prelude::*;

use crate::error::{fails_transition, fails_validation, join_text, validation_error, DomainError};
use crate::location::Location;
use crate::platform::{id_text, uuid_text};
use crate::text::{is_blank, is_blank_spec, text_eq};

verus! {

/// The kind of vehicle a courier rides.
#[derive(Debug, Clone, Copy, PartialEq, Eq, Hash, Structural)]
pub enum VehicleType {
    Bicycle,
    Motorcycle,
    Car,
}

impl VehicleType {
    /// The canonical text of each variant.
    pub open spec fn name(self) -> Seq<char> {
        match self {
            VehicleType::Bicycle => "bicycle"@,
            VehicleType::Motorcycle => "motorcycle"@,
            VehicleType::Car => "car"@,
        }
    }

    /// The variant whose canonical text is `value`, if any.
    pub open spec fn parse_spec(value: Seq<char>) -> Option<VehicleType> {
        if value == "bicycle"@ {
            Some(VehicleType::Bicycle)
        } else if value == "motorcycle"@ {
            Some(VehicleType::Motorcycle)
        } else if value == "car"@ {
            Some(VehicleType::Car)
        } else {
            None
        }
    }

    /// The message of the error for an unknown text.
    pub open spec fn unknown_message(value: Seq<char>) -> Seq<char> {
        "unknown vehicle type: "@ + value
    }

    pub fn as_str(&self) -> (s: &'static str)
        ensures
            s@ == self.name(),
    {
        match self {
            VehicleType::Bicycle => "bicycle",
            VehicleType::Motorcycle => "motorcycle",
            VehicleType::Car => "car",
        }
    }

    /// Parses the canonical text of a variant.
    pub fn parse(value: &str) -> (r: Result<VehicleType, DomainError>)
        ensures
            match VehicleType::parse_spec(value@) {
                Some(s) => r == Ok::<VehicleType, DomainError>(s),
                None => fails_validation(r, VehicleType::unknown_message(value@)),
            },
    {
        if text_eq(value, "bicycle") {
            Ok(VehicleType::Bicycle)
        } else if text_eq(value, "motorcycle") {
            Ok(VehicleType::Motorcycle)
        } else if text_eq(value, "car") {
            Ok(VehicleType::Car)
        } else {
            Err(DomainError::validation(join_text("unknown vehicle type: ", value)))
        }
    }
}

impl std::str::FromStr for VehicleType {
    type Err = DomainError;

    fn from_str(value: &str) -> (r: Result<VehicleType, DomainError>)
        ensures
            match VehicleType::parse_spec(value@) {
                Some(s) => r == Ok::<VehicleType, DomainError>(s),
                None => fails_validation(r, VehicleType::unknown_message(value@)),
            },
    {
        VehicleType::parse(value)
    }
}

/// Every variant's canonical text parses back to that variant.
pub proof fn lemma_vehicle_type_text_round_trip(s: VehicleType)
    ensures
        VehicleType::parse_spec(s.name()) == Some(s),
{
    reveal_strlit("bicycle");
    reveal_strlit("motorcycle");
    reveal_strlit("car");
    assert("bicycle"@.len() != "motorcycle"@.len());
    assert("bicycle"@.len() != "car"@.len());
    assert("motorcycle"@.len() != "car"@.len());
}

/// Availability of a courier.
#[derive(Debug, Clone, Copy, PartialEq, Eq, Hash, Structural)]
pub enum CourierStatus {
    Available,
    Busy,
    Offline,
}

impl CourierStatus {
    /// The canonical text of each variant.
    pub open spec fn name(self) -> Seq<char> {
        match self {
            CourierStatus::Available => "available"@,
            CourierStatus::Busy => "busy"@,
            CourierStatus::Offline => "offline"@,
        }
    }

    /// The variant's identifier, as `{:?}` prints it.
    pub open spec fn debug_name(self) -> Seq<char> {
        match self {
            CourierStatus::Available => "Available"@,
            CourierStatus::Busy => "Busy"@,
            CourierStatus::Offline => "Offline"@,
        }
    }

    /// The variant whose canonical text is `value`, if any.
    pub open spec fn parse_spec(value: Seq<char>) -> Option<CourierStatus> {
        if value == "available"@ {
            Some(CourierStatus::Available)
        } else if value == "busy"@ {
            Some(CourierStatus::Busy)
        } else if value == "offline"@ {
            Some(CourierStatus::Offline)
        } else {
            None
        }
    }

    /// The message of the error for an unknown text.
    pub open spec fn unknown_message(value: Seq<char>) -> Seq<char> {
        "unknown courier status: "@ + value
    }

    pub fn as_str(&self) -> (s: &'static str)
        ensures
            s@ == self.name(),
    {
        match self {
            CourierStatus::Available => "available",
            CourierStatus::Busy => "busy",
            CourierStatus::Offline => "offline",
        }
    }

    /// The variant's identifier, as `{:?}` prints it.
    pub fn debug_str(&self) -> (s: &'static str)
        ensures
            s@ == self.debug_name(),
    {
        match self {
            CourierStatus::Available => "Available",
            CourierStatus::Busy => "Busy",
            CourierStatus::Offline => "Offline",
        }
    }

    /// Parses the canonical text of a variant.
    pub fn parse(value: &str) -> (r: Result<CourierStatus, DomainError>)
        ensures
            match CourierStatus::parse_spec(value@) {
                Some(s) => r == Ok::<CourierStatus, DomainError>(s),
                None => fails_validation(r, CourierStatus::unknown_message(value@)),
            },
    {
        if text_eq(value, "available") {
            Ok(CourierStatus::Available)
        } else if text_eq(value, "busy") {
            Ok(CourierStatus::Busy)
        } else if text_eq(value, "offline") {
            Ok(CourierStatus::Offline)
        } else {
            Err(DomainError::validation(join_text("unknown courier status: ", value)))
        }
    }
}

impl std::str::FromStr for CourierStatus {
    type Err = DomainError;

    fn from_str(value: &str) -> (r: Result<CourierStatus, DomainError>)
        ensures
            match CourierStatus::parse_spec(value@) {
                Some(s) => r == Ok::<CourierStatus, DomainError>(s),
                None => fails_validation(r, CourierStatus::unknown_message(value@)),
            },
    {
        CourierStatus::parse(value)
    }
}

/// Every variant's canonical text parses back to that variant.
pub proof fn lemma_courier_status_text_round_trip(s: CourierStatus)
    ensures
        CourierStatus::parse_spec(s.name()) == Some(s),
{
    reveal_strlit("available");
    reveal_strlit("busy");
    reveal_strlit("offline");
    assert("available"@.len() != "busy"@.len());
    assert("available"@.len() != "offline"@.len());
    assert("busy"@.len() != "offline"@.len());
}

impl CourierStatus {
    pub fn can_accept_work(&self) -> (b: bool)
        ensures
            b == (*self == CourierStatus::Available),
    {
        *self == CourierStatus::Available
    }
}

/// A courier. `registered_at` is in microseconds since the Unix epoch.
#[derive(Debug, Clone, PartialEq)]
pub struct Courier {
    pub id: u128,
    pub name: String,
    pub vehicle: VehicleType,
    pub status: CourierStatus,
    pub current_location: Option<Location>,
    pub registered_at: i64,
}

/// The message of a refused courier status change: `courier <id><middle><status>` and
/// the closing text.
pub open spec fn courier_status_message(
    id: u128,
    middle: Seq<char>,
    status: CourierStatus,
    closing: Seq<char>,
) -> Seq<char> {
    "courier "@ + uuid_text(id) + middle + status.debug_name() + closing
}

fn courier_status_error(id: u128, middle: &str, status: CourierStatus, closing: &str) -> (e:
    DomainError)
    ensures
        e is InvalidTransition,
        e.message() == courier_status_message(id, middle@, status, closing@),
{
    let m = join_text("courier ", id_text(id).as_str()).concat(middle).concat(
        status.debug_str(),
    ).concat(closing);
    DomainError::invalid_transition(m)
}

impl Courier {
    /// An available courier without a known location.
    pub fn create(id: u128, name: &str, vehicle: VehicleType, registered_at: i64) -> (r: Result<
        Courier,
        DomainError,
    >)
        ensures
            id == 0 ==> fails_validation(r, "courier id is required"@),
            id != 0 && is_blank_spec(name@) ==> fails_validation(r, "courier name is required"@),
            id != 0 && !is_blank_spec(name@) ==> (r matches Ok(c) && c.id == id
                && c.name@ == name@ && c.vehicle == vehicle && c.status == CourierStatus::Available
                && c.current_location is None && c.registered_at == registered_at),
    {
        if id == 0 {
            return Err(validation_error("courier id is required"));
        }
        if is_blank(name) {
            return Err(validation_error("courier name is required"));
        }
        Ok(
            Courier {
                id,
                name: name.to_owned(),
                vehicle,
                status: CourierStatus::Available,
                current_location: None,
                registered_at,
            },
        )
    }

    pub fn set_location(&mut self, location: Location)
        ensures
            *final(self) == (Courier { current_location: Some(location), ..*old(self) }),
    {
        self.current_location = Some(location);
    }

    /// Available -> Busy.
    pub fn go_busy(&mut self) -> (r: Result<(), DomainError>)
        ensures
            old(self).status == CourierStatus::Available ==> r is Ok && *final(self) == (
            Courier { status: CourierStatus::Busy, ..*old(self) }),
            old(self).status != CourierStatus::Available ==> *final(self) == *old(self)
                && fails_transition(
                r,
                courier_status_message(
                    old(self).id,
                    " is not available (status "@,
                    old(self).status,
                    ")"@,
                ),
            ),
    {
        if !self.status.can_accept_work() {
            return Err(courier_status_error(self.id, " is not available (status ", self.status, ")"));
        }
        self.status = CourierStatus::Busy;
        Ok(())
    }

    /// Busy -> Available.
    pub fn go_available(&mut self) -> (r: Result<(), DomainError>)
        ensures
            old(self).status == CourierStatus::Busy ==> r is Ok && *final(self) == (Courier {
                status: CourierStatus::Available,
                ..*old(self)
            }),
            old(self).status != CourierStatus::Busy ==> *final(self) == *old(self)
                && fails_transition(
                r,
                courier_status_message(old(self).id, " is not busy (status "@, old(self).status, ")"@),
            ),
    {
        if self.status != CourierStatus::Busy {
            return Err(courier_status_error(self.id, " is not busy (status ", self.status, ")"));
        }
        self.status = CourierStatus::Available;
        Ok(())
    }

    /// Available -> Offline.
    pub fn go_offline(&mut self) -> (r: Result<(), DomainError>)
        ensures
            old(self).status == CourierStatus::Available ==> r is Ok && *final(self) == (
            Courier { status: CourierStatus::Offline, ..*old(self) }),
            old(self).status != CourierStatus::Available ==> *final(self) == *old(self)
                && fails_transition(
                r,
                courier_status_message(
                    old(self).id,
                    " cannot go offline while "@,
                    old(self).status,
                    ""@,
                ),
            ),
    {
        if self.status != CourierStatus::Available {
            return Err(courier_status_error(self.id, " cannot go offline while ", self.status, ""));
        }
        self.status = CourierStatus::Offline;
        Ok(())
    }
}

} // verus!
