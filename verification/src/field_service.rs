use vstd::prelude::*;

use crate::error::{fails_validation, join_text, DomainError};
use crate::platform::{new_id, uuid_version};
use crate::tenant::TenantId;
use crate::text::text_eq;

verus! {

/// Appointment window: Morning 09:00-12:00, Afternoon 12:00-16:00, Evening 16:00-20:00.
#[derive(Debug, Clone, Copy, PartialEq, Eq, Structural)]
pub enum TimeSlotWindow {
    Morning,
    Afternoon,
    Evening,
}

impl TimeSlotWindow {
    /// The canonical text of each variant.
    pub open spec fn name(self) -> Seq<char> {
        match self {
            TimeSlotWindow::Morning => "Morning"@,
            TimeSlotWindow::Afternoon => "Afternoon"@,
            TimeSlotWindow::Evening => "Evening"@,
        }
    }

    /// The variant whose canonical text is `value`, if any.
    pub open spec fn parse_spec(value: Seq<char>) -> Option<TimeSlotWindow> {
        if value == "Morning"@ {
            Some(TimeSlotWindow::Morning)
        } else if value == "Afternoon"@ {
            Some(TimeSlotWindow::Afternoon)
        } else if value == "Evening"@ {
            Some(TimeSlotWindow::Evening)
        } else {
            None
        }
    }

    /// The message of the error for an unknown text.
    pub open spec fn unknown_message(value: Seq<char>) -> Seq<char> {
        "unknown time slot window: "@ + value
    }

    pub fn as_str(&self) -> (s: &'static str)
        ensures
            s@ == self.name(),
    {
        match self {
            TimeSlotWindow::Morning => "Morning",
            TimeSlotWindow::Afternoon => "Afternoon",
            TimeSlotWindow::Evening => "Evening",
        }
    }

    /// Parses the canonical text of a variant.
    pub fn parse(value: &str) -> (r: Result<TimeSlotWindow, DomainError>)
        ensures
            match TimeSlotWindow::parse_spec(value@) {
                Some(s) => r == Ok::<TimeSlotWindow, DomainError>(s),
                None => fails_validation(r, TimeSlotWindow::unknown_message(value@)),
            },
    {
        if text_eq(value, "Morning") {
            Ok(TimeSlotWindow::Morning)
        } else if text_eq(value, "Afternoon") {
            Ok(TimeSlotWindow::Afternoon)
        } else if text_eq(value, "Evening") {
            Ok(TimeSlotWindow::Evening)
        } else {
            Err(DomainError::validation(join_text("unknown time slot window: ", value)))
        }
    }
}

impl std::str::FromStr for TimeSlotWindow {
    type Err = DomainError;

    fn from_str(value: &str) -> (r: Result<TimeSlotWindow, DomainError>)
        ensures
            match TimeSlotWindow::parse_spec(value@) {
                Some(s) => r == Ok::<TimeSlotWindow, DomainError>(s),
                None => fails_validation(r, TimeSlotWindow::unknown_message(value@)),
            },
    {
        TimeSlotWindow::parse(value)
    }
}

/// Every variant's canonical text parses back to that variant.
pub proof fn lemma_time_slot_window_text_round_trip(s: TimeSlotWindow)
    ensures
        TimeSlotWindow::parse_spec(s.name()) == Some(s),
{
    reveal_strlit("Morning");
    reveal_strlit("Afternoon");
    reveal_strlit("Evening");
    assert("Morning"@.len() != "Afternoon"@.len());
    assert("Morning"@[0] != "Evening"@[0]);
    assert("Afternoon"@.len() != "Evening"@.len());
}

/// A scheduled on-site service visit.
#[derive(Debug, Clone)]
pub struct FieldServiceAppointment {
    pub id: u128,
    pub tenant_id: TenantId,
    pub customer_id: u128,
    pub technician_id: Option<u128>,
    /// e.g. "Maintenance", "Installation", "ScheduledDelivery".
    pub service_type: String,
    /// YYYY-MM-DD.
    pub appointment_date: String,
    pub slot_window: TimeSlotWindow,
    pub is_confirmed: bool,
}

/// Books field-service appointments.
pub struct FieldServiceScheduler;

impl FieldServiceScheduler {
    /// A confirmed appointment without technician.
    pub fn schedule_appointment(
        tenant_id: TenantId,
        customer_id: u128,
        service_type: &str,
        date: &str,
        slot: TimeSlotWindow,
    ) -> (a: FieldServiceAppointment)
        ensures
            a.id != 0,
            uuid_version(a.id) == 7,
            a.tenant_id == tenant_id,
            a.customer_id == customer_id,
            a.technician_id is None,
            a.service_type@ == service_type@,
            a.appointment_date@ == date@,
            a.slot_window == slot,
            a.is_confirmed,
    {
        FieldServiceAppointment {
            id: new_id(),
            tenant_id,
            customer_id,
            technician_id: None,
            service_type: service_type.to_owned(),
            appointment_date: date.to_owned(),
            slot_window: slot,
            is_confirmed: true,
        }
    }

    pub fn assign_technician(appointment: &mut FieldServiceAppointment, technician_id: u128)
        ensures
            *final(appointment) == (FieldServiceAppointment {
                technician_id: Some(technician_id),
                ..*old(appointment)
            }),
    {
        appointment.technician_id = Some(technician_id);
    }
}

} // verus!
