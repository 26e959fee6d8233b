use vstd::prelude::*;

use crate::error::{fails_transition, fails_validation, join_text, transition_error, validation_error, DomainError};
use crate::platform::{new_id, now_micros, uuid_version};
use crate::tenant::TenantId;
use crate::text::{is_blank, is_blank_spec, text_eq};

verus! {

/// State of a support ticket.
#[derive(Debug, Clone, Copy, PartialEq, Eq, Structural)]
pub enum TicketStatus {
    Open,
    InProgress,
    Resolved,
    Closed,
}

impl TicketStatus {
    /// The canonical text of each variant.
    pub open spec fn name(self) -> Seq<char> {
        match self {
            TicketStatus::Open => "open"@,
            TicketStatus::InProgress => "in_progress"@,
            TicketStatus::Resolved => "resolved"@,
            TicketStatus::Closed => "closed"@,
        }
    }

    /// The variant whose canonical text is `value`, if any.
    pub open spec fn parse_spec(value: Seq<char>) -> Option<TicketStatus> {
        if value == "open"@ {
            Some(TicketStatus::Open)
        } else if value == "in_progress"@ {
            Some(TicketStatus::InProgress)
        } else if value == "resolved"@ {
            Some(TicketStatus::Resolved)
        } else if value == "closed"@ {
            Some(TicketStatus::Closed)
        } else {
            None
        }
    }

    /// The message of the error for an unknown text.
    pub open spec fn unknown_message(value: Seq<char>) -> Seq<char> {
        "unknown support ticket status: "@ + value
    }

    pub fn as_str(&self) -> (s: &'static str)
        ensures
            s@ == self.name(),
    {
        match self {
            TicketStatus::Open => "open",
            TicketStatus::InProgress => "in_progress",
            TicketStatus::Resolved => "resolved",
            TicketStatus::Closed => "closed",
        }
    }

    /// Parses the canonical text of a variant.
    pub fn parse(value: &str) -> (r: Result<TicketStatus, DomainError>)
        ensures
            match TicketStatus::parse_spec(value@) {
                Some(s) => r == Ok::<TicketStatus, DomainError>(s),
                None => fails_validation(r, TicketStatus::unknown_message(value@)),
            },
    {
        if text_eq(value, "open") {
            Ok(TicketStatus::Open)
        } else if text_eq(value, "in_progress") {
            Ok(TicketStatus::InProgress)
        } else if text_eq(value, "resolved") {
            Ok(TicketStatus::Resolved)
        } else if text_eq(value, "closed") {
            Ok(TicketStatus::Closed)
        } else {
            Err(DomainError::validation(join_text("unknown support ticket status: ", value)))
        }
    }
}

impl std::str::FromStr for TicketStatus {
    type Err = DomainError;

    fn from_str(value: &str) -> (r: Result<TicketStatus, DomainError>)
        ensures
            match TicketStatus::parse_spec(value@) {
                Some(s) => r == Ok::<TicketStatus, DomainError>(s),
                None => fails_validation(r, TicketStatus::unknown_message(value@)),
            },
    {
        TicketStatus::parse(value)
    }
}

/// Every variant's canonical text parses back to that variant.
pub proof fn lemma_ticket_status_text_round_trip(s: TicketStatus)
    ensures
        TicketStatus::parse_spec(s.name()) == Some(s),
{
    reveal_strlit("open");
    reveal_strlit("in_progress");
    reveal_strlit("resolved");
    reveal_strlit("closed");
    assert("open"@.len() != "in_progress"@.len());
    assert("open"@.len() != "resolved"@.len());
    assert("open"@.len() != "closed"@.len());
    assert("in_progress"@.len() != "resolved"@.len());
    assert("in_progress"@.len() != "closed"@.len());
    assert("resolved"@.len() != "closed"@.len());
}

/// A customer's rating of a delivered order.
#[derive(Debug, Clone)]
pub struct CustomerRating {
    pub id: u128,
    pub order_id: u128,
    pub customer_id: u128,
    pub courier_id: u128,
    /// 1 to 5.
    pub rating_stars: u8,
    pub comment: Option<String>,
    pub photo_url: Option<String>,
    pub created_at: i64,
}

impl CustomerRating {
    /// A rating of 1 to 5 stars, stamped with the current time.
    pub fn new(
        order_id: u128,
        customer_id: u128,
        courier_id: u128,
        rating_stars: u8,
        comment: Option<String>,
    ) -> (r: Result<CustomerRating, DomainError>)
        ensures
            !(1 <= rating_stars <= 5) ==> fails_validation(
                r,
                "Rating stars must be between 1 and 5"@,
            ),
            1 <= rating_stars <= 5 ==> (r matches Ok(c) && c.id != 0 && uuid_version(c.id) == 7
                && c.order_id == order_id && c.customer_id == customer_id && c.courier_id
                == courier_id && c.rating_stars == rating_stars && c.comment == comment
                && c.photo_url is None),
    {
        if !(1 <= rating_stars && rating_stars <= 5) {
            return Err(validation_error("Rating stars must be between 1 and 5"));
        }
        Ok(
            CustomerRating {
                id: new_id(),
                order_id,
                customer_id,
                courier_id,
                rating_stars,
                comment,
                photo_url: None,
                created_at: now_micros(),
            },
        )
    }
}

/// A support ticket. It carries its own tenant: unlike a rating, a ticket may
/// be raised without any order reference.
#[derive(Debug, Clone)]
pub struct SupportTicket {
    pub id: u128,
    pub tenant_id: TenantId,
    pub customer_id: u128,
    pub order_id: Option<u128>,
    pub subject: String,
    pub message: String,
    pub status: TicketStatus,
    pub created_at: i64,
}

impl SupportTicket {
    /// An open ticket; subject and message must not be blank.
    pub fn open(
        tenant_id: TenantId,
        customer_id: u128,
        order_id: Option<u128>,
        subject: &str,
        message: &str,
        now: i64,
    ) -> (r: Result<SupportTicket, DomainError>)
        ensures
            is_blank_spec(subject@) ==> fails_validation(r, "subject is required"@),
            !is_blank_spec(subject@) && is_blank_spec(message@) ==> fails_validation(
                r,
                "message is required"@,
            ),
            !is_blank_spec(subject@) && !is_blank_spec(message@) ==> (r matches Ok(t) && t.id
                != 0 && uuid_version(t.id) == 7 && t.tenant_id == tenant_id && t.customer_id
                == customer_id && t.order_id == order_id && t.subject@ == subject@ && t.message@
                == message@ && t.status == TicketStatus::Open && t.created_at == now),
    {
        if is_blank(subject) {
            return Err(validation_error("subject is required"));
        }
        if is_blank(message) {
            return Err(validation_error("message is required"));
        }
        Ok(
            SupportTicket {
                id: new_id(),
                tenant_id,
                customer_id,
                order_id,
                subject: subject.to_owned(),
                message: message.to_owned(),
                status: TicketStatus::Open,
                created_at: now,
            },
        )
    }

    /// Open -> InProgress.
    pub fn start_progress(&mut self) -> (r: Result<(), DomainError>)
        ensures
            old(self).status == TicketStatus::Open ==> r is Ok && *final(self) == (SupportTicket {
                status: TicketStatus::InProgress,
                ..*old(self)
            }),
            old(self).status != TicketStatus::Open ==> *final(self) == *old(self)
                && fails_transition(
                r,
                "cannot start progress on a "@ + old(self).status.name() + " ticket"@,
            ),
    {
        if self.status != TicketStatus::Open {
            return Err(
                DomainError::invalid_transition(
                    join_text("cannot start progress on a ", self.status.as_str()).concat(" ticket"),
                ),
            );
        }
        self.status = TicketStatus::InProgress;
        Ok(())
    }

    /// Open or InProgress -> Resolved.
    pub fn resolve(&mut self) -> (r: Result<(), DomainError>)
        ensures
            (old(self).status == TicketStatus::Open || old(self).status == TicketStatus::InProgress)
                ==> r is Ok && *final(self) == (SupportTicket {
                status: TicketStatus::Resolved,
                ..*old(self)
            }),
            !(old(self).status == TicketStatus::Open || old(self).status
                == TicketStatus::InProgress) ==> *final(self) == *old(self) && fails_transition(
                r,
                "cannot resolve a "@ + old(self).status.name() + " ticket"@,
            ),
    {
        if !(self.status == TicketStatus::Open || self.status == TicketStatus::InProgress) {
            return Err(
                DomainError::invalid_transition(
                    join_text("cannot resolve a ", self.status.as_str()).concat(" ticket"),
                ),
            );
        }
        self.status = TicketStatus::Resolved;
        Ok(())
    }

    /// Any status but Closed -> Closed.
    pub fn close(&mut self) -> (r: Result<(), DomainError>)
        ensures
            old(self).status != TicketStatus::Closed ==> r is Ok && *final(self) == (
            SupportTicket { status: TicketStatus::Closed, ..*old(self) }),
            old(self).status == TicketStatus::Closed ==> *final(self) == *old(self)
                && fails_transition(r, "ticket is already closed"@),
    {
        if self.status == TicketStatus::Closed {
            return Err(transition_error("ticket is already closed"));
        }
        self.status = TicketStatus::Closed;
        Ok(())
    }
}

} // verus!
