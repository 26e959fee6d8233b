use vstd::prelude::*;

use crate::error::{fails_transition, fails_validation, join_text, transition_error, validation_error, DomainError};
use crate::order::OrderId;
use crate::platform::{new_id, uuid_version};
use crate::text::text_eq;

verus! {

/// State of a courier assignment. While `Offered`, the order stays `Pending` and the\ncourier stays `Available`, so a rejection or expiry has nothing to unwind.
#[derive(Debug, Clone, Copy, PartialEq, Eq, Hash, Structural)]
pub enum AssignmentStatus {
    Offered,
    Assigned,
    Completed,
    Cancelled,
}

impl AssignmentStatus {
    /// The canonical text of each variant.
    pub open spec fn name(self) -> Seq<char> {
        match self {
            AssignmentStatus::Offered => "offered"@,
            AssignmentStatus::Assigned => "assigned"@,
            AssignmentStatus::Completed => "completed"@,
            AssignmentStatus::Cancelled => "cancelled"@,
        }
    }

    /// The variant whose canonical text is `value`, if any.
    pub open spec fn parse_spec(value: Seq<char>) -> Option<AssignmentStatus> {
        if value == "offered"@ {
            Some(AssignmentStatus::Offered)
        } else if value == "assigned"@ {
            Some(AssignmentStatus::Assigned)
        } else if value == "completed"@ {
            Some(AssignmentStatus::Completed)
        } else if value == "cancelled"@ {
            Some(AssignmentStatus::Cancelled)
        } else {
            None
        }
    }

    /// The message of the error for an unknown text.
    pub open spec fn unknown_message(value: Seq<char>) -> Seq<char> {
        "unknown assignment status: "@ + value
    }

    pub fn as_str(&self) -> (s: &'static str)
        ensures
            s@ == self.name(),
    {
        match self {
            AssignmentStatus::Offered => "offered",
            AssignmentStatus::Assigned => "assigned",
            AssignmentStatus::Completed => "completed",
            AssignmentStatus::Cancelled => "cancelled",
        }
    }

    /// Parses the canonical text of a variant.
    pub fn parse(value: &str) -> (r: Result<AssignmentStatus, DomainError>)
        ensures
            match AssignmentStatus::parse_spec(value@) {
                Some(s) => r == Ok::<AssignmentStatus, DomainError>(s),
                None => fails_validation(r, AssignmentStatus::unknown_message(value@)),
            },
    {
        if text_eq(value, "offered") {
            Ok(AssignmentStatus::Offered)
        } else if text_eq(value, "assigned") {
            Ok(AssignmentStatus::Assigned)
        } else if text_eq(value, "completed") {
            Ok(AssignmentStatus::Completed)
        } else if text_eq(value, "cancelled") {
            Ok(AssignmentStatus::Cancelled)
        } else {
            Err(DomainError::validation(join_text("unknown assignment status: ", value)))
        }
    }
}

impl std::str::FromStr for AssignmentStatus {
    type Err = DomainError;

    fn from_str(value: &str) -> (r: Result<AssignmentStatus, DomainError>)
        ensures
            match AssignmentStatus::parse_spec(value@) {
                Some(s) => r == Ok::<AssignmentStatus, DomainError>(s),
                None => fails_validation(r, AssignmentStatus::unknown_message(value@)),
            },
    {
        AssignmentStatus::parse(value)
    }
}

/// Every variant's canonical text parses back to that variant.
pub proof fn lemma_assignment_status_text_round_trip(s: AssignmentStatus)
    ensures
        AssignmentStatus::parse_spec(s.name()) == Some(s),
{
    reveal_strlit("offered");
    reveal_strlit("assigned");
    reveal_strlit("completed");
    reveal_strlit("cancelled");
    assert("offered"@.len() != "assigned"@.len());
    assert("offered"@.len() != "completed"@.len());
    assert("offered"@.len() != "cancelled"@.len());
    assert("assigned"@.len() != "completed"@.len());
    assert("assigned"@.len() != "cancelled"@.len());
    assert("completed"@[1] != "cancelled"@[1]);
}

/// How long a courier has to respond to an offered job before it expires:
/// 45 seconds, in microseconds.
pub const OFFER_TTL: i64 = 45_000_000i64;

/// The assignment of an order to a courier. Timestamps are microseconds since
/// the Unix epoch.
#[derive(Debug, Clone, PartialEq)]
pub struct Assignment {
    pub id: u128,
    pub order_id: OrderId,
    pub courier_id: u128,
    pub status: AssignmentStatus,
    /// When this row was last (re)initiated: creation for `new`, the moment
    /// an offer became `Assigned` for `accept`.
    pub assigned_at: i64,
    /// When the current offer was made.
    pub offered_at: i64,
    /// When the courier accepted or rejected the offer, if ever.
    pub responded_at: Option<i64>,
    /// Couriers already offered this order who rejected it or let the offer
    /// expire, carried forward across re-offers so that the same job is never
    /// offered to the same courier twice.
    pub excluded_courier_ids: Vec<u128>,
}

/// An offer made at `offered_at` has expired at `now`.
pub open spec fn offer_expired(status: AssignmentStatus, offered_at: i64, now: i64) -> bool {
    status == AssignmentStatus::Offered && now >= offered_at + OFFER_TTL
}

impl Assignment {
    /// A direct assignment (already `Assigned`) of the order to the courier.
    pub fn new(order_id: OrderId, courier_id: u128, now: i64) -> (r: Result<Assignment, DomainError>)
        ensures
            courier_id == 0 ==> fails_validation(r, "courier id is required"@),
            courier_id != 0 ==> (r matches Ok(a) && a.id != 0 && uuid_version(a.id) == 7
                && a.order_id == order_id && a.courier_id == courier_id && a.status
                == AssignmentStatus::Assigned && a.assigned_at == now && a.offered_at == now
                && a.responded_at is None && a.excluded_courier_ids@ == Seq::<u128>::empty()),
    {
        if courier_id == 0 {
            return Err(validation_error("courier id is required"));
        }
        Ok(
            Assignment {
                id: new_id(),
                order_id,
                courier_id,
                status: AssignmentStatus::Assigned,
                assigned_at: now,
                offered_at: now,
                responded_at: None,
                excluded_courier_ids: Vec::new(),
            },
        )
    }

    /// A pending offer for the courier to accept or reject; the order and the
    /// courier are left as they are until a response arrives.
    pub fn offer(order_id: OrderId, courier_id: u128, now: i64) -> (r: Result<Assignment, DomainError>)
        ensures
            courier_id == 0 ==> fails_validation(r, "courier id is required"@),
            courier_id != 0 ==> (r matches Ok(a) && a.id != 0 && uuid_version(a.id) == 7
                && a.order_id == order_id && a.courier_id == courier_id && a.status
                == AssignmentStatus::Offered && a.assigned_at == now && a.offered_at == now
                && a.responded_at is None && a.excluded_courier_ids@ == Seq::<u128>::empty()),
    {
        Assignment::offer_excluding(order_id, courier_id, Vec::new(), now)
    }

    /// Like `offer`, recording the couriers this order was already offered
    /// to and who rejected it or let it expire.
    pub fn offer_excluding(
        order_id: OrderId,
        courier_id: u128,
        excluded_courier_ids: Vec<u128>,
        now: i64,
    ) -> (r: Result<Assignment, DomainError>)
        ensures
            courier_id == 0 ==> fails_validation(r, "courier id is required"@),
            courier_id != 0 ==> (r matches Ok(a) && a.id != 0 && uuid_version(a.id) == 7
                && a.order_id == order_id && a.courier_id == courier_id && a.status
                == AssignmentStatus::Offered && a.assigned_at == now && a.offered_at == now
                && a.responded_at is None && a.excluded_courier_ids == excluded_courier_ids),
    {
        if courier_id == 0 {
            return Err(validation_error("courier id is required"));
        }
        Ok(
            Assignment {
                id: new_id(),
                order_id,
                courier_id,
                status: AssignmentStatus::Offered,
                assigned_at: now,
                offered_at: now,
                responded_at: None,
                excluded_courier_ids,
            },
        )
    }

    /// The offer is still pending and its time to respond has run out.
    pub fn is_offer_expired(&self, now: i64) -> (b: bool)
        ensures
            b == offer_expired(self.status, self.offered_at, now),
    {
        self.status == AssignmentStatus::Offered && (now as i128) >= (self.offered_at as i128)
            + (OFFER_TTL as i128)
    }

    /// Accepts a pending, unexpired offer.
    pub fn accept(&mut self, now: i64) -> (r: Result<(), DomainError>)
        ensures
            old(self).status != AssignmentStatus::Offered ==> *final(self) == *old(self)
                && fails_transition(r, "cannot accept a "@ + old(self).status.name() + " assignment"@),
            old(self).status == AssignmentStatus::Offered && offer_expired(
                old(self).status,
                old(self).offered_at,
                now,
            ) ==> *final(self) == *old(self) && fails_transition(r, "offer has expired"@),
            old(self).status == AssignmentStatus::Offered && !offer_expired(
                old(self).status,
                old(self).offered_at,
                now,
            ) ==> r is Ok && *final(self) == (Assignment {
                status: AssignmentStatus::Assigned,
                assigned_at: now,
                responded_at: Some(now),
                ..*old(self)
            }),
    {
        if self.status != AssignmentStatus::Offered {
            return Err(
                DomainError::invalid_transition(
                    join_text("cannot accept a ", self.status.as_str()).concat(" assignment"),
                ),
            );
        }
        if self.is_offer_expired(now) {
            return Err(transition_error("offer has expired"));
        }
        self.status = AssignmentStatus::Assigned;
        self.assigned_at = now;
        self.responded_at = Some(now);
        Ok(())
    }

    /// Rejects a pending offer; an expired offer can be rejected too, which is
    /// how a lazily discovered expiry is recorded.
    pub fn reject(&mut self, now: i64) -> (r: Result<(), DomainError>)
        ensures
            old(self).status != AssignmentStatus::Offered ==> *final(self) == *old(self)
                && fails_transition(r, "cannot reject a "@ + old(self).status.name() + " assignment"@),
            old(self).status == AssignmentStatus::Offered ==> r is Ok && *final(self) == (
            Assignment {
                status: AssignmentStatus::Cancelled,
                responded_at: Some(now),
                ..*old(self)
            }),
    {
        if self.status != AssignmentStatus::Offered {
            return Err(
                DomainError::invalid_transition(
                    join_text("cannot reject a ", self.status.as_str()).concat(" assignment"),
                ),
            );
        }
        self.status = AssignmentStatus::Cancelled;
        self.responded_at = Some(now);
        Ok(())
    }

    pub fn complete(&mut self)
        ensures
            *final(self) == (Assignment { status: AssignmentStatus::Completed, ..*old(self) }),
    {
        self.status = AssignmentStatus::Completed;
    }

    /// The couriers this order must never be re-offered to next: those already
    /// excluded here, plus this row's courier, appended once.
    pub fn excluded_including_self(&self) -> (excluded: Vec<u128>)
        ensures
            excluded@.contains(self.courier_id),
            self.excluded_courier_ids@.no_duplicates() ==> excluded@.no_duplicates(),
            excluded@ == if self.excluded_courier_ids@.contains(self.courier_id) {
                self.excluded_courier_ids@
            } else {
                self.excluded_courier_ids@.push(self.courier_id)
            },
    {
        let mut excluded: Vec<u128> = Vec::new();
        let mut found = false;
        let n = self.excluded_courier_ids.len();
        let mut i: usize = 0;
        while i < n
            invariant
                n == self.excluded_courier_ids@.len(),
                i <= n,
                excluded@ == self.excluded_courier_ids@.subrange(0, i as int),
                found == (exists|k: int|
                    0 <= k < i && self.excluded_courier_ids@[k] == self.courier_id),
            decreases n - i,
        {
            let c = self.excluded_courier_ids[i];
            proof {
                assert(self.excluded_courier_ids@.subrange(0, i + 1) =~= self.excluded_courier_ids@.subrange(
                    0,
                    i as int,
                ).push(c));
            }
            if c == self.courier_id {
                found = true;
                assert(self.excluded_courier_ids@[i as int] == self.courier_id);
            }
            excluded.push(c);
            i = i + 1;
        }
        assert(self.excluded_courier_ids@.subrange(0, n as int) =~= self.excluded_courier_ids@);
        let ghost ids = self.excluded_courier_ids@;
        if !found {
            excluded.push(self.courier_id);
            proof {
                assert(excluded@[ids.len() as int] == self.courier_id);
                assert forall|a: int, b: int|
                    0 <= a < excluded@.len() && 0 <= b < excluded@.len() && a != b && ids.no_duplicates()
                        implies excluded@[a] != excluded@[b] by {
                    if a == ids.len() {
                        assert(ids[b] != self.courier_id);
                    } else if b == ids.len() {
                        assert(ids[a] != self.courier_id);
                    } else {
                        assert(excluded@[a] == ids[a]);
                        assert(excluded@[b] == ids[b]);
                    }
                }
            }
        } else {
            proof {
                let k = choose|k: int| 0 <= k < n && self.excluded_courier_ids@[k] == self.courier_id;
                assert(excluded@[k] == self.courier_id);
            }
        }
        excluded
    }
}

} // verus!
