use vstd::prelude::*;

use crate::error::{fails_transition, fails_validation, join_text, transition_error, validation_error, DomainError};
use crate::money::Money;
use crate::order::OrderId;
use crate::platform::{new_id, uuid_version};
use crate::text::text_eq;

verus! {

/// Identifier of an invoice.
#[derive(Debug, Clone, Copy, PartialEq, Eq, Hash, Structural)]
pub struct InvoiceId(pub u128);

impl InvoiceId {
    /// A fresh time-ordered identifier.
    pub fn new() -> (id: InvoiceId)
        ensures
            id.0 != 0,
            uuid_version(id.0) == 7,
    {
        InvoiceId(new_id())
    }
}

impl Default for InvoiceId {
    fn default() -> (id: InvoiceId)
        ensures
            id.0 != 0,
            uuid_version(id.0) == 7,
    {
        InvoiceId::new()
    }
}

/// Lifecycle state of an invoice.
#[derive(Debug, Clone, Copy, PartialEq, Eq, Hash, Structural)]
pub enum InvoiceStatus {
    Draft,
    Issued,
    Paid,
    Cancelled,
    Refunded,
}

impl InvoiceStatus {
    /// The canonical text of each variant.
    pub open spec fn name(self) -> Seq<char> {
        match self {
            InvoiceStatus::Draft => "draft"@,
            InvoiceStatus::Issued => "issued"@,
            InvoiceStatus::Paid => "paid"@,
            InvoiceStatus::Cancelled => "cancelled"@,
            InvoiceStatus::Refunded => "refunded"@,
        }
    }

    /// The variant whose canonical text is `value`, if any.
    pub open spec fn parse_spec(value: Seq<char>) -> Option<InvoiceStatus> {
        if value == "draft"@ {
            Some(InvoiceStatus::Draft)
        } else if value == "issued"@ {
            Some(InvoiceStatus::Issued)
        } else if value == "paid"@ {
            Some(InvoiceStatus::Paid)
        } else if value == "cancelled"@ {
            Some(InvoiceStatus::Cancelled)
        } else if value == "refunded"@ {
            Some(InvoiceStatus::Refunded)
        } else {
            None
        }
    }

    /// The message of the error for an unknown text.
    pub open spec fn unknown_message(value: Seq<char>) -> Seq<char> {
        "unknown invoice status: "@ + value
    }

    pub fn as_str(&self) -> (s: &'static str)
        ensures
            s@ == self.name(),
    {
        match self {
            InvoiceStatus::Draft => "draft",
            InvoiceStatus::Issued => "issued",
            InvoiceStatus::Paid => "paid",
            InvoiceStatus::Cancelled => "cancelled",
            InvoiceStatus::Refunded => "refunded",
        }
    }

    /// Parses the canonical text of a variant.
    pub fn parse(value: &str) -> (r: Result<InvoiceStatus, DomainError>)
        ensures
            match InvoiceStatus::parse_spec(value@) {
                Some(s) => r == Ok::<InvoiceStatus, DomainError>(s),
                None => fails_validation(r, InvoiceStatus::unknown_message(value@)),
            },
    {
        if text_eq(value, "draft") {
            Ok(InvoiceStatus::Draft)
        } else if text_eq(value, "issued") {
            Ok(InvoiceStatus::Issued)
        } else if text_eq(value, "paid") {
            Ok(InvoiceStatus::Paid)
        } else if text_eq(value, "cancelled") {
            Ok(InvoiceStatus::Cancelled)
        } else if text_eq(value, "refunded") {
            Ok(InvoiceStatus::Refunded)
        } else {
            Err(DomainError::validation(join_text("unknown invoice status: ", value)))
        }
    }
}

impl std::str::FromStr for InvoiceStatus {
    type Err = DomainError;

    fn from_str(value: &str) -> (r: Result<InvoiceStatus, DomainError>)
        ensures
            match InvoiceStatus::parse_spec(value@) {
                Some(s) => r == Ok::<InvoiceStatus, DomainError>(s),
                None => fails_validation(r, InvoiceStatus::unknown_message(value@)),
            },
    {
        InvoiceStatus::parse(value)
    }
}

/// Every variant's canonical text parses back to that variant.
pub proof fn lemma_invoice_status_text_round_trip(s: InvoiceStatus)
    ensures
        InvoiceStatus::parse_spec(s.name()) == Some(s),
{
    reveal_strlit("draft");
    reveal_strlit("issued");
    reveal_strlit("paid");
    reveal_strlit("cancelled");
    reveal_strlit("refunded");
    assert("draft"@.len() != "issued"@.len());
    assert("draft"@.len() != "paid"@.len());
    assert("draft"@.len() != "cancelled"@.len());
    assert("draft"@.len() != "refunded"@.len());
    assert("issued"@.len() != "paid"@.len());
    assert("issued"@.len() != "cancelled"@.len());
    assert("issued"@.len() != "refunded"@.len());
    assert("paid"@.len() != "cancelled"@.len());
    assert("paid"@.len() != "refunded"@.len());
    assert("cancelled"@.len() != "refunded"@.len());
}

impl InvoiceStatus {
    pub fn can_issue(&self) -> (b: bool)
        ensures
            b == (*self == InvoiceStatus::Draft),
    {
        *self == InvoiceStatus::Draft
    }

    pub fn can_pay(&self) -> (b: bool)
        ensures
            b == (*self == InvoiceStatus::Issued),
    {
        *self == InvoiceStatus::Issued
    }

    pub fn can_cancel(&self) -> (b: bool)
        ensures
            b == (*self == InvoiceStatus::Draft || *self == InvoiceStatus::Issued),
    {
        *self == InvoiceStatus::Draft || *self == InvoiceStatus::Issued
    }

    pub fn can_refund(&self) -> (b: bool)
        ensures
            b == (*self == InvoiceStatus::Paid),
    {
        *self == InvoiceStatus::Paid
    }
}

/// An operation that moves an invoice along its lifecycle.
#[derive(Debug, Clone, Copy, PartialEq, Eq, Structural)]
pub enum InvoiceAction {
    Issue,
    Pay,
    Cancel,
    Refund,
}

impl InvoiceStatus {
    /// The status an action leads to from this one, if the action is allowed.
    pub open spec fn step(self, action: InvoiceAction) -> Option<InvoiceStatus> {
        match (action, self) {
            (InvoiceAction::Issue, InvoiceStatus::Draft) => Some(InvoiceStatus::Issued),
            (InvoiceAction::Pay, InvoiceStatus::Issued) => Some(InvoiceStatus::Paid),
            (InvoiceAction::Cancel, InvoiceStatus::Draft) => Some(InvoiceStatus::Cancelled),
            (InvoiceAction::Cancel, InvoiceStatus::Issued) => Some(InvoiceStatus::Cancelled),
            (InvoiceAction::Refund, InvoiceStatus::Paid) => Some(InvoiceStatus::Refunded),
            _ => None,
        }
    }

    /// How far along its lifecycle an invoice with this status is.
    pub open spec fn rank(self) -> int {
        match self {
            InvoiceStatus::Draft => 0,
            InvoiceStatus::Issued => 1,
            InvoiceStatus::Paid => 2,
            InvoiceStatus::Cancelled => 3,
            InvoiceStatus::Refunded => 3,
        }
    }
}

/// Every allowed invoice transition moves strictly forward; cancelled and
/// refunded invoices accept no transition; only an issued invoice can be
/// paid and only a paid one refunded, so a draft is never paid directly.
pub proof fn law_invoice_lifecycle(s: InvoiceStatus, action: InvoiceAction)
    ensures
        s.step(action) matches Some(t) ==> t.rank() > s.rank(),
        (s == InvoiceStatus::Cancelled || s == InvoiceStatus::Refunded) ==> s.step(action) is None,
        s.step(action) == Some(InvoiceStatus::Paid) ==> s == InvoiceStatus::Issued,
        s.step(action) == Some(InvoiceStatus::Refunded) ==> s == InvoiceStatus::Paid,
{
}


/// An invoice for an order. Timestamps are microseconds since the Unix epoch.
#[derive(Debug, Clone, PartialEq)]
pub struct Invoice {
    pub id: InvoiceId,
    pub order_id: OrderId,
    pub customer_id: u128,
    pub amount: Money,
    pub status: InvoiceStatus,
    pub created_at: i64,
    pub issued_at: Option<i64>,
    pub paid_at: Option<i64>,
}

/// The message of an invalid invoice transition attempted from `status`.
pub open spec fn invoice_transition_message(verb: Seq<char>, status: InvoiceStatus) -> Seq<char> {
    "cannot "@ + verb + " an invoice in status "@ + status.name()
}

impl Invoice {
    /// A draft invoice; the customer must be set and the amount non-zero.
    pub fn create(
        id: InvoiceId,
        order_id: OrderId,
        customer_id: u128,
        amount: Money,
        now: i64,
    ) -> (r: Result<Invoice, DomainError>)
        ensures
            customer_id == 0 ==> fails_validation(r, "customer id is required"@),
            customer_id != 0 && amount.amount_minor == 0 ==> fails_validation(
                r,
                "invoice amount must be greater than zero"@,
            ),
            customer_id != 0 && amount.amount_minor != 0 ==> r == Ok::<Invoice, DomainError>(
                Invoice {
                    id,
                    order_id,
                    customer_id,
                    amount,
                    status: InvoiceStatus::Draft,
                    created_at: now,
                    issued_at: None,
                    paid_at: None,
                },
            ),
    {
        if customer_id == 0 {
            return Err(validation_error("customer id is required"));
        }
        if amount.amount_minor == 0 {
            return Err(validation_error("invoice amount must be greater than zero"));
        }
        Ok(Invoice {
            id,
            order_id,
            customer_id,
            amount,
            status: InvoiceStatus::Draft,
            created_at: now,
            issued_at: None,
            paid_at: None,
        })
    }

    /// Draft -> Issued, stamping `issued_at`.
    pub fn issue(&mut self, now: i64) -> (r: Result<(), DomainError>)
        ensures
            (r is Ok) == (old(self).status.step(InvoiceAction::Issue) is Some),
            r is Ok ==> old(self).status.step(InvoiceAction::Issue) == Some(final(self).status),
            old(self).status == InvoiceStatus::Draft ==> r is Ok && *final(self) == (Invoice {
                status: InvoiceStatus::Issued,
                issued_at: Some(now),
                ..*old(self)
            }),
            old(self).status != InvoiceStatus::Draft ==> *final(self) == *old(self)
                && fails_transition(r, invoice_transition_message("issue"@, old(self).status)),
    {
        if !self.status.can_issue() {
            proof {
                reveal_strlit("cannot issue an invoice in status ");
                reveal_strlit("cannot ");
                reveal_strlit("issue");
                reveal_strlit(" an invoice in status ");
            }
            let m = join_text("cannot issue an invoice in status ", self.status.as_str());
            assert(m@ =~= invoice_transition_message("issue"@, self.status));
            return Err(DomainError::invalid_transition(m));
        }
        self.status = InvoiceStatus::Issued;
        self.issued_at = Some(now);
        Ok(())
    }

    /// Issued -> Paid, stamping `paid_at`.
    pub fn pay(&mut self, now: i64) -> (r: Result<(), DomainError>)
        ensures
            (r is Ok) == (old(self).status.step(InvoiceAction::Pay) is Some),
            r is Ok ==> old(self).status.step(InvoiceAction::Pay) == Some(final(self).status),
            old(self).status == InvoiceStatus::Issued ==> r is Ok && *final(self) == (Invoice {
                status: InvoiceStatus::Paid,
                paid_at: Some(now),
                ..*old(self)
            }),
            !(old(self).status == InvoiceStatus::Issued) ==> *final(self) == *old(self) && fails_transition(
                r,
                invoice_transition_message("pay"@, old(self).status),
            ),
    {
        if !self.status.can_pay() {
            proof {
                reveal_strlit("cannot pay an invoice in status ");
                reveal_strlit("cannot ");
                reveal_strlit("pay");
                reveal_strlit(" an invoice in status ");
            }
            let m = join_text("cannot pay an invoice in status ", self.status.as_str());
            assert(m@ =~= invoice_transition_message("pay"@, self.status));
            return Err(DomainError::invalid_transition(m));
        }
        self.status = InvoiceStatus::Paid;
        self.paid_at = Some(now);
        Ok(())
    }

    /// Draft or Issued -> Cancelled.
    pub fn cancel(&mut self) -> (r: Result<(), DomainError>)
        ensures
            (r is Ok) == (old(self).status.step(InvoiceAction::Cancel) is Some),
            r is Ok ==> old(self).status.step(InvoiceAction::Cancel) == Some(final(self).status),
            (old(self).status == InvoiceStatus::Draft || old(self).status == InvoiceStatus::Issued) ==> r is Ok && *final(self) == (Invoice {
                status: InvoiceStatus::Cancelled,
                ..*old(self)
            }),
            !((old(self).status == InvoiceStatus::Draft || old(self).status == InvoiceStatus::Issued)) ==> *final(self) == *old(self) && fails_transition(
                r,
                invoice_transition_message("cancel"@, old(self).status),
            ),
    {
        if !self.status.can_cancel() {
            proof {
                reveal_strlit("cannot cancel an invoice in status ");
                reveal_strlit("cannot ");
                reveal_strlit("cancel");
                reveal_strlit(" an invoice in status ");
            }
            let m = join_text("cannot cancel an invoice in status ", self.status.as_str());
            assert(m@ =~= invoice_transition_message("cancel"@, self.status));
            return Err(DomainError::invalid_transition(m));
        }
        self.status = InvoiceStatus::Cancelled;
        Ok(())
    }

    /// Paid -> Refunded.
    pub fn refund(&mut self) -> (r: Result<(), DomainError>)
        ensures
            (r is Ok) == (old(self).status.step(InvoiceAction::Refund) is Some),
            r is Ok ==> old(self).status.step(InvoiceAction::Refund) == Some(final(self).status),
            old(self).status == InvoiceStatus::Paid ==> r is Ok && *final(self) == (Invoice {
                status: InvoiceStatus::Refunded,
                ..*old(self)
            }),
            !(old(self).status == InvoiceStatus::Paid) ==> *final(self) == *old(self) && fails_transition(
                r,
                invoice_transition_message("refund"@, old(self).status),
            ),
    {
        if !self.status.can_refund() {
            proof {
                reveal_strlit("cannot refund an invoice in status ");
                reveal_strlit("cannot ");
                reveal_strlit("refund");
                reveal_strlit(" an invoice in status ");
            }
            let m = join_text("cannot refund an invoice in status ", self.status.as_str());
            assert(m@ =~= invoice_transition_message("refund"@, self.status));
            return Err(DomainError::invalid_transition(m));
        }
        self.status = InvoiceStatus::Refunded;
        Ok(())
    }
}

/// Lifecycle state of a courier payout.
#[derive(Debug, Clone, Copy, PartialEq, Eq, Hash, Structural)]
pub enum PayoutStatus {
    Pending,
    Approved,
    Paid,
}

impl PayoutStatus {
    /// The canonical text of each variant.
    pub open spec fn name(self) -> Seq<char> {
        match self {
            PayoutStatus::Pending => "pending"@,
            PayoutStatus::Approved => "approved"@,
            PayoutStatus::Paid => "paid"@,
        }
    }

    /// The variant whose canonical text is `value`, if any.
    pub open spec fn parse_spec(value: Seq<char>) -> Option<PayoutStatus> {
        if value == "pending"@ {
            Some(PayoutStatus::Pending)
        } else if value == "approved"@ {
            Some(PayoutStatus::Approved)
        } else if value == "paid"@ {
            Some(PayoutStatus::Paid)
        } else {
            None
        }
    }

    /// The message of the error for an unknown text.
    pub open spec fn unknown_message(value: Seq<char>) -> Seq<char> {
        "unknown payout status: "@ + value
    }

    pub fn as_str(&self) -> (s: &'static str)
        ensures
            s@ == self.name(),
    {
        match self {
            PayoutStatus::Pending => "pending",
            PayoutStatus::Approved => "approved",
            PayoutStatus::Paid => "paid",
        }
    }

    /// Parses the canonical text of a variant.
    pub fn parse(value: &str) -> (r: Result<PayoutStatus, DomainError>)
        ensures
            match PayoutStatus::parse_spec(value@) {
                Some(s) => r == Ok::<PayoutStatus, DomainError>(s),
                None => fails_validation(r, PayoutStatus::unknown_message(value@)),
            },
    {
        if text_eq(value, "pending") {
            Ok(PayoutStatus::Pending)
        } else if text_eq(value, "approved") {
            Ok(PayoutStatus::Approved)
        } else if text_eq(value, "paid") {
            Ok(PayoutStatus::Paid)
        } else {
            Err(DomainError::validation(join_text("unknown payout status: ", value)))
        }
    }
}

impl std::str::FromStr for PayoutStatus {
    type Err = DomainError;

    fn from_str(value: &str) -> (r: Result<PayoutStatus, DomainError>)
        ensures
            match PayoutStatus::parse_spec(value@) {
                Some(s) => r == Ok::<PayoutStatus, DomainError>(s),
                None => fails_validation(r, PayoutStatus::unknown_message(value@)),
            },
    {
        PayoutStatus::parse(value)
    }
}

/// Every variant's canonical text parses back to that variant.
pub proof fn lemma_payout_status_text_round_trip(s: PayoutStatus)
    ensures
        PayoutStatus::parse_spec(s.name()) == Some(s),
{
    reveal_strlit("pending");
    reveal_strlit("approved");
    reveal_strlit("paid");
    assert("pending"@.len() != "approved"@.len());
    assert("pending"@.len() != "paid"@.len());
    assert("approved"@.len() != "paid"@.len());
}

/// A courier payout for a settlement period. `net_amount` is the gross amount
/// minus the commission, in the same currency.
#[derive(Debug, Clone, PartialEq)]
pub struct CourierPayout {
    pub id: u128,
    pub courier_id: u128,
    pub period_start: i64,
    pub period_end: i64,
    pub gross_amount: Money,
    pub commission: Money,
    pub net_amount: Money,
    pub status: PayoutStatus,
    pub created_at: i64,
}

/// The message of the first check that `CourierPayout::create` fails, if any.
pub open spec fn payout_error(
    courier_id: u128,
    period_start: i64,
    period_end: i64,
    gross_amount: Money,
    commission: Money,
) -> Option<Seq<char>> {
    if courier_id == 0 {
        Some("courier id is required"@)
    } else if period_end <= period_start {
        Some("period end must be after period start"@)
    } else if gross_amount.currency@ != commission.currency@ {
        Some("gross amount and commission must share the same currency"@)
    } else if gross_amount.amount_minor - commission.amount_minor < 0 {
        Some("commission cannot exceed gross amount"@)
    } else {
        None
    }
}

impl CourierPayout {
    /// A pending payout whose net amount is `gross - commission`.
    pub fn create(
        courier_id: u128,
        period_start: i64,
        period_end: i64,
        gross_amount: Money,
        commission: Money,
        now: i64,
    ) -> (r: Result<CourierPayout, DomainError>)
        requires
            courier_id != 0 && period_start < period_end && gross_amount.currency@
                == commission.currency@ ==> i64::MIN <= gross_amount.amount_minor
                - commission.amount_minor <= i64::MAX,
        ensures
            match payout_error(courier_id, period_start, period_end, gross_amount, commission) {
                Some(m) => fails_validation(r, m),
                None => r matches Ok(p) && p.id != 0 && uuid_version(p.id) == 7 && p.courier_id
                    == courier_id && p.period_start == period_start && p.period_end == period_end
                    && p.gross_amount == gross_amount && p.commission == commission
                    && p.net_amount.amount_minor == gross_amount.amount_minor
                    - commission.amount_minor && p.net_amount.currency == gross_amount.currency
                    && p.status == PayoutStatus::Pending && p.created_at == now,
            },
    {
        if courier_id == 0 {
            return Err(validation_error("courier id is required"));
        }
        if period_end <= period_start {
            return Err(validation_error("period end must be after period start"));
        }
        if gross_amount.currency != commission.currency {
            return Err(
                validation_error("gross amount and commission must share the same currency"),
            );
        }
        let net_minor = gross_amount.amount_minor - commission.amount_minor;
        if net_minor < 0 {
            return Err(validation_error("commission cannot exceed gross amount"));
        }
        let net_amount = Money { amount_minor: net_minor, currency: gross_amount.currency.clone() };
        Ok(CourierPayout {
            id: new_id(),
            courier_id,
            period_start,
            period_end,
            gross_amount,
            commission,
            net_amount,
            status: PayoutStatus::Pending,
            created_at: now,
        })
    }

    /// Pending -> Approved.
    pub fn approve(&mut self) -> (r: Result<(), DomainError>)
        ensures
            old(self).status == PayoutStatus::Pending ==> r is Ok && *final(self) == (
            CourierPayout { status: PayoutStatus::Approved, ..*old(self) }),
            old(self).status != PayoutStatus::Pending ==> *final(self) == *old(self)
                && fails_transition(r, "only pending payouts can be approved"@),
    {
        if self.status != PayoutStatus::Pending {
            return Err(transition_error("only pending payouts can be approved"));
        }
        self.status = PayoutStatus::Approved;
        Ok(())
    }

    /// Approved -> Paid.
    pub fn mark_paid(&mut self) -> (r: Result<(), DomainError>)
        ensures
            old(self).status == PayoutStatus::Approved ==> r is Ok && *final(self) == (
            CourierPayout { status: PayoutStatus::Paid, ..*old(self) }),
            old(self).status != PayoutStatus::Approved ==> *final(self) == *old(self)
                && fails_transition(r, "only approved payouts can be marked as paid"@),
    {
        if self.status != PayoutStatus::Approved {
            return Err(transition_error("only approved payouts can be marked as paid"));
        }
        self.status = PayoutStatus::Paid;
        Ok(())
    }
}

} // verus!
