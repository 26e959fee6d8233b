use vstd::prelude::*;

use crate::error::{
    fails_not_found, fails_transition, fails_validation, join_text, not_found_error,
    transition_error, validation_error, DomainError,
};
use crate::location::Location;
use crate::money::Money;
use crate::platform::{new_id, uuid_version};
use crate::text::{is_blank, is_blank_spec, starts_with, starts_with_spec, text_eq};

verus! {

/// Identifier of an order.
#[derive(Debug, Clone, Copy, PartialEq, Eq, Hash, Structural)]
pub struct OrderId(pub u128);

impl OrderId {
    /// A fresh time-ordered identifier.
    pub fn new() -> (id: OrderId)
        ensures
            id.0 != 0,
            uuid_version(id.0) == 7,
    {
        OrderId(new_id())
    }
}

impl Default for OrderId {
    fn default() -> (id: OrderId)
        ensures
            id.0 != 0,
            uuid_version(id.0) == 7,
    {
        OrderId::new()
    }
}

/// A pickup or drop-off point.
#[derive(Debug, Clone, PartialEq)]
pub struct Address {
    pub location: Location,
    pub label: Option<String>,
}

/// Lifecycle state of an order.
#[derive(Debug, Clone, Copy, PartialEq, Eq, Hash, Structural)]
pub enum OrderStatus {
    Pending,
    CourierAssigned,
    InTransit,
    Delivered,
    Cancelled,
    Returned,
}

impl OrderStatus {
    /// The canonical text of each variant.
    pub open spec fn name(self) -> Seq<char> {
        match self {
            OrderStatus::Pending => "pending"@,
            OrderStatus::CourierAssigned => "courier_assigned"@,
            OrderStatus::InTransit => "in_transit"@,
            OrderStatus::Delivered => "delivered"@,
            OrderStatus::Cancelled => "cancelled"@,
            OrderStatus::Returned => "returned"@,
        }
    }

    /// The variant's identifier, as `{:?}` prints it.
    pub open spec fn debug_name(self) -> Seq<char> {
        match self {
            OrderStatus::Pending => "Pending"@,
            OrderStatus::CourierAssigned => "CourierAssigned"@,
            OrderStatus::InTransit => "InTransit"@,
            OrderStatus::Delivered => "Delivered"@,
            OrderStatus::Cancelled => "Cancelled"@,
            OrderStatus::Returned => "Returned"@,
        }
    }

    /// The variant whose canonical text is `value`, if any.
    pub open spec fn parse_spec(value: Seq<char>) -> Option<OrderStatus> {
        if value == "pending"@ {
            Some(OrderStatus::Pending)
        } else if value == "courier_assigned"@ {
            Some(OrderStatus::CourierAssigned)
        } else if value == "in_transit"@ {
            Some(OrderStatus::InTransit)
        } else if value == "delivered"@ {
            Some(OrderStatus::Delivered)
        } else if value == "cancelled"@ {
            Some(OrderStatus::Cancelled)
        } else if value == "returned"@ {
            Some(OrderStatus::Returned)
        } else {
            None
        }
    }

    /// The message of the error for an unknown text.
    pub open spec fn unknown_message(value: Seq<char>) -> Seq<char> {
        "unknown order status: "@ + value
    }

    pub fn as_str(&self) -> (s: &'static str)
        ensures
            s@ == self.name(),
    {
        match self {
            OrderStatus::Pending => "pending",
            OrderStatus::CourierAssigned => "courier_assigned",
            OrderStatus::InTransit => "in_transit",
            OrderStatus::Delivered => "delivered",
            OrderStatus::Cancelled => "cancelled",
            OrderStatus::Returned => "returned",
        }
    }

    /// The variant's identifier, as `{:?}` prints it.
    pub fn debug_str(&self) -> (s: &'static str)
        ensures
            s@ == self.debug_name(),
    {
        match self {
            OrderStatus::Pending => "Pending",
            OrderStatus::CourierAssigned => "CourierAssigned",
            OrderStatus::InTransit => "InTransit",
            OrderStatus::Delivered => "Delivered",
            OrderStatus::Cancelled => "Cancelled",
            OrderStatus::Returned => "Returned",
        }
    }

    /// Parses the canonical text of a variant.
    pub fn parse(value: &str) -> (r: Result<OrderStatus, DomainError>)
        ensures
            match OrderStatus::parse_spec(value@) {
                Some(s) => r == Ok::<OrderStatus, DomainError>(s),
                None => fails_validation(r, OrderStatus::unknown_message(value@)),
            },
    {
        if text_eq(value, "pending") {
            Ok(OrderStatus::Pending)
        } else if text_eq(value, "courier_assigned") {
            Ok(OrderStatus::CourierAssigned)
        } else if text_eq(value, "in_transit") {
            Ok(OrderStatus::InTransit)
        } else if text_eq(value, "delivered") {
            Ok(OrderStatus::Delivered)
        } else if text_eq(value, "cancelled") {
            Ok(OrderStatus::Cancelled)
        } else if text_eq(value, "returned") {
            Ok(OrderStatus::Returned)
        } else {
            Err(DomainError::validation(join_text("unknown order status: ", value)))
        }
    }
}

impl std::str::FromStr for OrderStatus {
    type Err = DomainError;

    fn from_str(value: &str) -> (r: Result<OrderStatus, DomainError>)
        ensures
            match OrderStatus::parse_spec(value@) {
                Some(s) => r == Ok::<OrderStatus, DomainError>(s),
                None => fails_validation(r, OrderStatus::unknown_message(value@)),
            },
    {
        OrderStatus::parse(value)
    }
}

/// Every variant's canonical text parses back to that variant.
pub proof fn lemma_order_status_text_round_trip(s: OrderStatus)
    ensures
        OrderStatus::parse_spec(s.name()) == Some(s),
{
    reveal_strlit("pending");
    reveal_strlit("courier_assigned");
    reveal_strlit("in_transit");
    reveal_strlit("delivered");
    reveal_strlit("cancelled");
    reveal_strlit("returned");
    assert("pending"@.len() != "courier_assigned"@.len());
    assert("pending"@.len() != "in_transit"@.len());
    assert("pending"@.len() != "delivered"@.len());
    assert("pending"@.len() != "cancelled"@.len());
    assert("pending"@.len() != "returned"@.len());
    assert("courier_assigned"@.len() != "in_transit"@.len());
    assert("courier_assigned"@.len() != "delivered"@.len());
    assert("courier_assigned"@.len() != "cancelled"@.len());
    assert("courier_assigned"@.len() != "returned"@.len());
    assert("in_transit"@.len() != "delivered"@.len());
    assert("in_transit"@.len() != "cancelled"@.len());
    assert("in_transit"@.len() != "returned"@.len());
    assert("delivered"@[0] != "cancelled"@[0]);
    assert("delivered"@.len() != "returned"@.len());
    assert("cancelled"@.len() != "returned"@.len());
}

impl OrderStatus {
    pub fn can_assign_courier(&self) -> (b: bool)
        ensures
            b == (*self == OrderStatus::Pending),
    {
        *self == OrderStatus::Pending
    }

    pub fn can_start_transit(&self) -> (b: bool)
        ensures
            b == (*self == OrderStatus::CourierAssigned),
    {
        *self == OrderStatus::CourierAssigned
    }

    pub fn can_deliver(&self) -> (b: bool)
        ensures
            b == (*self == OrderStatus::InTransit),
    {
        *self == OrderStatus::InTransit
    }

    pub fn can_cancel(&self) -> (b: bool)
        ensures
            b == (*self == OrderStatus::Pending || *self == OrderStatus::CourierAssigned),
    {
        *self == OrderStatus::Pending || *self == OrderStatus::CourierAssigned
    }

    /// A package can be reported returned either mid-route or after delivery.
    pub fn can_return(&self) -> (b: bool)
        ensures
            b == (*self == OrderStatus::InTransit || *self == OrderStatus::Delivered),
    {
        *self == OrderStatus::InTransit || *self == OrderStatus::Delivered
    }
}

/// How the customer intends to pay. Only the chosen method is recorded and, for
/// cash, whether the courier has confirmed collecting it.
#[derive(Debug, Clone, Copy, PartialEq, Eq, Structural)]
pub enum PaymentMethod {
    Cash,
    Card,
    Qr,
    Wallet,
}

impl PaymentMethod {
    /// The canonical text of each variant.
    pub open spec fn name(self) -> Seq<char> {
        match self {
            PaymentMethod::Cash => "cash"@,
            PaymentMethod::Card => "card"@,
            PaymentMethod::Qr => "qr"@,
            PaymentMethod::Wallet => "wallet"@,
        }
    }

    /// The variant whose canonical text is `value`, if any.
    pub open spec fn parse_spec(value: Seq<char>) -> Option<PaymentMethod> {
        if value == "cash"@ {
            Some(PaymentMethod::Cash)
        } else if value == "card"@ {
            Some(PaymentMethod::Card)
        } else if value == "qr"@ {
            Some(PaymentMethod::Qr)
        } else if value == "wallet"@ {
            Some(PaymentMethod::Wallet)
        } else {
            None
        }
    }

    /// The message of the error for an unknown text.
    pub open spec fn unknown_message(value: Seq<char>) -> Seq<char> {
        "unknown payment method: "@ + value
    }

    pub fn as_str(&self) -> (s: &'static str)
        ensures
            s@ == self.name(),
    {
        match self {
            PaymentMethod::Cash => "cash",
            PaymentMethod::Card => "card",
            PaymentMethod::Qr => "qr",
            PaymentMethod::Wallet => "wallet",
        }
    }

    /// Parses the canonical text of a variant.
    pub fn parse(value: &str) -> (r: Result<PaymentMethod, DomainError>)
        ensures
            match PaymentMethod::parse_spec(value@) {
                Some(s) => r == Ok::<PaymentMethod, DomainError>(s),
                None => fails_validation(r, PaymentMethod::unknown_message(value@)),
            },
    {
        if text_eq(value, "cash") {
            Ok(PaymentMethod::Cash)
        } else if text_eq(value, "card") {
            Ok(PaymentMethod::Card)
        } else if text_eq(value, "qr") {
            Ok(PaymentMethod::Qr)
        } else if text_eq(value, "wallet") {
            Ok(PaymentMethod::Wallet)
        } else {
            Err(DomainError::validation(join_text("unknown payment method: ", value)))
        }
    }
}

impl std::str::FromStr for PaymentMethod {
    type Err = DomainError;

    fn from_str(value: &str) -> (r: Result<PaymentMethod, DomainError>)
        ensures
            match PaymentMethod::parse_spec(value@) {
                Some(s) => r == Ok::<PaymentMethod, DomainError>(s),
                None => fails_validation(r, PaymentMethod::unknown_message(value@)),
            },
    {
        PaymentMethod::parse(value)
    }
}

/// Every variant's canonical text parses back to that variant.
pub proof fn lemma_payment_method_text_round_trip(s: PaymentMethod)
    ensures
        PaymentMethod::parse_spec(s.name()) == Some(s),
{
    reveal_strlit("cash");
    reveal_strlit("card");
    reveal_strlit("qr");
    reveal_strlit("wallet");
    assert("cash"@[2] != "card"@[2]);
    assert("cash"@.len() != "qr"@.len());
    assert("cash"@.len() != "wallet"@.len());
    assert("card"@.len() != "qr"@.len());
    assert("card"@.len() != "wallet"@.len());
    assert("qr"@.len() != "wallet"@.len());
}

/// An operation that moves an order along its lifecycle.
#[derive(Debug, Clone, Copy, PartialEq, Eq, Structural)]
pub enum OrderAction {
    AssignCourier,
    StartTransit,
    Deliver,
    Cancel,
    Return,
}

impl OrderStatus {
    /// The status an action leads to from this one, if the action is allowed.
    pub open spec fn step(self, action: OrderAction) -> Option<OrderStatus> {
        match (action, self) {
            (OrderAction::AssignCourier, OrderStatus::Pending) => Some(OrderStatus::CourierAssigned),
            (OrderAction::StartTransit, OrderStatus::CourierAssigned) => Some(OrderStatus::InTransit),
            (OrderAction::Deliver, OrderStatus::InTransit) => Some(OrderStatus::Delivered),
            (OrderAction::Cancel, OrderStatus::Pending) => Some(OrderStatus::Cancelled),
            (OrderAction::Cancel, OrderStatus::CourierAssigned) => Some(OrderStatus::Cancelled),
            (OrderAction::Return, OrderStatus::InTransit) => Some(OrderStatus::Returned),
            (OrderAction::Return, OrderStatus::Delivered) => Some(OrderStatus::Returned),
            _ => None,
        }
    }

    /// How far along its lifecycle an order with this status is.
    pub open spec fn rank(self) -> int {
        match self {
            OrderStatus::Pending => 0,
            OrderStatus::CourierAssigned => 1,
            OrderStatus::InTransit => 2,
            OrderStatus::Delivered => 3,
            OrderStatus::Cancelled => 4,
            OrderStatus::Returned => 4,
        }
    }
}

/// Every allowed order transition moves strictly forward, so no status is
/// ever visited twice; cancelled and returned orders accept no transition;
/// an order is delivered only out of transit, and cancelled only before
/// transit.
pub proof fn law_order_lifecycle(s: OrderStatus, action: OrderAction)
    ensures
        s.step(action) matches Some(t) ==> t.rank() > s.rank(),
        (s == OrderStatus::Cancelled || s == OrderStatus::Returned) ==> s.step(action) is None,
        s.step(action) == Some(OrderStatus::Delivered) ==> s == OrderStatus::InTransit,
        s.step(action) == Some(OrderStatus::Cancelled) ==> (s == OrderStatus::Pending || s
            == OrderStatus::CourierAssigned),
{
}

/// A delivery order. Timestamps are microseconds since the Unix epoch.
#[derive(Debug, Clone, PartialEq)]
pub struct Order {
    pub id: OrderId,
    pub customer_id: u128,
    pub pickup: Address,
    pub dropoff: Address,
    pub status: OrderStatus,
    pub fare: Money,
    pub assigned_courier_id: Option<u128>,
    pub created_at: i64,
    pub delivered_at: Option<i64>,
    pub returned_at: Option<i64>,
    pub payment_method: Option<PaymentMethod>,
    pub payment_collected: bool,
    /// Free-form delivery instructions from the customer; set once at creation.
    pub delivery_note: Option<String>,
    /// A contact number for the courier at the drop-off; set once at creation.
    pub contact_phone: Option<String>,
    /// URL of the courier's uploaded pickup photo, required before transit.
    pub pickup_photo_evidence_url: Option<String>,
}

/// An optional text with blank values dropped.
pub open spec fn non_blank(text: Option<String>) -> Option<String> {
    match text {
        Some(t) => if is_blank_spec(t@) {
            None
        } else {
            Some(t)
        },
        None => None,
    }
}

/// `text`, unless it is blank.
pub fn drop_blank(text: Option<String>) -> (r: Option<String>)
    ensures
        r == non_blank(text),
{
    match text {
        Some(t) => if is_blank(t.as_str()) {
            None
        } else {
            Some(t)
        },
        None => None,
    }
}

/// The upload path prefixes accepted as pickup evidence.
pub open spec fn is_uploaded_photo_url(url: Seq<char>) -> bool {
    starts_with_spec(url, "/v1/uploads/pickup-photos/"@) || starts_with_spec(
        url,
        "/v1/uploads/delivery-photos/"@,
    )
}

impl Order {
    /// A pending order without courier; blank delivery notes and contact
    /// phones are dropped.
    pub fn create(
        id: OrderId,
        customer_id: u128,
        pickup: Address,
        dropoff: Address,
        fare: Money,
        now: i64,
        delivery_note: Option<String>,
        contact_phone: Option<String>,
    ) -> (r: Result<Order, DomainError>)
        ensures
            customer_id == 0 ==> fails_validation(r, "customer id is required"@),
            customer_id != 0 ==> r == Ok::<Order, DomainError>(
                Order {
                    id,
                    customer_id,
                    pickup,
                    dropoff,
                    status: OrderStatus::Pending,
                    fare,
                    assigned_courier_id: None,
                    created_at: now,
                    delivered_at: None,
                    returned_at: None,
                    payment_method: None,
                    payment_collected: false,
                    delivery_note: non_blank(delivery_note),
                    contact_phone: non_blank(contact_phone),
                    pickup_photo_evidence_url: None,
                },
            ),
    {
        if customer_id == 0 {
            return Err(validation_error("customer id is required"));
        }
        Ok(Order {
            id,
            customer_id,
            pickup,
            dropoff,
            status: OrderStatus::Pending,
            fare,
            assigned_courier_id: None,
            created_at: now,
            delivered_at: None,
            returned_at: None,
            payment_method: None,
            payment_collected: false,
            delivery_note: drop_blank(delivery_note),
            contact_phone: drop_blank(contact_phone),
            pickup_photo_evidence_url: None,
        })
    }

    pub fn set_payment_method(&mut self, method: PaymentMethod)
        ensures
            *final(self) == (Order { payment_method: Some(method), ..*old(self) }),
    {
        self.payment_method = Some(method);
    }

    /// Confirms the fare has been collected; a payment method must have been
    /// chosen, and the confirmation cannot be given twice.
    pub fn mark_payment_collected(&mut self) -> (r: Result<(), DomainError>)
        ensures
            old(self).payment_method is None ==> *final(self) == *old(self) && fails_transition(
                r,
                "cannot confirm payment collection before a payment method is chosen"@,
            ),
            old(self).payment_method is Some && old(self).payment_collected ==> *final(self)
                == *old(self) && fails_transition(
                r,
                "payment has already been marked as collected"@,
            ),
            old(self).payment_method is Some && !old(self).payment_collected ==> r is Ok
                && *final(self) == (Order { payment_collected: true, ..*old(self) }),
    {
        if self.payment_method.is_none() {
            return Err(
                transition_error(
                    "cannot confirm payment collection before a payment method is chosen",
                ),
            );
        }
        if self.payment_collected {
            return Err(transition_error("payment has already been marked as collected"));
        }
        self.payment_collected = true;
        Ok(())
    }

    /// Pending -> CourierAssigned with a non-nil courier.
    pub fn assign_courier(&mut self, courier_id: u128) -> (r: Result<(), DomainError>)
        ensures
            r is Ok ==> old(self).status.step(OrderAction::AssignCourier) == Some(
                final(self).status,
            ),
            old(self).status != OrderStatus::Pending ==> *final(self) == *old(self)
                && fails_transition(
                r,
                "cannot assign a courier to an order in status "@ + old(self).status.debug_name(),
            ),
            old(self).status == OrderStatus::Pending && courier_id == 0 ==> *final(self)
                == *old(self) && fails_validation(r, "courier id is required"@),
            old(self).status == OrderStatus::Pending && courier_id != 0 ==> r is Ok
                && *final(self) == (Order {
                assigned_courier_id: Some(courier_id),
                status: OrderStatus::CourierAssigned,
                ..*old(self)
            }),
    {
        if !self.status.can_assign_courier() {
            return Err(
                DomainError::invalid_transition(
                    join_text(
                        "cannot assign a courier to an order in status ",
                        self.status.debug_str(),
                    ),
                ),
            );
        }
        if courier_id == 0 {
            return Err(validation_error("courier id is required"));
        }
        self.assigned_courier_id = Some(courier_id);
        self.status = OrderStatus::CourierAssigned;
        Ok(())
    }

    /// Records the URL of the uploaded pickup photo. The URL is immutable once
    /// recorded: a later call is refused and leaves the order unchanged.
    pub fn record_pickup_evidence(&mut self, photo_url: String) -> (r: Result<(), DomainError>)
        ensures
            !is_uploaded_photo_url(photo_url@) ==> *final(self) == *old(self) && fails_validation(
                r,
                "pickup evidence must be an uploaded pickup photo"@,
            ),
            is_uploaded_photo_url(photo_url@) && old(self).pickup_photo_evidence_url is Some
                ==> *final(self) == *old(self) && fails_transition(
                r,
                "pickup evidence is already recorded"@,
            ),
            is_uploaded_photo_url(photo_url@) && old(self).pickup_photo_evidence_url is None ==> r is Ok
                && *final(self) == (Order { pickup_photo_evidence_url: Some(photo_url), ..*old(self) }),
            old(self).pickup_photo_evidence_url is Some ==> final(self).pickup_photo_evidence_url
                == old(self).pickup_photo_evidence_url,
    {
        if !starts_with(photo_url.as_str(), "/v1/uploads/pickup-photos/") && !starts_with(
            photo_url.as_str(),
            "/v1/uploads/delivery-photos/",
        ) {
            return Err(validation_error("pickup evidence must be an uploaded pickup photo"));
        }
        if self.pickup_photo_evidence_url.is_some() {
            return Err(transition_error("pickup evidence is already recorded"));
        }
        self.pickup_photo_evidence_url = Some(photo_url);
        Ok(())
    }

    /// CourierAssigned -> InTransit.
    pub fn start_transit(&mut self) -> (r: Result<(), DomainError>)
        ensures
            (r is Ok) == (old(self).status.step(OrderAction::StartTransit) is Some),
            r is Ok ==> old(self).status.step(OrderAction::StartTransit) == Some(final(self).status),
            old(self).status == OrderStatus::CourierAssigned ==> r is Ok && *final(self) == (Order {
                status: OrderStatus::InTransit,
                ..*old(self)
            }),
            !(old(self).status == OrderStatus::CourierAssigned) ==> *final(self) == *old(self) && fails_transition(
                r,
                "cannot start transit from status "@ + old(self).status.debug_name(),
            ),
    {
        if !(self.status.can_start_transit()) {
            return Err(DomainError::invalid_transition(join_text("cannot start transit from status ", self.status.debug_str())));
        }
        self.status = OrderStatus::InTransit;
        Ok(())
    }

    /// InTransit -> Delivered, stamping `delivered_at`.
    pub fn deliver(&mut self, now: i64) -> (r: Result<(), DomainError>)
        ensures
            (r is Ok) == (old(self).status.step(OrderAction::Deliver) is Some),
            r is Ok ==> old(self).status.step(OrderAction::Deliver) == Some(final(self).status),
            old(self).status == OrderStatus::InTransit ==> r is Ok && *final(self) == (Order {
                status: OrderStatus::Delivered,
                delivered_at: Some(now),
                ..*old(self)
            }),
            !(old(self).status == OrderStatus::InTransit) ==> *final(self) == *old(self) && fails_transition(
                r,
                "cannot deliver an order in status "@ + old(self).status.debug_name(),
            ),
    {
        if !(self.status.can_deliver()) {
            return Err(DomainError::invalid_transition(join_text("cannot deliver an order in status ", self.status.debug_str())));
        }
        self.status = OrderStatus::Delivered;
        self.delivered_at = Some(now);
        Ok(())
    }

    /// Pending or CourierAssigned -> Cancelled.
    pub fn cancel(&mut self) -> (r: Result<(), DomainError>)
        ensures
            (r is Ok) == (old(self).status.step(OrderAction::Cancel) is Some),
            r is Ok ==> old(self).status.step(OrderAction::Cancel) == Some(final(self).status),
            (old(self).status == OrderStatus::Pending || old(self).status == OrderStatus::CourierAssigned) ==> r is Ok && *final(self) == (Order {
                status: OrderStatus::Cancelled,
                ..*old(self)
            }),
            !((old(self).status == OrderStatus::Pending || old(self).status == OrderStatus::CourierAssigned)) ==> *final(self) == *old(self) && fails_transition(
                r,
                "cannot cancel an order in status "@ + old(self).status.debug_name(),
            ),
    {
        if !(self.status.can_cancel()) {
            return Err(DomainError::invalid_transition(join_text("cannot cancel an order in status ", self.status.debug_str())));
        }
        self.status = OrderStatus::Cancelled;
        Ok(())
    }

    /// InTransit or Delivered -> Returned, stamping `returned_at`. A package can be
    /// reported returned mid-route or after the recipient refuses it.
    pub fn return_order(&mut self, now: i64) -> (r: Result<(), DomainError>)
        ensures
            (r is Ok) == (old(self).status.step(OrderAction::Return) is Some),
            r is Ok ==> old(self).status.step(OrderAction::Return) == Some(final(self).status),
            (old(self).status == OrderStatus::InTransit || old(self).status == OrderStatus::Delivered) ==> r is Ok && *final(self) == (Order {
                status: OrderStatus::Returned,
                returned_at: Some(now),
                ..*old(self)
            }),
            !((old(self).status == OrderStatus::InTransit || old(self).status == OrderStatus::Delivered)) ==> *final(self) == *old(self) && fails_transition(
                r,
                "cannot return an order in status "@ + old(self).status.debug_name(),
            ),
    {
        if !(self.status.can_return()) {
            return Err(DomainError::invalid_transition(join_text("cannot return an order in status ", self.status.debug_str())));
        }
        self.status = OrderStatus::Returned;
        self.returned_at = Some(now);
        Ok(())
    }

    /// The assigned courier.
    pub fn assigned_courier(&self) -> (r: Result<u128, DomainError>)
        ensures
            match self.assigned_courier_id {
                Some(c) => r == Ok::<u128, DomainError>(c),
                None => fails_not_found(r, "order has no assigned courier"@),
            },
    {
        match self.assigned_courier_id {
            Some(c) => Ok(c),
            None => Err(not_found_error("order has no assigned courier")),
        }
    }
}

} // verus!
