use vstd::prelude::*;

use crate::billing::{CourierPayout, Invoice, InvoiceId, InvoiceStatus, PayoutStatus};
use crate::coupon::Coupon;
use crate::courier::{Courier, CourierStatus, VehicleType};
use crate::customer_feedback::{CustomerRating, SupportTicket, TicketStatus};
use crate::delivery_pricing::DeliveryPricing;
use crate::device_push_token::{AppVariant, DevicePushToken, PushPlatform};
use crate::dispatch::{Assignment, AssignmentStatus};
use crate::error::{fails_validation, join_text, validation_error, DomainError};
use crate::field_service::{FieldServiceAppointment, TimeSlotWindow};
use crate::fleet::{Vehicle, VehicleId, VehicleStatus};
use crate::location::{location_error, Location};
use crate::money::{money_error, Money};
use crate::notification::{Notification, NotificationChannel, NotificationId, NotificationStatus};
use crate::order::{Address, Order, OrderId, OrderStatus, PaymentMethod};
use crate::otp_challenge::OtpChallenge;
use crate::proof_of_delivery::ProofOfDeliveryRecord;
use crate::tenant::TenantId;
use crate::text::{is_blank, is_blank_spec, text_eq};
use crate::tracking::{TrackingSession, TrackingSessionStatus};
use crate::user::{User, UserId, UserRole, UserStatus};
use crate::webhook::WebhookSubscription;

verus! {

// Records as a relational store keeps them: ids as 128-bit integers, times in
// microseconds since the Unix epoch, coordinates as the bit patterns of their
// `f64` values, and statuses as their canonical texts. Decoding a row checks
// what the store cannot: coordinates, amounts and status texts.

/// A stored order.
pub struct OrderRow {
    pub id: u128,
    pub customer_id: u128,
    pub pickup_lat_bits: u64,
    pub pickup_lon_bits: u64,
    pub pickup_label: Option<String>,
    pub dropoff_lat_bits: u64,
    pub dropoff_lon_bits: u64,
    pub dropoff_label: Option<String>,
    pub status: String,
    pub fare_amount_minor: i64,
    pub fare_currency: String,
    pub assigned_courier_id: Option<u128>,
    pub created_at: i64,
    pub delivered_at: Option<i64>,
    pub returned_at: Option<i64>,
    pub payment_method: Option<String>,
    pub payment_collected: bool,
    pub delivery_note: Option<String>,
    pub contact_phone: Option<String>,
    pub pickup_photo_evidence_url: Option<String>,
}

/// The payment method a stored text names, if the text is present.
pub open spec fn stored_payment_method(text: Option<String>) -> Option<PaymentMethod> {
    match text {
        Some(t) => PaymentMethod::parse_spec(t@),
        None => None,
    }
}

/// Why an order row does not decode, checking its fields in column order.
pub open spec fn order_row_error(row: OrderRow) -> Option<Seq<char>> {
    if location_error(row.pickup_lat_bits, row.pickup_lon_bits) is Some {
        location_error(row.pickup_lat_bits, row.pickup_lon_bits)
    } else if location_error(row.dropoff_lat_bits, row.dropoff_lon_bits) is Some {
        location_error(row.dropoff_lat_bits, row.dropoff_lon_bits)
    } else if OrderStatus::parse_spec(row.status@) is None {
        Some(OrderStatus::unknown_message(row.status@))
    } else if money_error(row.fare_amount_minor, row.fare_currency@) is Some {
        money_error(row.fare_amount_minor, row.fare_currency@)
    } else {
        match row.payment_method {
            Some(t) => if PaymentMethod::parse_spec(t@) is None {
                Some(PaymentMethod::unknown_message(t@))
            } else {
                None
            },
            None => None,
        }
    }
}

impl OrderRow {
    /// The order the row holds; a `Validation` error for the first field
    /// that does not decode.
    pub fn into_domain(self) -> (r: Result<Order, DomainError>)
        ensures
            match order_row_error(self) {
                Some(m) => fails_validation(r, m),
                None => r matches Ok(o) && {
                    &&& o.id == OrderId(self.id)
                    &&& o.customer_id == self.customer_id
                    &&& o.pickup.location == (Location {
                        latitude_bits: self.pickup_lat_bits,
                        longitude_bits: self.pickup_lon_bits,
                    })
                    &&& o.pickup.label == self.pickup_label
                    &&& o.dropoff.location == (Location {
                        latitude_bits: self.dropoff_lat_bits,
                        longitude_bits: self.dropoff_lon_bits,
                    })
                    &&& o.dropoff.label == self.dropoff_label
                    &&& Some(o.status) == OrderStatus::parse_spec(self.status@)
                    &&& o.fare.amount_minor == self.fare_amount_minor
                    &&& o.fare.currency@ == self.fare_currency@
                    &&& o.assigned_courier_id == self.assigned_courier_id
                    &&& o.created_at == self.created_at
                    &&& o.delivered_at == self.delivered_at
                    &&& o.returned_at == self.returned_at
                    &&& o.payment_method == stored_payment_method(self.payment_method)
                    &&& o.payment_collected == self.payment_collected
                    &&& o.delivery_note == self.delivery_note
                    &&& o.contact_phone == self.contact_phone
                    &&& o.pickup_photo_evidence_url == self.pickup_photo_evidence_url
                },
            },
    {
        let pickup = match Location::new(self.pickup_lat_bits, self.pickup_lon_bits) {
            Ok(l) => l,
            Err(e) => return Err(e),
        };
        let dropoff = match Location::new(self.dropoff_lat_bits, self.dropoff_lon_bits) {
            Ok(l) => l,
            Err(e) => return Err(e),
        };
        let status = match OrderStatus::parse(self.status.as_str()) {
            Ok(s) => s,
            Err(e) => return Err(e),
        };
        let fare = match Money::new(self.fare_amount_minor, self.fare_currency.as_str()) {
            Ok(m) => m,
            Err(e) => return Err(e),
        };
        let payment_method = match &self.payment_method {
            Some(text) => match PaymentMethod::parse(text.as_str()) {
                Ok(p) => Some(p),
                Err(e) => return Err(e),
            },
            None => None,
        };
        Ok(Order {
            id: OrderId(self.id),
            customer_id: self.customer_id,
            pickup: Address { location: pickup, label: self.pickup_label },
            dropoff: Address { location: dropoff, label: self.dropoff_label },
            status,
            fare,
            assigned_courier_id: self.assigned_courier_id,
            created_at: self.created_at,
            delivered_at: self.delivered_at,
            returned_at: self.returned_at,
            payment_method,
            payment_collected: self.payment_collected,
            delivery_note: self.delivery_note,
            contact_phone: self.contact_phone,
            pickup_photo_evidence_url: self.pickup_photo_evidence_url,
        })
    }
}

/// A stored invoice.
pub struct InvoiceRow {
    pub id: u128,
    pub order_id: u128,
    pub customer_id: u128,
    pub amount_minor: i64,
    pub currency: String,
    pub status: String,
    pub created_at: i64,
    pub issued_at: Option<i64>,
    pub paid_at: Option<i64>,
}

/// Why an invoice row does not decode: its amount first, then its status.
pub open spec fn invoice_row_error(row: InvoiceRow) -> Option<Seq<char>> {
    if money_error(row.amount_minor, row.currency@) is Some {
        money_error(row.amount_minor, row.currency@)
    } else if InvoiceStatus::parse_spec(row.status@) is None {
        Some(InvoiceStatus::unknown_message(row.status@))
    } else {
        None
    }
}

impl InvoiceRow {
    /// The invoice the row holds; a `Validation` error for the first field
    /// that does not decode.
    pub fn into_domain(self) -> (r: Result<Invoice, DomainError>)
        ensures
            match invoice_row_error(self) {
                Some(m) => fails_validation(r, m),
                None => r matches Ok(inv) && {
                    &&& inv.id == InvoiceId(self.id)
                    &&& inv.order_id == OrderId(self.order_id)
                    &&& inv.customer_id == self.customer_id
                    &&& inv.amount.amount_minor == self.amount_minor
                    &&& inv.amount.currency@ == self.currency@
                    &&& Some(inv.status) == InvoiceStatus::parse_spec(self.status@)
                    &&& inv.created_at == self.created_at
                    &&& inv.issued_at == self.issued_at
                    &&& inv.paid_at == self.paid_at
                },
            },
    {
        let amount = match Money::new(self.amount_minor, self.currency.as_str()) {
            Ok(m) => m,
            Err(e) => return Err(e),
        };
        let status = match InvoiceStatus::parse(self.status.as_str()) {
            Ok(s) => s,
            Err(e) => return Err(e),
        };
        Ok(Invoice {
            id: InvoiceId(self.id),
            order_id: OrderId(self.order_id),
            customer_id: self.customer_id,
            amount,
            status,
            created_at: self.created_at,
            issued_at: self.issued_at,
            paid_at: self.paid_at,
        })
    }
}

/// A stored courier payout; the three amounts share one currency column.
pub struct CourierPayoutRow {
    pub id: u128,
    pub courier_id: u128,
    pub period_start: i64,
    pub period_end: i64,
    pub gross_amount_minor: i64,
    pub commission_amount_minor: i64,
    pub net_amount_minor: i64,
    pub currency: String,
    pub status: String,
    pub created_at: i64,
}

/// Why a payout row does not decode: its gross amount, commission and net
/// amount in turn, then its status.
pub open spec fn payout_row_error(row: CourierPayoutRow) -> Option<Seq<char>> {
    if money_error(row.gross_amount_minor, row.currency@) is Some {
        money_error(row.gross_amount_minor, row.currency@)
    } else if money_error(row.commission_amount_minor, row.currency@) is Some {
        money_error(row.commission_amount_minor, row.currency@)
    } else if money_error(row.net_amount_minor, row.currency@) is Some {
        money_error(row.net_amount_minor, row.currency@)
    } else if PayoutStatus::parse_spec(row.status@) is None {
        Some(PayoutStatus::unknown_message(row.status@))
    } else {
        None
    }
}

impl CourierPayoutRow {
    /// The payout the row holds; a `Validation` error for the first field
    /// that does not decode.
    pub fn into_domain(self) -> (r: Result<CourierPayout, DomainError>)
        ensures
            match payout_row_error(self) {
                Some(m) => fails_validation(r, m),
                None => r matches Ok(p) && {
                    &&& p.id == self.id
                    &&& p.courier_id == self.courier_id
                    &&& p.period_start == self.period_start
                    &&& p.period_end == self.period_end
                    &&& p.gross_amount.amount_minor == self.gross_amount_minor
                    &&& p.commission.amount_minor == self.commission_amount_minor
                    &&& p.net_amount.amount_minor == self.net_amount_minor
                    &&& p.gross_amount.currency@ == self.currency@
                    &&& p.commission.currency@ == self.currency@
                    &&& p.net_amount.currency@ == self.currency@
                    &&& Some(p.status) == PayoutStatus::parse_spec(self.status@)
                    &&& p.created_at == self.created_at
                },
            },
    {
        let gross_amount = match Money::new(self.gross_amount_minor, self.currency.as_str()) {
            Ok(m) => m,
            Err(e) => return Err(e),
        };
        let commission = match Money::new(self.commission_amount_minor, self.currency.as_str()) {
            Ok(m) => m,
            Err(e) => return Err(e),
        };
        let net_amount = match Money::new(self.net_amount_minor, self.currency.as_str()) {
            Ok(m) => m,
            Err(e) => return Err(e),
        };
        let status = match PayoutStatus::parse(self.status.as_str()) {
            Ok(s) => s,
            Err(e) => return Err(e),
        };
        Ok(CourierPayout {
            id: self.id,
            courier_id: self.courier_id,
            period_start: self.period_start,
            period_end: self.period_end,
            gross_amount,
            commission,
            net_amount,
            status,
            created_at: self.created_at,
        })
    }
}

/// A stored customer rating; the store keeps the stars as a small integer.
pub struct CustomerRatingRow {
    pub id: u128,
    pub order_id: u128,
    pub customer_id: u128,
    pub courier_id: u128,
    pub rating_stars: i16,
    pub comment: Option<String>,
    pub photo_url: Option<String>,
    pub created_at: i64,
}

impl CustomerRatingRow {
    /// The rating the row holds; the stars keep the low byte of the stored value.
    pub fn into_domain(self) -> (r: CustomerRating)
        ensures
            r.id == self.id,
            r.order_id == self.order_id,
            r.customer_id == self.customer_id,
            r.courier_id == self.courier_id,
            r.rating_stars == self.rating_stars as u8,
            r.comment == self.comment,
            r.photo_url == self.photo_url,
            r.created_at == self.created_at,
    {
        CustomerRating {
            id: self.id,
            order_id: self.order_id,
            customer_id: self.customer_id,
            courier_id: self.courier_id,
            rating_stars: self.rating_stars as u8,
            comment: self.comment,
            photo_url: self.photo_url,
            created_at: self.created_at,
        }
    }
}

/// A stored support ticket.
pub struct SupportTicketRow {
    pub id: u128,
    pub tenant_id: u128,
    pub customer_id: u128,
    pub order_id: Option<u128>,
    pub subject: String,
    pub message: String,
    pub status: String,
    pub created_at: i64,
}

impl SupportTicketRow {
    /// The ticket the row holds; a `Validation` error when the status text is unknown.
    pub fn into_domain(self) -> (r: Result<SupportTicket, DomainError>)
        ensures
            match TicketStatus::parse_spec(self.status@) {
                None => fails_validation(r, TicketStatus::unknown_message(self.status@)),
                Some(s) => r matches Ok(t) && {
                    &&& t.id == self.id
                    &&& t.tenant_id == TenantId(self.tenant_id)
                    &&& t.customer_id == self.customer_id
                    &&& t.order_id == self.order_id
                    &&& t.subject == self.subject
                    &&& t.message == self.message
                    &&& t.status == s
                    &&& t.created_at == self.created_at
                },
            },
    {
        let status = match TicketStatus::parse(self.status.as_str()) {
            Ok(s) => s,
            Err(e) => return Err(e),
        };
        Ok(SupportTicket {
            id: self.id,
            tenant_id: TenantId(self.tenant_id),
            customer_id: self.customer_id,
            order_id: self.order_id,
            subject: self.subject,
            message: self.message,
            status,
            created_at: self.created_at,
        })
    }
}

/// A stored proof of delivery.
pub struct ProofOfDeliveryRow {
    pub id: u128,
    pub order_id: u128,
    pub courier_id: u128,
    pub recipient_name: String,
    pub qr_barcode_verified: bool,
    pub digital_signature_base64: Option<String>,
    pub photo_evidence_url: Option<String>,
    pub delivered_at: i64,
}

impl ProofOfDeliveryRow {
    /// The proof the row holds, field for field.
    pub fn into_domain(self) -> (r: ProofOfDeliveryRecord)
        ensures
            r.id == self.id,
            r.order_id == self.order_id,
            r.courier_id == self.courier_id,
            r.recipient_name == self.recipient_name,
            r.qr_barcode_verified == self.qr_barcode_verified,
            r.digital_signature_base64 == self.digital_signature_base64,
            r.photo_evidence_url == self.photo_evidence_url,
            r.delivered_at == self.delivered_at,
    {
        ProofOfDeliveryRecord {
            id: self.id,
            order_id: self.order_id,
            courier_id: self.courier_id,
            recipient_name: self.recipient_name,
            qr_barcode_verified: self.qr_barcode_verified,
            digital_signature_base64: self.digital_signature_base64,
            photo_evidence_url: self.photo_evidence_url,
            delivered_at: self.delivered_at,
        }
    }
}

/// A stored vehicle. The store names the statuses in its own words:
/// "operational", "maintenance" and "retired".
pub struct VehicleRow {
    pub id: u128,
    pub courier_id: Option<u128>,
    pub kind: String,
    pub plate: Option<String>,
    pub status: String,
    pub insurance_expiry: Option<i32>,
    pub created_at: i64,
}

/// The store's word for a vehicle status.
pub open spec fn stored_vehicle_status_spec(status: VehicleStatus) -> Seq<char> {
    match status {
        VehicleStatus::Active => "operational"@,
        VehicleStatus::Maintenance => "maintenance"@,
        VehicleStatus::Decommissioned => "retired"@,
    }
}

/// The vehicle status the store's word names, if any.
pub open spec fn vehicle_status_of_stored(text: Seq<char>) -> Option<VehicleStatus> {
    if text == "operational"@ {
        Some(VehicleStatus::Active)
    } else if text == "maintenance"@ {
        Some(VehicleStatus::Maintenance)
    } else if text == "retired"@ {
        Some(VehicleStatus::Decommissioned)
    } else {
        None
    }
}

/// The store's word for a vehicle status.
pub fn db_vehicle_status(status: VehicleStatus) -> (s: &'static str)
    ensures
        s@ == stored_vehicle_status_spec(status),
{
    match status {
        VehicleStatus::Active => "operational",
        VehicleStatus::Maintenance => "maintenance",
        VehicleStatus::Decommissioned => "retired",
    }
}

/// Reading back the store's word for a status gives the status.
pub proof fn lemma_stored_vehicle_status_round_trip(status: VehicleStatus)
    ensures
        vehicle_status_of_stored(stored_vehicle_status_spec(status)) == Some(status),
{
    reveal_strlit("operational");
    reveal_strlit("maintenance");
    reveal_strlit("retired");
    assert("operational"@[0] != "maintenance"@[0]);
    assert("operational"@.len() != "retired"@.len());
    assert("maintenance"@.len() != "retired"@.len());
}

/// Why a vehicle row does not decode: a missing or blank plate, then an
/// unknown status word, then an unknown vehicle kind.
pub open spec fn vehicle_row_error(row: VehicleRow) -> Option<Seq<char>> {
    if !(row.plate matches Some(p) && !is_blank_spec(p@)) {
        Some("vehicle plate is missing"@)
    } else if vehicle_status_of_stored(row.status@) is None {
        Some("unknown vehicle status: "@ + row.status@)
    } else if VehicleType::parse_spec(row.kind@) is None {
        Some(VehicleType::unknown_message(row.kind@))
    } else {
        None
    }
}

impl VehicleRow {
    /// The vehicle the row holds; a `Validation` error for the first field
    /// that does not decode.
    pub fn into_domain(self) -> (r: Result<Vehicle, DomainError>)
        ensures
            match vehicle_row_error(self) {
                Some(m) => fails_validation(r, m),
                None => r matches Ok(v) && {
                    &&& v.id == VehicleId(self.id)
                    &&& Some(v.plate_number) == self.plate
                    &&& Some(v.vehicle_type) == VehicleType::parse_spec(self.kind@)
                    &&& Some(v.status) == vehicle_status_of_stored(self.status@)
                    &&& v.assigned_courier_id == self.courier_id
                    &&& v.insurance_expiry == self.insurance_expiry
                    &&& v.registered_at == self.created_at
                },
            },
    {
        let plate_number = match self.plate {
            Some(plate) => {
                if is_blank(plate.as_str()) {
                    return Err(validation_error("vehicle plate is missing"));
                }
                plate
            },
            None => return Err(validation_error("vehicle plate is missing")),
        };
        proof {
            reveal_strlit("operational");
            reveal_strlit("maintenance");
            reveal_strlit("retired");
        }
        let status = if text_eq(self.status.as_str(), "operational") {
            VehicleStatus::Active
        } else if text_eq(self.status.as_str(), "maintenance") {
            VehicleStatus::Maintenance
        } else if text_eq(self.status.as_str(), "retired") {
            VehicleStatus::Decommissioned
        } else {
            return Err(DomainError::Validation(join_text("unknown vehicle status: ", self.status.as_str())));
        };
        let vehicle_type = match VehicleType::parse(self.kind.as_str()) {
            Ok(t) => t,
            Err(e) => return Err(e),
        };
        Ok(Vehicle {
            id: VehicleId(self.id),
            plate_number,
            vehicle_type,
            status,
            assigned_courier_id: self.courier_id,
            insurance_expiry: self.insurance_expiry,
            registered_at: self.created_at,
        })
    }
}

/// A stored notification.
pub struct NotificationRow {
    pub id: u128,
    pub recipient_id: u128,
    pub channel: String,
    pub title: String,
    pub body: String,
    pub status: String,
    pub created_at: i64,
    pub sent_at: Option<i64>,
}

/// Why a notification row does not decode: its channel, then its status.
pub open spec fn notification_row_error(row: NotificationRow) -> Option<Seq<char>> {
    if NotificationChannel::parse_spec(row.channel@) is None {
        Some(NotificationChannel::unknown_message(row.channel@))
    } else if NotificationStatus::parse_spec(row.status@) is None {
        Some(NotificationStatus::unknown_message(row.status@))
    } else {
        None
    }
}

impl NotificationRow {
    /// The notification the row holds; a `Validation` error for the first
    /// field that does not decode.
    pub fn into_domain(self) -> (r: Result<Notification, DomainError>)
        ensures
            match notification_row_error(self) {
                Some(m) => fails_validation(r, m),
                None => r matches Ok(n) && {
                    &&& n.id == NotificationId(self.id)
                    &&& n.recipient_id == self.recipient_id
                    &&& Some(n.channel) == NotificationChannel::parse_spec(self.channel@)
                    &&& n.title == self.title
                    &&& n.body == self.body
                    &&& Some(n.status) == NotificationStatus::parse_spec(self.status@)
                    &&& n.created_at == self.created_at
                    &&& n.sent_at == self.sent_at
                },
            },
    {
        let channel = match NotificationChannel::parse(self.channel.as_str()) {
            Ok(c) => c,
            Err(e) => return Err(e),
        };
        let status = match NotificationStatus::parse(self.status.as_str()) {
            Ok(s) => s,
            Err(e) => return Err(e),
        };
        Ok(Notification {
            id: NotificationId(self.id),
            recipient_id: self.recipient_id,
            channel,
            title: self.title,
            body: self.body,
            status,
            created_at: self.created_at,
            sent_at: self.sent_at,
        })
    }
}

/// A stored tracking session.
pub struct TrackingSessionRow {
    pub id: u128,
    pub courier_id: u128,
    pub status: String,
    pub started_at: i64,
    pub ended_at: Option<i64>,
}

impl TrackingSessionRow {
    /// The session the row holds; a `Validation` error when the status text is unknown.
    pub fn into_domain(self) -> (r: Result<TrackingSession, DomainError>)
        ensures
            match TrackingSessionStatus::parse_spec(self.status@) {
                None => fails_validation(r, TrackingSessionStatus::unknown_message(self.status@)),
                Some(s) => r == Ok::<TrackingSession, DomainError>(
                    TrackingSession {
                        id: self.id,
                        courier_id: self.courier_id,
                        status: s,
                        started_at: self.started_at,
                        ended_at: self.ended_at,
                    },
                ),
            },
    {
        let status = match TrackingSessionStatus::parse(self.status.as_str()) {
            Ok(s) => s,
            Err(e) => return Err(e),
        };
        Ok(TrackingSession {
            id: self.id,
            courier_id: self.courier_id,
            status,
            started_at: self.started_at,
            ended_at: self.ended_at,
        })
    }
}

/// A stored device push token.
pub struct DevicePushTokenRow {
    pub id: u128,
    pub user_id: u128,
    pub platform: String,
    pub app_variant: String,
    pub device_token: String,
    pub created_at: i64,
}

/// Why a push-token row does not decode: its platform, then its app variant.
pub open spec fn push_token_row_error(row: DevicePushTokenRow) -> Option<Seq<char>> {
    if PushPlatform::parse_spec(row.platform@) is None {
        Some(PushPlatform::unknown_message(row.platform@))
    } else if AppVariant::parse_spec(row.app_variant@) is None {
        Some(AppVariant::unknown_message(row.app_variant@))
    } else {
        None
    }
}

impl DevicePushTokenRow {
    /// The token the row holds; a `Validation` error for the first field that
    /// does not decode.
    pub fn into_domain(self) -> (r: Result<DevicePushToken, DomainError>)
        ensures
            match push_token_row_error(self) {
                Some(m) => fails_validation(r, m),
                None => r matches Ok(t) && {
                    &&& t.id == self.id
                    &&& t.user_id == UserId(self.user_id)
                    &&& Some(t.platform) == PushPlatform::parse_spec(self.platform@)
                    &&& Some(t.app_variant) == AppVariant::parse_spec(self.app_variant@)
                    &&& t.device_token == self.device_token
                    &&& t.created_at == self.created_at
                },
            },
    {
        let platform = match PushPlatform::parse(self.platform.as_str()) {
            Ok(p) => p,
            Err(e) => return Err(e),
        };
        let app_variant = match AppVariant::parse(self.app_variant.as_str()) {
            Ok(a) => a,
            Err(e) => return Err(e),
        };
        Ok(DevicePushToken {
            id: self.id,
            user_id: UserId(self.user_id),
            platform,
            app_variant,
            device_token: self.device_token,
            created_at: self.created_at,
        })
    }
}

/// A stored courier; a location is kept only when both coordinates are.
pub struct CourierRow {
    pub id: u128,
    pub name: String,
    pub vehicle: String,
    pub status: String,
    pub current_lat_bits: Option<u64>,
    pub current_lon_bits: Option<u64>,
    pub registered_at: i64,
}

/// Why a courier row does not decode: its location (when both coordinates
/// are stored), then its vehicle, then its status.
pub open spec fn courier_row_error(row: CourierRow) -> Option<Seq<char>> {
    if row.current_lat_bits is Some && row.current_lon_bits is Some && location_error(
        row.current_lat_bits->0,
        row.current_lon_bits->0,
    ) is Some {
        location_error(row.current_lat_bits->0, row.current_lon_bits->0)
    } else if VehicleType::parse_spec(row.vehicle@) is None {
        Some(VehicleType::unknown_message(row.vehicle@))
    } else if CourierStatus::parse_spec(row.status@) is None {
        Some(CourierStatus::unknown_message(row.status@))
    } else {
        None
    }
}

/// The location a courier row stores, if it stores both coordinates.
pub open spec fn stored_courier_location(row: CourierRow) -> Option<Location> {
    match (row.current_lat_bits, row.current_lon_bits) {
        (Some(lat), Some(lon)) => Some(Location { latitude_bits: lat, longitude_bits: lon }),
        _ => None,
    }
}

impl CourierRow {
    /// The courier the row holds; a `Validation` error for the first field
    /// that does not decode.
    pub fn into_domain(self) -> (r: Result<Courier, DomainError>)
        ensures
            match courier_row_error(self) {
                Some(m) => fails_validation(r, m),
                None => r matches Ok(c) && {
                    &&& c.id == self.id
                    &&& c.name == self.name
                    &&& Some(c.vehicle) == VehicleType::parse_spec(self.vehicle@)
                    &&& Some(c.status) == CourierStatus::parse_spec(self.status@)
                    &&& c.current_location == stored_courier_location(self)
                    &&& c.registered_at == self.registered_at
                },
            },
    {
        let current_location = match (self.current_lat_bits, self.current_lon_bits) {
            (Some(lat), Some(lon)) => match Location::new(lat, lon) {
                Ok(l) => Some(l),
                Err(e) => return Err(e),
            },
            _ => None,
        };
        let vehicle = match VehicleType::parse(self.vehicle.as_str()) {
            Ok(v) => v,
            Err(e) => return Err(e),
        };
        let status = match CourierStatus::parse(self.status.as_str()) {
            Ok(s) => s,
            Err(e) => return Err(e),
        };
        Ok(Courier {
            id: self.id,
            name: self.name,
            vehicle,
            status,
            current_location,
            registered_at: self.registered_at,
        })
    }
}

/// A stored assignment.
pub struct AssignmentRow {
    pub id: u128,
    pub order_id: u128,
    pub courier_id: u128,
    pub status: String,
    pub assigned_at: i64,
    pub offered_at: i64,
    pub responded_at: Option<i64>,
    pub excluded_courier_ids: Vec<u128>,
}

impl AssignmentRow {
    /// The assignment the row holds; a `Validation` error when the status
    /// text is unknown.
    pub fn into_domain(self) -> (r: Result<Assignment, DomainError>)
        ensures
            match AssignmentStatus::parse_spec(self.status@) {
                None => fails_validation(r, AssignmentStatus::unknown_message(self.status@)),
                Some(s) => r == Ok::<Assignment, DomainError>(
                    Assignment {
                        id: self.id,
                        order_id: OrderId(self.order_id),
                        courier_id: self.courier_id,
                        status: s,
                        assigned_at: self.assigned_at,
                        offered_at: self.offered_at,
                        responded_at: self.responded_at,
                        excluded_courier_ids: self.excluded_courier_ids,
                    },
                ),
            },
    {
        let status = match AssignmentStatus::parse(self.status.as_str()) {
            Ok(s) => s,
            Err(e) => return Err(e),
        };
        Ok(Assignment {
            id: self.id,
            order_id: OrderId(self.order_id),
            courier_id: self.courier_id,
            status,
            assigned_at: self.assigned_at,
            offered_at: self.offered_at,
            responded_at: self.responded_at,
            excluded_courier_ids: self.excluded_courier_ids,
        })
    }
}

/// A stored user.
pub struct UserRow {
    pub id: u128,
    pub email: String,
    pub phone: Option<String>,
    pub display_name: String,
    pub role: String,
    pub status: String,
    pub created_at: i64,
}

/// Why a user row does not decode: its role, then its status.
pub open spec fn user_row_error(row: UserRow) -> Option<Seq<char>> {
    if UserRole::parse_spec(row.role@) is None {
        Some(UserRole::unknown_message(row.role@))
    } else if UserStatus::parse_spec(row.status@) is None {
        Some(UserStatus::unknown_message(row.status@))
    } else {
        None
    }
}

impl UserRow {
    /// The user the row holds; a `Validation` error for the first field that
    /// does not decode.
    pub fn into_domain(self) -> (r: Result<User, DomainError>)
        ensures
            match user_row_error(self) {
                Some(m) => fails_validation(r, m),
                None => r matches Ok(u) && {
                    &&& u.id == UserId(self.id)
                    &&& u.email == self.email
                    &&& u.phone == self.phone
                    &&& u.display_name == self.display_name
                    &&& Some(u.role) == UserRole::parse_spec(self.role@)
                    &&& Some(u.status) == UserStatus::parse_spec(self.status@)
                    &&& u.created_at == self.created_at
                },
            },
    {
        let role = match UserRole::parse(self.role.as_str()) {
            Ok(x) => x,
            Err(e) => return Err(e),
        };
        let status = match UserStatus::parse(self.status.as_str()) {
            Ok(x) => x,
            Err(e) => return Err(e),
        };
        Ok(User {
            id: UserId(self.id),
            email: self.email,
            phone: self.phone,
            display_name: self.display_name,
            role,
            status,
            created_at: self.created_at,
        })
    }
}

/// A stored one-time password challenge; the store keeps the attempts as a
/// small integer.
pub struct OtpChallengeRow {
    pub id: u128,
    pub tenant_id: u128,
    pub phone: String,
    pub code_hash: String,
    pub attempts: i16,
    pub created_at: i64,
    pub expires_at: i64,
    pub consumed_at: Option<i64>,
}

impl OtpChallengeRow {
    /// The challenge the row holds; the attempts keep the low byte of the
    /// stored value.
    pub fn into_domain(self) -> (r: OtpChallenge)
        ensures
            r == (OtpChallenge {
                id: self.id,
                tenant_id: TenantId(self.tenant_id),
                phone: self.phone,
                code_hash: self.code_hash,
                attempts: self.attempts as u8,
                created_at: self.created_at,
                expires_at: self.expires_at,
                consumed_at: self.consumed_at,
            }),
    {
        OtpChallenge {
            id: self.id,
            tenant_id: TenantId(self.tenant_id),
            phone: self.phone,
            code_hash: self.code_hash,
            attempts: self.attempts as u8,
            created_at: self.created_at,
            expires_at: self.expires_at,
            consumed_at: self.consumed_at,
        }
    }
}

/// A stored coupon; the store keeps the limits as signed integers and the
/// discount as the bit pattern of its `f64` value.
pub struct CouponRow {
    pub id: u128,
    pub tenant_id: u128,
    pub code: String,
    pub discount_percent_bits: u64,
    pub max_discount_minor: i64,
    pub valid_until: i64,
    pub usage_limit: i32,
    pub used_count: i32,
    pub is_active: bool,
    pub created_at: i64,
}

impl CouponRow {
    /// The coupon the row holds; the limits are reinterpreted as unsigned.
    pub fn into_domain(self) -> (r: Coupon)
        ensures
            r == (Coupon {
                id: self.id,
                tenant_id: TenantId(self.tenant_id),
                code: self.code,
                discount_percent_bits: self.discount_percent_bits,
                max_discount_minor: self.max_discount_minor,
                valid_until: self.valid_until,
                usage_limit: self.usage_limit as u32,
                used_count: self.used_count as u32,
                is_active: self.is_active,
                created_at: self.created_at,
            }),
    {
        Coupon {
            id: self.id,
            tenant_id: TenantId(self.tenant_id),
            code: self.code,
            discount_percent_bits: self.discount_percent_bits,
            max_discount_minor: self.max_discount_minor,
            valid_until: self.valid_until,
            usage_limit: self.usage_limit as u32,
            used_count: self.used_count as u32,
            is_active: self.is_active,
            created_at: self.created_at,
        }
    }
}

/// A stored delivery pricing.
pub struct DeliveryPricingRow {
    pub tenant_id: u128,
    pub base_fare_minor: i64,
    pub per_km_rate_minor: i64,
    pub minimum_fare_minor: i64,
    pub currency: String,
    pub updated_at: i64,
}

impl DeliveryPricingRow {
    /// The pricing the row holds, field for field.
    pub fn into_domain(self) -> (r: DeliveryPricing)
        ensures
            r == (DeliveryPricing {
                tenant_id: TenantId(self.tenant_id),
                base_fare_minor: self.base_fare_minor,
                per_km_rate_minor: self.per_km_rate_minor,
                minimum_fare_minor: self.minimum_fare_minor,
                currency: self.currency,
                updated_at: self.updated_at,
            }),
    {
        DeliveryPricing {
            tenant_id: TenantId(self.tenant_id),
            base_fare_minor: self.base_fare_minor,
            per_km_rate_minor: self.per_km_rate_minor,
            minimum_fare_minor: self.minimum_fare_minor,
            currency: self.currency,
            updated_at: self.updated_at,
        }
    }
}

/// A stored webhook subscription.
pub struct WebhookRow {
    pub id: u128,
    pub tenant_id: u128,
    pub endpoint_url: String,
    pub event_types: Vec<String>,
    pub secret_hash: String,
    pub enabled: bool,
    pub created_at: i64,
}

impl WebhookRow {
    /// The subscription the row holds, field for field.
    pub fn into_domain(self) -> (r: WebhookSubscription)
        ensures
            r == (WebhookSubscription {
                id: self.id,
                tenant_id: TenantId(self.tenant_id),
                endpoint_url: self.endpoint_url,
                event_types: self.event_types,
                secret_hash: self.secret_hash,
                enabled: self.enabled,
                created_at: self.created_at,
            }),
    {
        WebhookSubscription {
            id: self.id,
            tenant_id: TenantId(self.tenant_id),
            endpoint_url: self.endpoint_url,
            event_types: self.event_types,
            secret_hash: self.secret_hash,
            enabled: self.enabled,
            created_at: self.created_at,
        }
    }
}

/// A stored field-service appointment; the date is kept as its ISO text.
pub struct FieldServiceAppointmentRow {
    pub id: u128,
    pub tenant_id: u128,
    pub customer_id: u128,
    pub technician_id: Option<u128>,
    pub service_type: String,
    pub appointment_date: String,
    pub slot_window: String,
    pub is_confirmed: bool,
}

impl FieldServiceAppointmentRow {
    /// The appointment the row holds; a `Validation` error when the slot text
    /// is unknown.
    pub fn into_domain(self) -> (r: Result<FieldServiceAppointment, DomainError>)
        ensures
            match TimeSlotWindow::parse_spec(self.slot_window@) {
                None => fails_validation(r, TimeSlotWindow::unknown_message(self.slot_window@)),
                Some(w) => r == Ok::<FieldServiceAppointment, DomainError>(
                    FieldServiceAppointment {
                        id: self.id,
                        tenant_id: TenantId(self.tenant_id),
                        customer_id: self.customer_id,
                        technician_id: self.technician_id,
                        service_type: self.service_type,
                        appointment_date: self.appointment_date,
                        slot_window: w,
                        is_confirmed: self.is_confirmed,
                    },
                ),
            },
    {
        let slot_window = match TimeSlotWindow::parse(self.slot_window.as_str()) {
            Ok(w) => w,
            Err(e) => return Err(e),
        };
        Ok(FieldServiceAppointment {
            id: self.id,
            tenant_id: TenantId(self.tenant_id),
            customer_id: self.customer_id,
            technician_id: self.technician_id,
            service_type: self.service_type,
            appointment_date: self.appointment_date,
            slot_window,
            is_confirmed: self.is_confirmed,
        })
    }
}

} // verus!
