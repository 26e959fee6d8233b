use vstd::prelude::*;

use crate::billing::{Invoice, InvoiceId};
use crate::courier::Courier;
use crate::courier_wallet::CourierWallet;
use crate::coupon::Coupon;
use crate::customer::{CustomerId, CustomerProfile};
use crate::customer_feedback::{CustomerRating, SupportTicket};
use crate::delivery_pricing::DeliveryPricing;
use crate::device_push_token::DevicePushToken;
use crate::dispatch::Assignment;
use crate::fleet::{Vehicle, VehicleId};
use crate::notification::{Notification, NotificationId};
use crate::order::{Order, OrderId};
use crate::otp_challenge::OtpChallenge;
use crate::proof_of_delivery::ProofOfDeliveryRecord;
use crate::registry::Keyed;
use crate::table::Lookup;
use crate::tenant::{TenantCompany, TenantId, TenantMembership};
use crate::text::text_eq;
use crate::tracking::TrackingSession;
use crate::user::{User, UserId};
use crate::warehouse_hub::WarehouseHub;
use crate::webhook::WebhookSubscription;

verus! {

/// The tenant that a courier, an order or a vehicle (the subject) belongs to.
#[derive(Debug, Clone, Copy, PartialEq, Eq)]
pub struct TenantBinding {
    pub subject: u128,
    pub tenant_id: TenantId,
}

/// A tenant company registered under its slug.
#[derive(Debug, Clone)]
pub struct TenantSlot {
    pub slug: String,
    pub tenant: TenantCompany,
}

// Each stored record is its own view, and is stored under the key below.

impl View for TenantSlot {
    type V = TenantSlot;

    open spec fn view(&self) -> TenantSlot {
        *self
    }
}

impl Keyed for TenantSlot {
    type Key = Seq<char>;

    open spec fn key(&self) -> Seq<char> {
        self.slug@
    }

    fn same_key(&self, other: &Self) -> (b: bool) {
        text_eq(self.slug.as_str(), other.slug.as_str())
    }
}

impl View for TenantMembership {
    type V = TenantMembership;

    open spec fn view(&self) -> TenantMembership {
        *self
    }
}

impl Keyed for TenantMembership {
    type Key = (TenantId, UserId);

    open spec fn key(&self) -> (TenantId, UserId) {
        (self.tenant_id, self.user_id)
    }

    fn same_key(&self, other: &Self) -> (b: bool) {
        self.tenant_id == other.tenant_id && self.user_id == other.user_id
    }
}

impl Lookup for TenantMembership {
    fn has_key(&self, k: &(TenantId, UserId)) -> (b: bool) {
        self.tenant_id == k.0 && self.user_id == k.1
    }
}

impl View for Order {
    type V = Order;

    open spec fn view(&self) -> Order {
        *self
    }
}

impl Keyed for Order {
    type Key = OrderId;

    open spec fn key(&self) -> OrderId {
        self.id
    }

    fn same_key(&self, other: &Self) -> (b: bool) {
        self.id == other.id
    }
}

impl Lookup for Order {
    fn has_key(&self, k: &OrderId) -> (b: bool) {
        self.id == *k
    }
}

impl View for Courier {
    type V = Courier;

    open spec fn view(&self) -> Courier {
        *self
    }
}

impl Keyed for Courier {
    type Key = u128;

    open spec fn key(&self) -> u128 {
        self.id
    }

    fn same_key(&self, other: &Self) -> (b: bool) {
        self.id == other.id
    }
}

impl Lookup for Courier {
    fn has_key(&self, k: &u128) -> (b: bool) {
        self.id == *k
    }
}

impl View for Assignment {
    type V = Assignment;

    open spec fn view(&self) -> Assignment {
        *self
    }
}

impl Keyed for Assignment {
    type Key = OrderId;

    open spec fn key(&self) -> OrderId {
        self.order_id
    }

    fn same_key(&self, other: &Self) -> (b: bool) {
        self.order_id == other.order_id
    }
}

impl Lookup for Assignment {
    fn has_key(&self, k: &OrderId) -> (b: bool) {
        self.order_id == *k
    }
}

impl View for TrackingSession {
    type V = TrackingSession;

    open spec fn view(&self) -> TrackingSession {
        *self
    }
}

impl Keyed for TrackingSession {
    type Key = u128;

    open spec fn key(&self) -> u128 {
        self.id
    }

    fn same_key(&self, other: &Self) -> (b: bool) {
        self.id == other.id
    }
}

impl Lookup for TrackingSession {
    fn has_key(&self, k: &u128) -> (b: bool) {
        self.id == *k
    }
}

impl View for ProofOfDeliveryRecord {
    type V = ProofOfDeliveryRecord;

    open spec fn view(&self) -> ProofOfDeliveryRecord {
        *self
    }
}

impl Keyed for ProofOfDeliveryRecord {
    type Key = u128;

    open spec fn key(&self) -> u128 {
        self.order_id
    }

    fn same_key(&self, other: &Self) -> (b: bool) {
        self.order_id == other.order_id
    }
}

impl Lookup for ProofOfDeliveryRecord {
    fn has_key(&self, k: &u128) -> (b: bool) {
        self.order_id == *k
    }
}

impl View for WebhookSubscription {
    type V = WebhookSubscription;

    open spec fn view(&self) -> WebhookSubscription {
        *self
    }
}

impl Keyed for WebhookSubscription {
    type Key = u128;

    open spec fn key(&self) -> u128 {
        self.id
    }

    fn same_key(&self, other: &Self) -> (b: bool) {
        self.id == other.id
    }
}

impl Lookup for WebhookSubscription {
    fn has_key(&self, k: &u128) -> (b: bool) {
        self.id == *k
    }
}

impl View for Vehicle {
    type V = Vehicle;

    open spec fn view(&self) -> Vehicle {
        *self
    }
}

impl Keyed for Vehicle {
    type Key = VehicleId;

    open spec fn key(&self) -> VehicleId {
        self.id
    }

    fn same_key(&self, other: &Self) -> (b: bool) {
        self.id == other.id
    }
}

impl Lookup for Vehicle {
    fn has_key(&self, k: &VehicleId) -> (b: bool) {
        self.id == *k
    }
}

impl View for Invoice {
    type V = Invoice;

    open spec fn view(&self) -> Invoice {
        *self
    }
}

impl Keyed for Invoice {
    type Key = InvoiceId;

    open spec fn key(&self) -> InvoiceId {
        self.id
    }

    fn same_key(&self, other: &Self) -> (b: bool) {
        self.id == other.id
    }
}

impl Lookup for Invoice {
    fn has_key(&self, k: &InvoiceId) -> (b: bool) {
        self.id == *k
    }
}

impl View for Notification {
    type V = Notification;

    open spec fn view(&self) -> Notification {
        *self
    }
}

impl Keyed for Notification {
    type Key = NotificationId;

    open spec fn key(&self) -> NotificationId {
        self.id
    }

    fn same_key(&self, other: &Self) -> (b: bool) {
        self.id == other.id
    }
}

impl Lookup for Notification {
    fn has_key(&self, k: &NotificationId) -> (b: bool) {
        self.id == *k
    }
}

impl View for User {
    type V = User;

    open spec fn view(&self) -> User {
        *self
    }
}

impl Keyed for User {
    type Key = UserId;

    open spec fn key(&self) -> UserId {
        self.id
    }

    fn same_key(&self, other: &Self) -> (b: bool) {
        self.id == other.id
    }
}

impl Lookup for User {
    fn has_key(&self, k: &UserId) -> (b: bool) {
        self.id == *k
    }
}

impl View for OtpChallenge {
    type V = OtpChallenge;

    open spec fn view(&self) -> OtpChallenge {
        *self
    }
}

impl Keyed for OtpChallenge {
    type Key = u128;

    open spec fn key(&self) -> u128 {
        self.id
    }

    fn same_key(&self, other: &Self) -> (b: bool) {
        self.id == other.id
    }
}

impl Lookup for OtpChallenge {
    fn has_key(&self, k: &u128) -> (b: bool) {
        self.id == *k
    }
}

impl View for CourierWallet {
    type V = CourierWallet;

    open spec fn view(&self) -> CourierWallet {
        *self
    }
}

impl Keyed for CourierWallet {
    type Key = u128;

    open spec fn key(&self) -> u128 {
        self.courier_id
    }

    fn same_key(&self, other: &Self) -> (b: bool) {
        self.courier_id == other.courier_id
    }
}

impl Lookup for CourierWallet {
    fn has_key(&self, k: &u128) -> (b: bool) {
        self.courier_id == *k
    }
}

impl View for CustomerRating {
    type V = CustomerRating;

    open spec fn view(&self) -> CustomerRating {
        *self
    }
}

impl Keyed for CustomerRating {
    type Key = u128;

    open spec fn key(&self) -> u128 {
        self.id
    }

    fn same_key(&self, other: &Self) -> (b: bool) {
        self.id == other.id
    }
}

impl Lookup for CustomerRating {
    fn has_key(&self, k: &u128) -> (b: bool) {
        self.id == *k
    }
}

impl View for SupportTicket {
    type V = SupportTicket;

    open spec fn view(&self) -> SupportTicket {
        *self
    }
}

impl Keyed for SupportTicket {
    type Key = u128;

    open spec fn key(&self) -> u128 {
        self.id
    }

    fn same_key(&self, other: &Self) -> (b: bool) {
        self.id == other.id
    }
}

impl Lookup for SupportTicket {
    fn has_key(&self, k: &u128) -> (b: bool) {
        self.id == *k
    }
}

impl View for Coupon {
    type V = Coupon;

    open spec fn view(&self) -> Coupon {
        *self
    }
}

impl Keyed for Coupon {
    type Key = u128;

    open spec fn key(&self) -> u128 {
        self.id
    }

    fn same_key(&self, other: &Self) -> (b: bool) {
        self.id == other.id
    }
}

impl Lookup for Coupon {
    fn has_key(&self, k: &u128) -> (b: bool) {
        self.id == *k
    }
}

impl View for DeliveryPricing {
    type V = DeliveryPricing;

    open spec fn view(&self) -> DeliveryPricing {
        *self
    }
}

impl Keyed for DeliveryPricing {
    type Key = TenantId;

    open spec fn key(&self) -> TenantId {
        self.tenant_id
    }

    fn same_key(&self, other: &Self) -> (b: bool) {
        self.tenant_id == other.tenant_id
    }
}

impl Lookup for DeliveryPricing {
    fn has_key(&self, k: &TenantId) -> (b: bool) {
        self.tenant_id == *k
    }
}

impl View for DevicePushToken {
    type V = DevicePushToken;

    open spec fn view(&self) -> DevicePushToken {
        *self
    }
}

impl Keyed for DevicePushToken {
    type Key = u128;

    open spec fn key(&self) -> u128 {
        self.id
    }

    fn same_key(&self, other: &Self) -> (b: bool) {
        self.id == other.id
    }
}

impl Lookup for DevicePushToken {
    fn has_key(&self, k: &u128) -> (b: bool) {
        self.id == *k
    }
}

impl View for CustomerProfile {
    type V = CustomerProfile;

    open spec fn view(&self) -> CustomerProfile {
        *self
    }
}

impl Keyed for CustomerProfile {
    type Key = CustomerId;

    open spec fn key(&self) -> CustomerId {
        self.id
    }

    fn same_key(&self, other: &Self) -> (b: bool) {
        self.id == other.id
    }
}

impl Lookup for CustomerProfile {
    fn has_key(&self, k: &CustomerId) -> (b: bool) {
        self.id == *k
    }
}

impl View for TenantBinding {
    type V = TenantBinding;

    open spec fn view(&self) -> TenantBinding {
        *self
    }
}

impl Keyed for TenantBinding {
    type Key = u128;

    open spec fn key(&self) -> u128 {
        self.subject
    }

    fn same_key(&self, other: &Self) -> (b: bool) {
        self.subject == other.subject
    }
}

impl Lookup for TenantBinding {
    fn has_key(&self, k: &u128) -> (b: bool) {
        self.subject == *k
    }
}

impl View for WarehouseHub {
    type V = WarehouseHub;

    open spec fn view(&self) -> WarehouseHub {
        *self
    }
}

impl Keyed for WarehouseHub {
    type Key = u128;

    open spec fn key(&self) -> u128 {
        self.id
    }

    fn same_key(&self, other: &Self) -> (b: bool) {
        self.id == other.id
    }
}

impl Lookup for WarehouseHub {
    fn has_key(&self, k: &u128) -> (b: bool) {
        self.id == *k
    }
}

} // verus!
