use vstd::prelude::*;

use vstd::seq_lib::{to_multiset_build, to_multiset_insert};

use crate::billing::{CourierPayout, Invoice, InvoiceId};
use crate::cold_chain::ColdChainTelemetry;
use crate::coupon::Coupon;
use crate::courier::{Courier, CourierStatus};
use crate::courier_wallet::{CourierWallet, WalletTransaction};
use crate::customer::{CustomerId, CustomerProfile};
use crate::customer_feedback::{CustomerRating, SupportTicket};
use crate::delivery_pricing::DeliveryPricing;
use crate::device_push_token::DevicePushToken;
use crate::dispatch::{Assignment, AssignmentStatus};
use crate::error::{
    already_exists_error, fails_already_exists, fails_not_found, not_found_error, DomainError,
};
use crate::field_service::FieldServiceAppointment;
use crate::fleet::{Vehicle, VehicleId, VehicleStatus};
use crate::notification::{Notification, NotificationId};
use crate::order::{Order, OrderId};
use crate::otp_challenge::OtpChallenge;
use crate::proof_of_delivery::ProofOfDeliveryRecord;
use crate::registry::Keyed;
use crate::route_history::RouteBreadcrumb;
use crate::stored::{TenantBinding, TenantSlot};
use crate::table::{first_picked, law_picked_exactly, picked, pointed, select_rows, Selector, Table};
use crate::tenant::{TenantCompany, TenantId, TenantMembership};
use crate::text::{eq_ignore_ascii_case, eq_ignore_ascii_case_spec, text_eq};
use crate::tracking::{TrackingPoint, TrackingSession, TrackingSessionStatus};
use crate::user::{User, UserId};
use crate::warehouse_hub::{HubManifestAssignment, WarehouseHub};
use crate::webhook::WebhookSubscription;

verus! {

/// `found` is the record that `m` holds under `k`, or `None` when it holds none.
pub open spec fn looked_up<K, V>(m: Map<K, V>, k: K, found: Option<&V>) -> bool {
    match found {
        Some(x) => m.contains_key(k) && m[k] == *x,
        None => !m.contains_key(k),
    }
}

/// What a repository finds under a key after a record was stored under it is
/// that record; under any other key it finds what it found before.
pub proof fn law_lookup_after_store<K, V>(before: Map<K, V>, k: K, v: V, other: K, found: Option<&V>)
    ensures
        looked_up(before.insert(k, v), k, Some(&v)),
        other != k ==> (looked_up(before.insert(k, v), other, found) <==> looked_up(before, other, found)),
{
}

/// After a record is removed, nothing is found under its key, and every other
/// key finds what it found before.
pub proof fn law_lookup_after_remove<K, V>(before: Map<K, V>, k: K, other: K, found: Option<&V>)
    ensures
        looked_up(before.remove(k), k, None),
        other != k ==> (looked_up(before.remove(k), other, found) <==> looked_up(before, other, found)),
{
}

/// The couriers listed as available are exactly the stored couriers whose
/// status is `Available`: each listed courier is stored and available, and
/// each stored available courier is listed.
pub proof fn law_available_couriers_listed(rows: Seq<Courier>)
    ensures
        forall|i: int|
            0 <= i < picked(rows, AvailableCouriers).len() ==> (#[trigger] picked(
                rows,
                AvailableCouriers,
            )[i]).status == CourierStatus::Available && rows.contains(picked(rows, AvailableCouriers)[i]),
        forall|i: int|
            0 <= i < rows.len() && (#[trigger] rows[i]).status == CourierStatus::Available ==> picked(
                rows,
                AvailableCouriers,
            ).contains(rows[i]),
{
    law_picked_exactly(rows, AvailableCouriers);
}

/// A session found as a courier's active session belongs to that courier and
/// is active; when none is found, the courier has no stored active session.
pub proof fn law_active_session_found(
    rows: Seq<TrackingSession>,
    courier_id: u128,
    found: Option<&TrackingSession>,
)
    requires
        first_picked(rows, ActiveSessionOf(courier_id), found),
    ensures
        found matches Some(s) ==> s.courier_id == courier_id && s.status
            == TrackingSessionStatus::Active && rows.contains(*s),
        found is None ==> forall|i: int|
            0 <= i < rows.len() ==> !((#[trigger] rows[i]).courier_id == courier_id && rows[i].status
                == TrackingSessionStatus::Active),
{
}

/// The ratings listed for a courier are exactly the stored ratings given to
/// that courier.
pub proof fn law_ratings_of_courier_listed(rows: Seq<CustomerRating>, courier_id: u128)
    ensures
        forall|i: int|
            0 <= i < picked(rows, RatingsOfCourier(courier_id)).len() ==> (#[trigger] picked(
                rows,
                RatingsOfCourier(courier_id),
            )[i]).courier_id == courier_id && rows.contains(picked(rows, RatingsOfCourier(courier_id))[i]),
        forall|i: int|
            0 <= i < rows.len() && (#[trigger] rows[i]).courier_id == courier_id ==> picked(
                rows,
                RatingsOfCourier(courier_id),
            ).contains(rows[i]),
{
    law_picked_exactly(rows, RatingsOfCourier(courier_id));
}

// ---------------------------------------------------------------------------
// Orders
// ---------------------------------------------------------------------------

/// Orders stored by id.
pub struct InMemoryOrderRepository {
    store: Table<Order>,
}

impl View for InMemoryOrderRepository {
    type V = Map<OrderId, Order>;

    closed spec fn view(&self) -> Map<OrderId, Order> {
        self.store.contents()
    }
}

impl InMemoryOrderRepository {
    /// The stored orders, in the order in which each id was first stored.
    pub closed spec fn rows(&self) -> Seq<Order> {
        self.store.rows()
    }

    /// An empty repository.
    pub fn new() -> (r: Self)
        ensures
            r@ == Map::<OrderId, Order>::empty(),
            r.rows() == Seq::<Order>::empty(),
    {
        InMemoryOrderRepository { store: Table::new() }
    }

    /// Stores the order under its id; an order stored there before is replaced.
    pub fn create(&mut self, order: Order) -> (r: Result<(), DomainError>)
        ensures
            r is Ok,
            final(self)@ == old(self)@.insert(order.id, order),
    {
        self.store.put(order);
        Ok(())
    }

    /// The order stored under `id`, if any.
    pub fn find_by_id(&self, id: OrderId) -> (r: Result<Option<&Order>, DomainError>)
        ensures
            r matches Ok(found) && looked_up(self@, id, found),
    {
        Ok(self.store.get(&id))
    }

    /// Stores the order under its id, replacing the one stored there.
    pub fn update(&mut self, order: Order) -> (r: Result<(), DomainError>)
        ensures
            r is Ok,
            final(self)@ == old(self)@.insert(order.id, order),
    {
        self.store.put(order);
        Ok(())
    }

    /// Every stored order.
    pub fn list_all(&self) -> (r: Result<Vec<&Order>, DomainError>)
        ensures
            r matches Ok(list) && pointed(list@) == self.rows(),
    {
        let list = self.store.select(&Everything);
        proof {
            lemma_pick_everything(self.store.rows());
        }
        Ok(list)
    }
}

/// Selects every record.
pub struct Everything;

impl<T> Selector<T> for Everything {
    open spec fn selects(&self, item: T) -> bool {
        true
    }

    fn test(&self, item: &T) -> (b: bool) {
        true
    }
}

/// Picking every row gives back the rows.
proof fn lemma_pick_everything<T>(rows: Seq<T>)
    ensures
        picked(rows, Everything) == rows,
    decreases rows.len(),
{
    reveal(Seq::filter);
    if rows.len() > 0 {
        lemma_pick_everything(rows.drop_last());
        assert(rows.drop_last().push(rows.last()) =~= rows);
    } else {
        assert(picked(rows, Everything) =~= rows);
    }
}


// ---------------------------------------------------------------------------
// Couriers
// ---------------------------------------------------------------------------

/// Couriers stored by id.
pub struct InMemoryCourierRepository {
    store: Table<Courier>,
}

impl View for InMemoryCourierRepository {
    type V = Map<u128, Courier>;

    closed spec fn view(&self) -> Map<u128, Courier> {
        self.store.contents()
    }
}

/// Selects the couriers that are available for work.
pub struct AvailableCouriers;

impl Selector<Courier> for AvailableCouriers {
    open spec fn selects(&self, item: Courier) -> bool {
        item.status == CourierStatus::Available
    }

    fn test(&self, item: &Courier) -> (b: bool) {
        item.status == CourierStatus::Available
    }
}

/// Registration times never decrease along `list`.
pub open spec fn by_registration(list: Seq<&Courier>) -> bool {
    forall|i: int, j: int| 0 <= i < j < list.len() ==> list[i].registered_at <= list[j].registered_at
}

/// The couriers of `list`, ordered by registration time.
fn sorted_by_registration<'a>(list: &Vec<&'a Courier>) -> (r: Vec<&'a Courier>)
    ensures
        pointed(r@).to_multiset() == pointed(list@).to_multiset(),
        by_registration(r@),
{
    let mut r: Vec<&'a Courier> = Vec::new();
    let n = list.len();
    let mut i: usize = 0;
    assert(pointed(r@) =~= pointed(list@.take(0)));
    while i < n
        invariant
            n == list@.len(),
            i <= n,
            pointed(r@).to_multiset() == pointed(list@.take(i as int)).to_multiset(),
            by_registration(r@),
        decreases n - i,
    {
        let c = list[i];
        let mut p: usize = 0;
        while p < r.len() && r[p].registered_at <= c.registered_at
            invariant
                p <= r@.len(),
                forall|q: int| 0 <= q < p ==> #[trigger] r@[q].registered_at <= c.registered_at,
            decreases r@.len() - p,
        {
            p = p + 1;
        }
        let ghost before = r@;
        r.insert(p, c);
        proof {
            assert(pointed(r@) =~= pointed(before).insert(p as int, *c));
            to_multiset_insert(pointed(before), p as int, *c);
            assert(pointed(list@.take(i as int + 1)) =~= pointed(list@.take(i as int)).push(*c));
            to_multiset_build(pointed(list@.take(i as int)), *c);
            assert forall|a: int, b: int| 0 <= a < b < r@.len() implies r@[a].registered_at
                <= r@[b].registered_at by {
                if b < p {
                } else if b == p {
                } else if a < p {
                    assert(r@[b] == before[b - 1]);
                } else if a == p {
                    assert(r@[b] == before[b - 1]);
                    assert(before[p as int].registered_at > c.registered_at);
                } else {
                    assert(r@[a] == before[a - 1]);
                    assert(r@[b] == before[b - 1]);
                }
            }
        }
        i = i + 1;
    }
    assert(list@.take(n as int) =~= list@);
    r
}

impl InMemoryCourierRepository {
    /// The stored couriers, in the order in which each id was first stored.
    pub closed spec fn rows(&self) -> Seq<Courier> {
        self.store.rows()
    }

    /// An empty repository.
    pub fn new() -> (r: Self)
        ensures
            r@ == Map::<u128, Courier>::empty(),
            r.rows() == Seq::<Courier>::empty(),
    {
        InMemoryCourierRepository { store: Table::new() }
    }

    /// Stores the courier under its id; a courier stored there before is replaced.
    pub fn create(&mut self, courier: Courier) -> (r: Result<(), DomainError>)
        ensures
            r is Ok,
            final(self)@ == old(self)@.insert(courier.id, courier),
    {
        self.store.put(courier);
        Ok(())
    }

    /// The courier stored under `id`, if any.
    pub fn find_by_id(&self, id: u128) -> (r: Result<Option<&Courier>, DomainError>)
        ensures
            r matches Ok(found) && looked_up(self@, id, found),
    {
        Ok(self.store.get(&id))
    }

    /// Every stored courier, earliest registration first.
    pub fn list_all(&self) -> (r: Result<Vec<&Courier>, DomainError>)
        ensures
            r matches Ok(list) && pointed(list@).to_multiset() == self.rows().to_multiset()
                && by_registration(list@),
    {
        let all = self.store.select(&Everything);
        proof {
            lemma_pick_everything(self.store.rows());
        }
        Ok(sorted_by_registration(&all))
    }

    /// The couriers that are available for work.
    pub fn list_available(&self) -> (r: Result<Vec<&Courier>, DomainError>)
        ensures
            r matches Ok(list) && pointed(list@) == picked(self.rows(), AvailableCouriers),
            r matches Ok(list) && forall|i: int|
                0 <= i < list@.len() ==> (#[trigger] list@[i]).status == CourierStatus::Available
                    && self.rows().contains(*list@[i]),
            r matches Ok(list) && forall|i: int|
                0 <= i < self.rows().len() && (#[trigger] self.rows()[i]).status
                    == CourierStatus::Available ==> pointed(list@).contains(self.rows()[i]),
    {
        let list = self.store.select(&AvailableCouriers);
        proof {
            law_picked_exactly(self.store.rows(), AvailableCouriers);
            assert forall|i: int| 0 <= i < list@.len() implies pointed(list@)[i] == *list@[i] by {}
        }
        Ok(list)
    }

    /// Stores the courier under its id, replacing the one stored there.
    pub fn update(&mut self, courier: Courier) -> (r: Result<(), DomainError>)
        ensures
            r is Ok,
            final(self)@ == old(self)@.insert(courier.id, courier),
    {
        self.store.put(courier);
        Ok(())
    }
}

// ---------------------------------------------------------------------------
// Assignments
// ---------------------------------------------------------------------------

/// Assignments stored by the order they are for; an order has at most one.
pub struct InMemoryAssignmentRepository {
    store: Table<Assignment>,
}

impl View for InMemoryAssignmentRepository {
    type V = Map<OrderId, Assignment>;

    closed spec fn view(&self) -> Map<OrderId, Assignment> {
        self.store.contents()
    }
}

/// Selects the offers made to a courier that are still open.
pub struct PendingOfferFor(pub u128);

impl Selector<Assignment> for PendingOfferFor {
    open spec fn selects(&self, item: Assignment) -> bool {
        item.courier_id == self.0 && item.status == AssignmentStatus::Offered
    }

    fn test(&self, item: &Assignment) -> (b: bool) {
        item.courier_id == self.0 && item.status == AssignmentStatus::Offered
    }
}

impl InMemoryAssignmentRepository {
    /// The stored assignments, in the order in which each order was first stored.
    pub closed spec fn rows(&self) -> Seq<Assignment> {
        self.store.rows()
    }

    /// An empty repository.
    pub fn new() -> (r: Self)
        ensures
            r@ == Map::<OrderId, Assignment>::empty(),
            r.rows() == Seq::<Assignment>::empty(),
    {
        InMemoryAssignmentRepository { store: Table::new() }
    }

    /// Stores the assignment under its order; one stored there before is replaced.
    pub fn create(&mut self, assignment: Assignment) -> (r: Result<(), DomainError>)
        ensures
            r is Ok,
            final(self)@ == old(self)@.insert(assignment.order_id, assignment),
    {
        self.store.put(assignment);
        Ok(())
    }

    /// The assignment for `order_id`, if any.
    pub fn find_by_order(&self, order_id: OrderId) -> (r: Result<Option<&Assignment>, DomainError>)
        ensures
            r matches Ok(found) && looked_up(self@, order_id, found),
    {
        Ok(self.store.get(&order_id))
    }

    /// An open offer made to the courier, if any (the first stored).
    pub fn find_pending_offer_for_courier(&self, courier_id: u128) -> (r: Result<
        Option<&Assignment>,
        DomainError,
    >)
        ensures
            r matches Ok(found) && first_picked(self.rows(), PendingOfferFor(courier_id), found),
            r matches Ok(Some(x)) ==> x.courier_id == courier_id && x.status == AssignmentStatus::Offered && self.rows().contains(*x),
            r matches Ok(None) ==> forall|i: int| 0 <= i < self.rows().len() ==> !((#[trigger] self.rows()[i]).courier_id == courier_id && self.rows()[i].status == AssignmentStatus::Offered),
    {
        Ok(self.store.find(&PendingOfferFor(courier_id)))
    }

    /// Stores the assignment under its order, replacing the one stored there.
    pub fn update(&mut self, assignment: Assignment) -> (r: Result<(), DomainError>)
        ensures
            r is Ok,
            final(self)@ == old(self)@.insert(assignment.order_id, assignment),
    {
        self.store.put(assignment);
        Ok(())
    }
}

// ---------------------------------------------------------------------------
// Tracking
// ---------------------------------------------------------------------------

/// Tracking points, in the order recorded, and tracking sessions stored by id.
pub struct InMemoryTrackingRepository {
    points: Vec<TrackingPoint>,
    sessions: Table<TrackingSession>,
}

impl View for InMemoryTrackingRepository {
    type V = Map<u128, TrackingSession>;

    closed spec fn view(&self) -> Map<u128, TrackingSession> {
        self.sessions.contents()
    }
}

/// Selects a courier's active tracking sessions.
pub struct ActiveSessionOf(pub u128);

impl Selector<TrackingSession> for ActiveSessionOf {
    open spec fn selects(&self, item: TrackingSession) -> bool {
        item.courier_id == self.0 && item.status == TrackingSessionStatus::Active
    }

    fn test(&self, item: &TrackingSession) -> (b: bool) {
        item.courier_id == self.0 && item.status == TrackingSessionStatus::Active
    }
}

impl InMemoryTrackingRepository {
    /// The recorded points, oldest first.
    pub closed spec fn points(&self) -> Seq<TrackingPoint> {
        self.points@
    }

    /// The stored sessions, in the order in which each id was first stored.
    pub closed spec fn session_rows(&self) -> Seq<TrackingSession> {
        self.sessions.rows()
    }

    /// An empty repository.
    pub fn new() -> (r: Self)
        ensures
            r@ == Map::<u128, TrackingSession>::empty(),
            r.points() == Seq::<TrackingPoint>::empty(),
            r.session_rows() == Seq::<TrackingSession>::empty(),
    {
        InMemoryTrackingRepository { points: Vec::new(), sessions: Table::new() }
    }

    /// Appends a point to the recorded points.
    pub fn record_point(&mut self, point: TrackingPoint) -> (r: Result<(), DomainError>)
        ensures
            r is Ok,
            final(self).points() == old(self).points().push(point),
            final(self)@ == old(self)@,
    {
        self.points.push(point);
        Ok(())
    }

    /// Stores the session under its id; one stored there before is replaced.
    pub fn create_session(&mut self, session: TrackingSession) -> (r: Result<(), DomainError>)
        ensures
            r is Ok,
            final(self)@ == old(self)@.insert(session.id, session),
            final(self).points() == old(self).points(),
    {
        self.sessions.put(session);
        Ok(())
    }

    /// The session stored under `id`, if any.
    pub fn find_session(&self, id: u128) -> (r: Result<Option<&TrackingSession>, DomainError>)
        ensures
            r matches Ok(found) && looked_up(self@, id, found),
    {
        Ok(self.sessions.get(&id))
    }

    /// An active session of the courier, if any (the first stored).
    pub fn find_active_session_for_courier(&self, courier_id: u128) -> (r: Result<
        Option<&TrackingSession>,
        DomainError,
    >)
        ensures
            r matches Ok(found) && first_picked(self.session_rows(), ActiveSessionOf(courier_id), found),
            r matches Ok(Some(x)) ==> x.courier_id == courier_id && x.status == TrackingSessionStatus::Active && self.session_rows().contains(*x),
            r matches Ok(None) ==> forall|i: int| 0 <= i < self.session_rows().len() ==> !((#[trigger] self.session_rows()[i]).courier_id == courier_id && self.session_rows()[i].status == TrackingSessionStatus::Active),
    {
        Ok(self.sessions.find(&ActiveSessionOf(courier_id)))
    }

    /// Stores the session under its id, replacing the one stored there.
    pub fn update_session(&mut self, session: TrackingSession) -> (r: Result<(), DomainError>)
        ensures
            r is Ok,
            final(self)@ == old(self)@.insert(session.id, session),
            final(self).points() == old(self).points(),
    {
        self.sessions.put(session);
        Ok(())
    }
}

// ---------------------------------------------------------------------------
// Proofs of delivery
// ---------------------------------------------------------------------------

/// Proofs of delivery stored by order; an order has at most one.
pub struct InMemoryProofOfDeliveryRepository {
    store: Table<ProofOfDeliveryRecord>,
}

impl View for InMemoryProofOfDeliveryRepository {
    type V = Map<u128, ProofOfDeliveryRecord>;

    closed spec fn view(&self) -> Map<u128, ProofOfDeliveryRecord> {
        self.store.contents()
    }
}

impl InMemoryProofOfDeliveryRepository {
    /// An empty repository.
    pub fn new() -> (r: Self)
        ensures
            r@ == Map::<u128, ProofOfDeliveryRecord>::empty(),
    {
        InMemoryProofOfDeliveryRepository { store: Table::new() }
    }

    /// Stores the proof for its order; refused when the order already has one.
    pub fn create(&mut self, proof: ProofOfDeliveryRecord) -> (r: Result<(), DomainError>)
        ensures
            old(self)@.contains_key(proof.order_id) ==> fails_already_exists(
                r,
                "proof of delivery already exists for order"@,
            ) && final(self)@ == old(self)@,
            !old(self)@.contains_key(proof.order_id) ==> r is Ok && final(self)@ == old(
                self,
            )@.insert(proof.order_id, proof),
    {
        if self.store.contains_key(&proof.order_id) {
            return Err(already_exists_error("proof of delivery already exists for order"));
        }
        self.store.put(proof);
        Ok(())
    }

    /// The proof of delivery for the order, if any.
    pub fn find_by_order(&self, order_id: OrderId) -> (r: Result<
        Option<&ProofOfDeliveryRecord>,
        DomainError,
    >)
        ensures
            r matches Ok(found) && looked_up(self@, order_id.0, found),
    {
        Ok(self.store.get(&order_id.0))
    }
}


// ---------------------------------------------------------------------------
// Webhook subscriptions
// ---------------------------------------------------------------------------

/// Webhook subscriptions stored by id.
pub struct InMemoryWebhookRepository {
    store: Table<WebhookSubscription>,
}

impl View for InMemoryWebhookRepository {
    type V = Map<u128, WebhookSubscription>;

    closed spec fn view(&self) -> Map<u128, WebhookSubscription> {
        self.store.contents()
    }
}

/// Selects a tenant's webhook subscriptions.
pub struct WebhooksOf(pub TenantId);

impl Selector<WebhookSubscription> for WebhooksOf {
    open spec fn selects(&self, item: WebhookSubscription) -> bool {
        item.tenant_id == self.0
    }

    fn test(&self, item: &WebhookSubscription) -> (b: bool) {
        item.tenant_id == self.0
    }
}

impl InMemoryWebhookRepository {
    /// The stored subscriptions, in the order in which each id was first stored.
    pub closed spec fn rows(&self) -> Seq<WebhookSubscription> {
        self.store.rows()
    }

    /// An empty repository.
    pub fn new() -> (r: Self)
        ensures
            r@ == Map::<u128, WebhookSubscription>::empty(),
            r.rows() == Seq::<WebhookSubscription>::empty(),
    {
        InMemoryWebhookRepository { store: Table::new() }
    }

    /// Stores the subscription under its id; one stored there before is replaced.
    pub fn create(&mut self, subscription: WebhookSubscription) -> (r: Result<(), DomainError>)
        ensures
            r is Ok,
            final(self)@ == old(self)@.insert(subscription.id, subscription),
    {
        self.store.put(subscription);
        Ok(())
    }

    /// The tenant's subscriptions.
    pub fn list_for_tenant(&self, tenant_id: TenantId) -> (r: Result<
        Vec<&WebhookSubscription>,
        DomainError,
    >)
        ensures
            r matches Ok(list) && pointed(list@) == picked(self.rows(), WebhooksOf(tenant_id)),
            r matches Ok(list) && forall|i: int|
                0 <= i < list@.len() ==> (#[trigger] list@[i]).tenant_id == tenant_id && self.rows().contains(*list@[i]),
            r matches Ok(list) && forall|i: int|
                0 <= i < self.rows().len() && (#[trigger] self.rows()[i]).tenant_id == tenant_id ==> pointed(list@).contains(self.rows()[i]),
    {
        let list = self.store.select(&WebhooksOf(tenant_id));
        proof {
            law_picked_exactly(self.store.rows(), WebhooksOf(tenant_id));
            assert forall|i: int| 0 <= i < list@.len() implies pointed(list@)[i] == *list@[i] by {}
        }
        Ok(list)
    }

    /// Deletes the tenant's subscription `id`; refused when no subscription of
    /// that tenant is stored under `id`.
    pub fn delete(&mut self, tenant_id: TenantId, id: u128) -> (r: Result<(), DomainError>)
        ensures
            old(self)@.contains_key(id) && old(self)@[id].tenant_id == tenant_id ==> r is Ok
                && final(self)@ == old(self)@.remove(id),
            !(old(self)@.contains_key(id) && old(self)@[id].tenant_id == tenant_id)
                ==> fails_not_found(r, "webhook subscription not found"@) && final(self)@ == old(self)@,
    {
        let owned = match self.store.get(&id) {
            Some(item) => item.tenant_id == tenant_id,
            None => false,
        };
        if owned {
            self.store.remove(&id);
            Ok(())
        } else {
            Err(not_found_error("webhook subscription not found"))
        }
    }
}

// ---------------------------------------------------------------------------
// Vehicles
// ---------------------------------------------------------------------------

/// Vehicles stored by id.
pub struct InMemoryVehicleRepository {
    store: Table<Vehicle>,
}

impl View for InMemoryVehicleRepository {
    type V = Map<VehicleId, Vehicle>;

    closed spec fn view(&self) -> Map<VehicleId, Vehicle> {
        self.store.contents()
    }
}

/// Selects the vehicles with a given plate number.
pub struct PlateIs<'a>(pub &'a str);

impl<'a> Selector<Vehicle> for PlateIs<'a> {
    open spec fn selects(&self, item: Vehicle) -> bool {
        item.plate_number@ == self.0@
    }

    fn test(&self, item: &Vehicle) -> (b: bool) {
        text_eq(item.plate_number.as_str(), self.0)
    }
}

/// Selects the vehicles in active service.
pub struct ActiveVehicles;

impl Selector<Vehicle> for ActiveVehicles {
    open spec fn selects(&self, item: Vehicle) -> bool {
        item.status == VehicleStatus::Active
    }

    fn test(&self, item: &Vehicle) -> (b: bool) {
        item.status == VehicleStatus::Active
    }
}

impl InMemoryVehicleRepository {
    /// The stored vehicles, in the order in which each id was first stored.
    pub closed spec fn rows(&self) -> Seq<Vehicle> {
        self.store.rows()
    }

    /// An empty repository.
    pub fn new() -> (r: Self)
        ensures
            r@ == Map::<VehicleId, Vehicle>::empty(),
            r.rows() == Seq::<Vehicle>::empty(),
    {
        InMemoryVehicleRepository { store: Table::new() }
    }

    /// Stores the vehicle under its id; one stored there before is replaced.
    pub fn create(&mut self, vehicle: Vehicle) -> (r: Result<(), DomainError>)
        ensures
            r is Ok,
            final(self)@ == old(self)@.insert(vehicle.id, vehicle),
    {
        self.store.put(vehicle);
        Ok(())
    }

    /// The vehicle stored under `id`, if any.
    pub fn find_by_id(&self, id: VehicleId) -> (r: Result<Option<&Vehicle>, DomainError>)
        ensures
            r matches Ok(found) && looked_up(self@, id, found),
    {
        Ok(self.store.get(&id))
    }

    /// A vehicle with the plate number, if any (the first stored).
    pub fn find_by_plate(&self, plate: &str) -> (r: Result<Option<&Vehicle>, DomainError>)
        ensures
            r matches Ok(found) && first_picked(self.rows(), PlateIs(plate), found),
            r matches Ok(Some(x)) ==> x.plate_number@ == plate@ && self.rows().contains(*x),
            r matches Ok(None) ==> forall|i: int| 0 <= i < self.rows().len() ==> !((#[trigger] self.rows()[i]).plate_number@ == plate@),
    {
        Ok(self.store.find(&PlateIs(plate)))
    }

    /// The vehicles in active service.
    pub fn list_active(&self) -> (r: Result<Vec<&Vehicle>, DomainError>)
        ensures
            r matches Ok(list) && pointed(list@) == picked(self.rows(), ActiveVehicles),
            r matches Ok(list) && forall|i: int|
                0 <= i < list@.len() ==> (#[trigger] list@[i]).status == VehicleStatus::Active && self.rows().contains(*list@[i]),
            r matches Ok(list) && forall|i: int|
                0 <= i < self.rows().len() && (#[trigger] self.rows()[i]).status == VehicleStatus::Active ==> pointed(list@).contains(self.rows()[i]),
    {
        let list = self.store.select(&ActiveVehicles);
        proof {
            law_picked_exactly(self.store.rows(), ActiveVehicles);
            assert forall|i: int| 0 <= i < list@.len() implies pointed(list@)[i] == *list@[i] by {}
        }
        Ok(list)
    }

    /// Stores the vehicle under its id, replacing the one stored there.
    pub fn update(&mut self, vehicle: Vehicle) -> (r: Result<(), DomainError>)
        ensures
            r is Ok,
            final(self)@ == old(self)@.insert(vehicle.id, vehicle),
    {
        self.store.put(vehicle);
        Ok(())
    }
}

// ---------------------------------------------------------------------------
// Invoices
// ---------------------------------------------------------------------------

/// Invoices stored by id.
pub struct InMemoryInvoiceRepository {
    store: Table<Invoice>,
}

impl View for InMemoryInvoiceRepository {
    type V = Map<InvoiceId, Invoice>;

    closed spec fn view(&self) -> Map<InvoiceId, Invoice> {
        self.store.contents()
    }
}

/// Selects the invoices of an order.
pub struct InvoicesFor(pub OrderId);

impl Selector<Invoice> for InvoicesFor {
    open spec fn selects(&self, item: Invoice) -> bool {
        item.order_id == self.0
    }

    fn test(&self, item: &Invoice) -> (b: bool) {
        item.order_id == self.0
    }
}

impl InMemoryInvoiceRepository {
    /// The stored invoices, in the order in which each id was first stored.
    pub closed spec fn rows(&self) -> Seq<Invoice> {
        self.store.rows()
    }

    /// An empty repository.
    pub fn new() -> (r: Self)
        ensures
            r@ == Map::<InvoiceId, Invoice>::empty(),
            r.rows() == Seq::<Invoice>::empty(),
    {
        InMemoryInvoiceRepository { store: Table::new() }
    }

    /// Stores the invoice under its id; one stored there before is replaced.
    pub fn create(&mut self, invoice: Invoice) -> (r: Result<(), DomainError>)
        ensures
            r is Ok,
            final(self)@ == old(self)@.insert(invoice.id, invoice),
    {
        self.store.put(invoice);
        Ok(())
    }

    /// The invoice stored under `id`, if any.
    pub fn find_by_id(&self, id: InvoiceId) -> (r: Result<Option<&Invoice>, DomainError>)
        ensures
            r matches Ok(found) && looked_up(self@, id, found),
    {
        Ok(self.store.get(&id))
    }

    /// An invoice of the order, if any (the first stored).
    pub fn find_by_order(&self, order_id: OrderId) -> (r: Result<Option<&Invoice>, DomainError>)
        ensures
            r matches Ok(found) && first_picked(self.rows(), InvoicesFor(order_id), found),
            r matches Ok(Some(x)) ==> x.order_id == order_id && self.rows().contains(*x),
            r matches Ok(None) ==> forall|i: int| 0 <= i < self.rows().len() ==> !((#[trigger] self.rows()[i]).order_id == order_id),
    {
        Ok(self.store.find(&InvoicesFor(order_id)))
    }

    /// Stores the invoice under its id, replacing the one stored there.
    pub fn update(&mut self, invoice: Invoice) -> (r: Result<(), DomainError>)
        ensures
            r is Ok,
            final(self)@ == old(self)@.insert(invoice.id, invoice),
    {
        self.store.put(invoice);
        Ok(())
    }
}

// ---------------------------------------------------------------------------
// Courier payouts
// ---------------------------------------------------------------------------

/// Courier payouts in the order they were created.
pub struct InMemoryPayoutRepository {
    store: Vec<CourierPayout>,
}

/// Selects the payouts of a courier.
pub struct PayoutsOf(pub u128);

impl Selector<CourierPayout> for PayoutsOf {
    open spec fn selects(&self, item: CourierPayout) -> bool {
        item.courier_id == self.0
    }

    fn test(&self, item: &CourierPayout) -> (b: bool) {
        item.courier_id == self.0
    }
}

impl InMemoryPayoutRepository {
    /// The stored payouts, oldest first.
    pub closed spec fn rows(&self) -> Seq<CourierPayout> {
        self.store@
    }

    /// An empty repository.
    pub fn new() -> (r: Self)
        ensures
            r.rows() == Seq::<CourierPayout>::empty(),
    {
        InMemoryPayoutRepository { store: Vec::new() }
    }

    /// Appends the payout.
    pub fn create(&mut self, payout: CourierPayout) -> (r: Result<(), DomainError>)
        ensures
            r is Ok,
            final(self).rows() == old(self).rows().push(payout),
    {
        self.store.push(payout);
        Ok(())
    }

    /// The courier's payouts, oldest first.
    pub fn find_by_courier(&self, courier_id: u128) -> (r: Result<Vec<&CourierPayout>, DomainError>)
        ensures
            r matches Ok(list) && pointed(list@) == picked(self.rows(), PayoutsOf(courier_id)),
            r matches Ok(list) && forall|i: int|
                0 <= i < list@.len() ==> (#[trigger] list@[i]).courier_id == courier_id && self.rows().contains(*list@[i]),
            r matches Ok(list) && forall|i: int|
                0 <= i < self.rows().len() && (#[trigger] self.rows()[i]).courier_id == courier_id ==> pointed(list@).contains(self.rows()[i]),
    {
        let list = select_rows(&self.store, &PayoutsOf(courier_id));
        proof {
            law_picked_exactly(self.store@, PayoutsOf(courier_id));
            assert forall|i: int| 0 <= i < list@.len() implies pointed(list@)[i] == *list@[i] by {}
        }
        Ok(list)
    }

    /// Replaces the first stored payout with the same id; nothing changes when
    /// there is none.
    pub fn update(&mut self, payout: CourierPayout) -> (r: Result<(), DomainError>)
        ensures
            r is Ok,
            (exists|i: int|
                0 <= i < old(self).rows().len() && old(self).rows()[i].id == payout.id && (forall|
                    j: int,
                | 0 <= j < i ==> #[trigger] old(self).rows()[j].id != payout.id) && final(self).rows()
                    == old(self).rows().update(i, payout)) || ((forall|i: int|
                0 <= i < old(self).rows().len() ==> #[trigger] old(self).rows()[i].id != payout.id)
                && final(self).rows() == old(self).rows()),
    {
        let n = self.store.len();
        let mut i: usize = 0;
        while i < n
            invariant
                n == self.store@.len(),
                self.store@ == old(self).store@,
                i <= n,
                forall|j: int| 0 <= j < i ==> #[trigger] self.store@[j].id != payout.id,
            decreases n - i,
        {
            if self.store[i].id == payout.id {
                self.store.set(i, payout);
                return Ok(());
            }
            i = i + 1;
        }
        Ok(())
    }
}

// ---------------------------------------------------------------------------
// Notifications
// ---------------------------------------------------------------------------

/// Notifications stored by id.
pub struct InMemoryNotificationRepository {
    store: Table<Notification>,
}

impl View for InMemoryNotificationRepository {
    type V = Map<NotificationId, Notification>;

    closed spec fn view(&self) -> Map<NotificationId, Notification> {
        self.store.contents()
    }
}

/// Selects the notifications addressed to a recipient.
pub struct NotificationsFor(pub u128);

impl Selector<Notification> for NotificationsFor {
    open spec fn selects(&self, item: Notification) -> bool {
        item.recipient_id == self.0
    }

    fn test(&self, item: &Notification) -> (b: bool) {
        item.recipient_id == self.0
    }
}

impl InMemoryNotificationRepository {
    /// The stored notifications, in the order in which each id was first stored.
    pub closed spec fn rows(&self) -> Seq<Notification> {
        self.store.rows()
    }

    /// An empty repository.
    pub fn new() -> (r: Self)
        ensures
            r@ == Map::<NotificationId, Notification>::empty(),
            r.rows() == Seq::<Notification>::empty(),
    {
        InMemoryNotificationRepository { store: Table::new() }
    }

    /// Stores the notification under its id; one stored there before is replaced.
    pub fn create(&mut self, notification: Notification) -> (r: Result<(), DomainError>)
        ensures
            r is Ok,
            final(self)@ == old(self)@.insert(notification.id, notification),
    {
        self.store.put(notification);
        Ok(())
    }

    /// The notification stored under `id`, if any.
    pub fn find_by_id(&self, id: NotificationId) -> (r: Result<Option<&Notification>, DomainError>)
        ensures
            r matches Ok(found) && looked_up(self@, id, found),
    {
        Ok(self.store.get(&id))
    }

    /// The notifications addressed to the recipient.
    pub fn list_for_recipient(&self, recipient_id: u128) -> (r: Result<
        Vec<&Notification>,
        DomainError,
    >)
        ensures
            r matches Ok(list) && pointed(list@) == picked(self.rows(), NotificationsFor(recipient_id)),
            r matches Ok(list) && forall|i: int|
                0 <= i < list@.len() ==> (#[trigger] list@[i]).recipient_id == recipient_id && self.rows().contains(*list@[i]),
            r matches Ok(list) && forall|i: int|
                0 <= i < self.rows().len() && (#[trigger] self.rows()[i]).recipient_id == recipient_id ==> pointed(list@).contains(self.rows()[i]),
    {
        let list = self.store.select(&NotificationsFor(recipient_id));
        proof {
            law_picked_exactly(self.store.rows(), NotificationsFor(recipient_id));
            assert forall|i: int| 0 <= i < list@.len() implies pointed(list@)[i] == *list@[i] by {}
        }
        Ok(list)
    }

    /// Stores the notification under its id, replacing the one stored there.
    pub fn update(&mut self, notification: Notification) -> (r: Result<(), DomainError>)
        ensures
            r is Ok,
            final(self)@ == old(self)@.insert(notification.id, notification),
    {
        self.store.put(notification);
        Ok(())
    }
}

// ---------------------------------------------------------------------------
// Users
// ---------------------------------------------------------------------------

/// Users stored by id.
pub struct InMemoryUserRepository {
    store: Table<User>,
}

impl View for InMemoryUserRepository {
    type V = Map<UserId, User>;

    closed spec fn view(&self) -> Map<UserId, User> {
        self.store.contents()
    }
}

/// Selects the users whose email matches, ignoring ASCII case.
pub struct EmailIs<'a>(pub &'a str);

impl<'a> Selector<User> for EmailIs<'a> {
    open spec fn selects(&self, item: User) -> bool {
        eq_ignore_ascii_case_spec(item.email@, self.0@)
    }

    fn test(&self, item: &User) -> (b: bool) {
        eq_ignore_ascii_case(item.email.as_str(), self.0)
    }
}

/// Selects the users with a given phone number.
pub struct PhoneIs<'a>(pub &'a str);

impl<'a> Selector<User> for PhoneIs<'a> {
    open spec fn selects(&self, item: User) -> bool {
        item.phone matches Some(p) && p@ == self.0@
    }

    fn test(&self, item: &User) -> (b: bool) {
        match &item.phone {
            Some(p) => text_eq(p.as_str(), self.0),
            None => false,
        }
    }
}

impl InMemoryUserRepository {
    /// The stored users, in the order in which each id was first stored.
    pub closed spec fn rows(&self) -> Seq<User> {
        self.store.rows()
    }

    /// An empty repository.
    pub fn new() -> (r: Self)
        ensures
            r@ == Map::<UserId, User>::empty(),
            r.rows() == Seq::<User>::empty(),
    {
        InMemoryUserRepository { store: Table::new() }
    }

    /// Stores the user under its id; one stored there before is replaced.
    pub fn create(&mut self, user: User) -> (r: Result<(), DomainError>)
        ensures
            r is Ok,
            final(self)@ == old(self)@.insert(user.id, user),
    {
        self.store.put(user);
        Ok(())
    }

    /// The user stored under `id`, if any.
    pub fn find_by_id(&self, id: UserId) -> (r: Result<Option<&User>, DomainError>)
        ensures
            r matches Ok(found) && looked_up(self@, id, found),
    {
        Ok(self.store.get(&id))
    }

    /// A user whose email matches ignoring ASCII case, if any (the first stored).
    pub fn find_by_email(&self, email: &str) -> (r: Result<Option<&User>, DomainError>)
        ensures
            r matches Ok(found) && first_picked(self.rows(), EmailIs(email), found),
            r matches Ok(Some(x)) ==> eq_ignore_ascii_case_spec(x.email@, email@) && self.rows().contains(*x),
            r matches Ok(None) ==> forall|i: int| 0 <= i < self.rows().len() ==> !(eq_ignore_ascii_case_spec((#[trigger] self.rows()[i]).email@, email@)),
    {
        Ok(self.store.find(&EmailIs(email)))
    }

    /// A user with the phone number, if any (the first stored).
    pub fn find_by_phone(&self, phone: &str) -> (r: Result<Option<&User>, DomainError>)
        ensures
            r matches Ok(found) && first_picked(self.rows(), PhoneIs(phone), found),
            r matches Ok(Some(x)) ==> (x.phone matches Some(p) && p@ == phone@) && self.rows().contains(*x),
            r matches Ok(None) ==> forall|i: int| 0 <= i < self.rows().len() ==> !(((#[trigger] self.rows()[i]).phone matches Some(p) && p@ == phone@)),
    {
        Ok(self.store.find(&PhoneIs(phone)))
    }

    /// Stores the user under its id, replacing the one stored there.
    pub fn update(&mut self, user: User) -> (r: Result<(), DomainError>)
        ensures
            r is Ok,
            final(self)@ == old(self)@.insert(user.id, user),
    {
        self.store.put(user);
        Ok(())
    }
}


// ---------------------------------------------------------------------------
// One-time password challenges
// ---------------------------------------------------------------------------

/// One-time password challenges stored by id.
pub struct InMemoryOtpChallengeRepository {
    store: Table<OtpChallenge>,
}

impl View for InMemoryOtpChallengeRepository {
    type V = Map<u128, OtpChallenge>;

    closed spec fn view(&self) -> Map<u128, OtpChallenge> {
        self.store.contents()
    }
}

/// Selects a tenant's challenges for a phone that are still open at `now`:
/// neither consumed nor expired.
pub struct OpenChallengeFor<'a> {
    pub tenant_id: TenantId,
    pub phone: &'a str,
    pub now: i64,
}

impl<'a> Selector<OtpChallenge> for OpenChallengeFor<'a> {
    open spec fn selects(&self, item: OtpChallenge) -> bool {
        &&& item.tenant_id == self.tenant_id
        &&& item.phone@ == self.phone@
        &&& item.consumed_at is None
        &&& self.now < item.expires_at
    }

    fn test(&self, item: &OtpChallenge) -> (b: bool) {
        item.tenant_id == self.tenant_id && text_eq(item.phone.as_str(), self.phone)
            && !item.is_consumed() && !item.is_expired(self.now)
    }
}

/// `found` is a challenge of `list` created no earlier than any other, or
/// `None` when `list` is empty.
pub open spec fn latest_of(list: Seq<OtpChallenge>, found: Option<&OtpChallenge>) -> bool {
    match found {
        Some(x) => list.contains(*x) && forall|i: int|
            0 <= i < list.len() ==> #[trigger] list[i].created_at <= x.created_at,
        None => list.len() == 0,
    }
}

/// The last of the challenges created latest in `list`.
fn latest_challenge<'a>(list: &Vec<&'a OtpChallenge>) -> (r: Option<&'a OtpChallenge>)
    ensures
        latest_of(pointed(list@), r),
{
    if list.len() == 0 {
        return None;
    }
    let mut best: &'a OtpChallenge = list[0];
    let mut at: usize = 0;
    let n = list.len();
    let mut i: usize = 1;
    while i < n
        invariant
            n == list@.len(),
            1 <= i <= n,
            at < i,
            *best == *list@[at as int],
            forall|k: int| 0 <= k < i ==> #[trigger] list@[k].created_at <= best.created_at,
        decreases n - i,
    {
        if list[i].created_at >= best.created_at {
            best = list[i];
            at = i;
        }
        i = i + 1;
    }
    proof {
        assert(pointed(list@)[at as int] == *best);
        assert forall|k: int| 0 <= k < pointed(list@).len() implies #[trigger] pointed(
            list@,
        )[k].created_at <= best.created_at by {
            assert(pointed(list@)[k] == *list@[k]);
        }
    }
    Some(best)
}

impl InMemoryOtpChallengeRepository {
    /// The stored challenges, in the order in which each id was first stored.
    pub closed spec fn rows(&self) -> Seq<OtpChallenge> {
        self.store.rows()
    }

    /// An empty repository.
    pub fn new() -> (r: Self)
        ensures
            r@ == Map::<u128, OtpChallenge>::empty(),
            r.rows() == Seq::<OtpChallenge>::empty(),
    {
        InMemoryOtpChallengeRepository { store: Table::new() }
    }

    /// Stores the challenge under its id; one stored there before is replaced.
    pub fn create(&mut self, challenge: OtpChallenge) -> (r: Result<(), DomainError>)
        ensures
            r is Ok,
            final(self)@ == old(self)@.insert(challenge.id, challenge),
    {
        self.store.put(challenge);
        Ok(())
    }

    /// The tenant's most recently created challenge for the phone that is
    /// still open at `now`, if any.
    pub fn find_latest_active(&self, tenant_id: TenantId, phone: &str, now: i64) -> (r: Result<
        Option<&OtpChallenge>,
        DomainError,
    >)
        ensures
            r matches Ok(found) && latest_of(
                picked(self.rows(), OpenChallengeFor { tenant_id, phone, now }),
                found,
            ),
            r matches Ok(Some(x)) ==> x.tenant_id == tenant_id && x.phone@ == phone@ && x.consumed_at
                is None && now < x.expires_at && self.rows().contains(*x),
            r matches Ok(Some(x)) ==> forall|i: int|
                0 <= i < self.rows().len() && (#[trigger] self.rows()[i]).tenant_id == tenant_id
                    && self.rows()[i].phone@ == phone@ && self.rows()[i].consumed_at is None && now
                    < self.rows()[i].expires_at ==> self.rows()[i].created_at <= x.created_at,
            r matches Ok(None) ==> forall|i: int|
                0 <= i < self.rows().len() ==> !((#[trigger] self.rows()[i]).tenant_id == tenant_id
                    && self.rows()[i].phone@ == phone@ && self.rows()[i].consumed_at is None && now
                    < self.rows()[i].expires_at),
    {
        let sel = OpenChallengeFor { tenant_id, phone, now };
        let open = self.store.select(&sel);
        let found = latest_challenge(&open);
        proof {
            let rows = self.store.rows();
            let ps = picked(rows, sel);
            law_picked_exactly(rows, sel);
            match found {
                Some(x) => {
                    let j = choose|j: int| 0 <= j < ps.len() && ps[j] == *x;
                    assert(sel.selects(ps[j]));
                    assert forall|i: int|
                        0 <= i < rows.len() && (#[trigger] rows[i]).tenant_id == tenant_id
                            && rows[i].phone@ == phone@ && rows[i].consumed_at is None && now
                            < rows[i].expires_at implies rows[i].created_at <= x.created_at by {
                        assert(sel.selects(rows[i]));
                        assert(ps.contains(rows[i]));
                        let k = choose|k: int| 0 <= k < ps.len() && ps[k] == rows[i];
                        assert(ps[k].created_at <= x.created_at);
                    }
                },
                None => {
                    assert forall|i: int| 0 <= i < rows.len() implies !((#[trigger] rows[i]).tenant_id
                        == tenant_id && rows[i].phone@ == phone@ && rows[i].consumed_at is None && now
                        < rows[i].expires_at) by {
                        if sel.selects(rows[i]) {
                            assert(ps.contains(rows[i]));
                        }
                    }
                },
            }
        }
        Ok(found)
    }

    /// Stores the challenge under its id, replacing the one stored there.
    pub fn update(&mut self, challenge: OtpChallenge) -> (r: Result<(), DomainError>)
        ensures
            r is Ok,
            final(self)@ == old(self)@.insert(challenge.id, challenge),
    {
        self.store.put(challenge);
        Ok(())
    }
}

// ---------------------------------------------------------------------------
// Courier wallets
// ---------------------------------------------------------------------------

/// Courier wallets stored by courier; a courier has at most one.
pub struct InMemoryCourierWalletRepository {
    store: Table<CourierWallet>,
}

impl View for InMemoryCourierWalletRepository {
    type V = Map<u128, CourierWallet>;

    closed spec fn view(&self) -> Map<u128, CourierWallet> {
        self.store.contents()
    }
}

impl InMemoryCourierWalletRepository {
    /// An empty repository.
    pub fn new() -> (r: Self)
        ensures
            r@ == Map::<u128, CourierWallet>::empty(),
    {
        InMemoryCourierWalletRepository { store: Table::new() }
    }

    /// The courier's wallet, if any.
    pub fn find_by_courier(&self, courier_id: u128) -> (r: Result<Option<&CourierWallet>, DomainError>)
        ensures
            r matches Ok(found) && looked_up(self@, courier_id, found),
    {
        Ok(self.store.get(&courier_id))
    }

    /// Stores a new wallet; refused when the courier already has one.
    pub fn create(&mut self, wallet: CourierWallet) -> (r: Result<(), DomainError>)
        ensures
            old(self)@.contains_key(wallet.courier_id) ==> fails_already_exists(
                r,
                "courier already has a wallet"@,
            ) && final(self)@ == old(self)@,
            !old(self)@.contains_key(wallet.courier_id) ==> r is Ok && final(self)@ == old(self)@.insert(
                wallet.courier_id,
                wallet,
            ),
    {
        if self.store.contains_key(&wallet.courier_id) {
            return Err(already_exists_error("courier already has a wallet"));
        }
        self.store.put(wallet);
        Ok(())
    }

    /// Stores the wallet as it stands after a transaction was appended to it;
    /// the wallet already carries its whole transaction history.
    pub fn append_transaction(&mut self, wallet: CourierWallet, transaction: &WalletTransaction) -> (r:
        Result<(), DomainError>)
        ensures
            r is Ok,
            final(self)@ == old(self)@.insert(wallet.courier_id, wallet),
    {
        self.store.put(wallet);
        Ok(())
    }
}

// ---------------------------------------------------------------------------
// Customer ratings
// ---------------------------------------------------------------------------

/// Customer ratings stored by id; an order is rated at most once.
pub struct InMemoryCustomerRatingRepository {
    store: Table<CustomerRating>,
}

impl View for InMemoryCustomerRatingRepository {
    type V = Map<u128, CustomerRating>;

    closed spec fn view(&self) -> Map<u128, CustomerRating> {
        self.store.contents()
    }
}

/// Selects the ratings of an order.
pub struct RatingsOfOrder(pub u128);

impl Selector<CustomerRating> for RatingsOfOrder {
    open spec fn selects(&self, item: CustomerRating) -> bool {
        item.order_id == self.0
    }

    fn test(&self, item: &CustomerRating) -> (b: bool) {
        item.order_id == self.0
    }
}

/// Selects the ratings given to a courier.
pub struct RatingsOfCourier(pub u128);

impl Selector<CustomerRating> for RatingsOfCourier {
    open spec fn selects(&self, item: CustomerRating) -> bool {
        item.courier_id == self.0
    }

    fn test(&self, item: &CustomerRating) -> (b: bool) {
        item.courier_id == self.0
    }
}

impl InMemoryCustomerRatingRepository {
    /// The stored ratings, in the order in which each id was first stored.
    pub closed spec fn rows(&self) -> Seq<CustomerRating> {
        self.store.rows()
    }

    /// An empty repository.
    pub fn new() -> (r: Self)
        ensures
            r@ == Map::<u128, CustomerRating>::empty(),
            r.rows() == Seq::<CustomerRating>::empty(),
    {
        InMemoryCustomerRatingRepository { store: Table::new() }
    }

    /// Stores the rating under its id; refused when its order is already rated.
    pub fn create(&mut self, rating: CustomerRating) -> (r: Result<(), DomainError>)
        ensures
            (exists|i: int|
                0 <= i < old(self).rows().len() && #[trigger] old(self).rows()[i].order_id
                    == rating.order_id) ==> fails_already_exists(r, "order already has a rating"@)
                && final(self)@ == old(self)@,
            !(exists|i: int|
                0 <= i < old(self).rows().len() && #[trigger] old(self).rows()[i].order_id
                    == rating.order_id) ==> r is Ok && final(self)@ == old(self)@.insert(
                rating.id,
                rating,
            ),
    {
        if self.store.any(&RatingsOfOrder(rating.order_id)) {
            return Err(already_exists_error("order already has a rating"));
        }
        self.store.put(rating);
        Ok(())
    }

    /// A rating of the order, if any (the first stored).
    pub fn find_by_order(&self, order_id: u128) -> (r: Result<Option<&CustomerRating>, DomainError>)
        ensures
            r matches Ok(found) && first_picked(self.rows(), RatingsOfOrder(order_id), found),
            r matches Ok(Some(x)) ==> x.order_id == order_id && self.rows().contains(*x),
            r matches Ok(None) ==> forall|i: int| 0 <= i < self.rows().len() ==> !((#[trigger] self.rows()[i]).order_id == order_id),
    {
        Ok(self.store.find(&RatingsOfOrder(order_id)))
    }

    /// The ratings given to the courier.
    pub fn list_for_courier(&self, courier_id: u128) -> (r: Result<
        Vec<&CustomerRating>,
        DomainError,
    >)
        ensures
            r matches Ok(list) && pointed(list@) == picked(self.rows(), RatingsOfCourier(courier_id)),
            r matches Ok(list) && forall|i: int|
                0 <= i < list@.len() ==> (#[trigger] list@[i]).courier_id == courier_id && self.rows().contains(*list@[i]),
            r matches Ok(list) && forall|i: int|
                0 <= i < self.rows().len() && (#[trigger] self.rows()[i]).courier_id == courier_id ==> pointed(list@).contains(self.rows()[i]),
    {
        let list = self.store.select(&RatingsOfCourier(courier_id));
        proof {
            law_picked_exactly(self.store.rows(), RatingsOfCourier(courier_id));
            assert forall|i: int| 0 <= i < list@.len() implies pointed(list@)[i] == *list@[i] by {}
        }
        Ok(list)
    }
}

// ---------------------------------------------------------------------------
// Support tickets
// ---------------------------------------------------------------------------

/// Support tickets stored by id.
pub struct InMemorySupportTicketRepository {
    store: Table<SupportTicket>,
}

impl View for InMemorySupportTicketRepository {
    type V = Map<u128, SupportTicket>;

    closed spec fn view(&self) -> Map<u128, SupportTicket> {
        self.store.contents()
    }
}

/// Selects the tickets opened by a customer.
pub struct TicketsOfCustomer(pub u128);

impl Selector<SupportTicket> for TicketsOfCustomer {
    open spec fn selects(&self, item: SupportTicket) -> bool {
        item.customer_id == self.0
    }

    fn test(&self, item: &SupportTicket) -> (b: bool) {
        item.customer_id == self.0
    }
}

/// Selects the tickets of a tenant.
pub struct TicketsOfTenant(pub TenantId);

impl Selector<SupportTicket> for TicketsOfTenant {
    open spec fn selects(&self, item: SupportTicket) -> bool {
        item.tenant_id == self.0
    }

    fn test(&self, item: &SupportTicket) -> (b: bool) {
        item.tenant_id == self.0
    }
}

impl InMemorySupportTicketRepository {
    /// The stored tickets, in the order in which each id was first stored.
    pub closed spec fn rows(&self) -> Seq<SupportTicket> {
        self.store.rows()
    }

    /// An empty repository.
    pub fn new() -> (r: Self)
        ensures
            r@ == Map::<u128, SupportTicket>::empty(),
            r.rows() == Seq::<SupportTicket>::empty(),
    {
        InMemorySupportTicketRepository { store: Table::new() }
    }

    /// Stores the ticket under its id; one stored there before is replaced.
    pub fn create(&mut self, ticket: SupportTicket) -> (r: Result<(), DomainError>)
        ensures
            r is Ok,
            final(self)@ == old(self)@.insert(ticket.id, ticket),
    {
        self.store.put(ticket);
        Ok(())
    }

    /// The ticket stored under `id`, if any.
    pub fn find_by_id(&self, id: u128) -> (r: Result<Option<&SupportTicket>, DomainError>)
        ensures
            r matches Ok(found) && looked_up(self@, id, found),
    {
        Ok(self.store.get(&id))
    }

    /// The tickets opened by the customer.
    pub fn list_for_customer(&self, customer_id: u128) -> (r: Result<
        Vec<&SupportTicket>,
        DomainError,
    >)
        ensures
            r matches Ok(list) && pointed(list@) == picked(self.rows(), TicketsOfCustomer(customer_id)),
            r matches Ok(list) && forall|i: int|
                0 <= i < list@.len() ==> (#[trigger] list@[i]).customer_id == customer_id && self.rows().contains(*list@[i]),
            r matches Ok(list) && forall|i: int|
                0 <= i < self.rows().len() && (#[trigger] self.rows()[i]).customer_id == customer_id ==> pointed(list@).contains(self.rows()[i]),
    {
        let list = self.store.select(&TicketsOfCustomer(customer_id));
        proof {
            law_picked_exactly(self.store.rows(), TicketsOfCustomer(customer_id));
            assert forall|i: int| 0 <= i < list@.len() implies pointed(list@)[i] == *list@[i] by {}
        }
        Ok(list)
    }

    /// The tickets of the tenant.
    pub fn list_for_tenant(&self, tenant_id: TenantId) -> (r: Result<
        Vec<&SupportTicket>,
        DomainError,
    >)
        ensures
            r matches Ok(list) && pointed(list@) == picked(self.rows(), TicketsOfTenant(tenant_id)),
            r matches Ok(list) && forall|i: int|
                0 <= i < list@.len() ==> (#[trigger] list@[i]).tenant_id == tenant_id && self.rows().contains(*list@[i]),
            r matches Ok(list) && forall|i: int|
                0 <= i < self.rows().len() && (#[trigger] self.rows()[i]).tenant_id == tenant_id ==> pointed(list@).contains(self.rows()[i]),
    {
        let list = self.store.select(&TicketsOfTenant(tenant_id));
        proof {
            law_picked_exactly(self.store.rows(), TicketsOfTenant(tenant_id));
            assert forall|i: int| 0 <= i < list@.len() implies pointed(list@)[i] == *list@[i] by {}
        }
        Ok(list)
    }

    /// Stores the ticket under its id, replacing the one stored there.
    pub fn update(&mut self, ticket: SupportTicket) -> (r: Result<(), DomainError>)
        ensures
            r is Ok,
            final(self)@ == old(self)@.insert(ticket.id, ticket),
    {
        self.store.put(ticket);
        Ok(())
    }
}

// ---------------------------------------------------------------------------
// Coupons
// ---------------------------------------------------------------------------

/// Coupons stored by id; a code is used at most once per tenant.
pub struct InMemoryCouponRepository {
    store: Table<Coupon>,
}

impl View for InMemoryCouponRepository {
    type V = Map<u128, Coupon>;

    closed spec fn view(&self) -> Map<u128, Coupon> {
        self.store.contents()
    }
}

/// Selects a tenant's coupons with a given code.
pub struct CouponCode<'a> {
    pub tenant_id: TenantId,
    pub code: &'a str,
}

impl<'a> Selector<Coupon> for CouponCode<'a> {
    open spec fn selects(&self, item: Coupon) -> bool {
        item.tenant_id == self.tenant_id && item.code@ == self.code@
    }

    fn test(&self, item: &Coupon) -> (b: bool) {
        item.tenant_id == self.tenant_id && text_eq(item.code.as_str(), self.code)
    }
}

/// Selects a tenant's coupons.
pub struct CouponsOf(pub TenantId);

impl Selector<Coupon> for CouponsOf {
    open spec fn selects(&self, item: Coupon) -> bool {
        item.tenant_id == self.0
    }

    fn test(&self, item: &Coupon) -> (b: bool) {
        item.tenant_id == self.0
    }
}

/// Whether some coupon of `rows` has the tenant and code of `coupon`.
pub open spec fn code_taken(rows: Seq<Coupon>, coupon: Coupon) -> bool {
    exists|i: int|
        0 <= i < rows.len() && #[trigger] rows[i].tenant_id == coupon.tenant_id && rows[i].code@
            == coupon.code@
}

impl InMemoryCouponRepository {
    /// The stored coupons, in the order in which each id was first stored.
    pub closed spec fn rows(&self) -> Seq<Coupon> {
        self.store.rows()
    }

    /// An empty repository.
    pub fn new() -> (r: Self)
        ensures
            r@ == Map::<u128, Coupon>::empty(),
            r.rows() == Seq::<Coupon>::empty(),
    {
        InMemoryCouponRepository { store: Table::new() }
    }

    /// Stores the coupon under its id; refused when the tenant already has a
    /// coupon with the same code.
    pub fn create(&mut self, coupon: Coupon) -> (r: Result<(), DomainError>)
        ensures
            code_taken(old(self).rows(), coupon) ==> fails_already_exists(
                r,
                "a coupon with this code already exists for this tenant"@,
            ) && final(self)@ == old(self)@,
            !code_taken(old(self).rows(), coupon) ==> r is Ok && final(self)@ == old(self)@.insert(
                coupon.id,
                coupon,
            ),
    {
        let taken = self.store.any(&CouponCode { tenant_id: coupon.tenant_id, code: coupon.code.as_str() });
        if taken {
            return Err(already_exists_error("a coupon with this code already exists for this tenant"));
        }
        self.store.put(coupon);
        Ok(())
    }

    /// The tenant's coupon with the code, if any (the first stored).
    pub fn find_by_code(&self, tenant_id: TenantId, code: &str) -> (r: Result<
        Option<&Coupon>,
        DomainError,
    >)
        ensures
            r matches Ok(found) && first_picked(self.rows(), CouponCode { tenant_id, code }, found),
            r matches Ok(Some(x)) ==> x.tenant_id == tenant_id && x.code@ == code@ && self.rows().contains(*x),
            r matches Ok(None) ==> forall|i: int| 0 <= i < self.rows().len() ==> !((#[trigger] self.rows()[i]).tenant_id == tenant_id && self.rows()[i].code@ == code@),
    {
        Ok(self.store.find(&CouponCode { tenant_id, code }))
    }

    /// The tenant's coupons.
    pub fn list_for_tenant(&self, tenant_id: TenantId) -> (r: Result<Vec<&Coupon>, DomainError>)
        ensures
            r matches Ok(list) && pointed(list@) == picked(self.rows(), CouponsOf(tenant_id)),
            r matches Ok(list) && forall|i: int|
                0 <= i < list@.len() ==> (#[trigger] list@[i]).tenant_id == tenant_id && self.rows().contains(*list@[i]),
            r matches Ok(list) && forall|i: int|
                0 <= i < self.rows().len() && (#[trigger] self.rows()[i]).tenant_id == tenant_id ==> pointed(list@).contains(self.rows()[i]),
    {
        let list = self.store.select(&CouponsOf(tenant_id));
        proof {
            law_picked_exactly(self.store.rows(), CouponsOf(tenant_id));
            assert forall|i: int| 0 <= i < list@.len() implies pointed(list@)[i] == *list@[i] by {}
        }
        Ok(list)
    }

    /// Stores the coupon under its id, replacing the one stored there.
    pub fn update(&mut self, coupon: Coupon) -> (r: Result<(), DomainError>)
        ensures
            r is Ok,
            final(self)@ == old(self)@.insert(coupon.id, coupon),
    {
        self.store.put(coupon);
        Ok(())
    }
}

// ---------------------------------------------------------------------------
// Delivery pricing
// ---------------------------------------------------------------------------

/// Delivery pricing stored by tenant; a tenant has at most one.
pub struct InMemoryDeliveryPricingRepository {
    store: Table<DeliveryPricing>,
}

impl View for InMemoryDeliveryPricingRepository {
    type V = Map<TenantId, DeliveryPricing>;

    closed spec fn view(&self) -> Map<TenantId, DeliveryPricing> {
        self.store.contents()
    }
}

impl InMemoryDeliveryPricingRepository {
    /// An empty repository.
    pub fn new() -> (r: Self)
        ensures
            r@ == Map::<TenantId, DeliveryPricing>::empty(),
    {
        InMemoryDeliveryPricingRepository { store: Table::new() }
    }

    /// The tenant's pricing, if any.
    pub fn find_by_tenant(&self, tenant_id: TenantId) -> (r: Result<
        Option<&DeliveryPricing>,
        DomainError,
    >)
        ensures
            r matches Ok(found) && looked_up(self@, tenant_id, found),
    {
        Ok(self.store.get(&tenant_id))
    }

    /// Stores the pricing for its tenant, replacing the one stored there.
    pub fn upsert(&mut self, pricing: DeliveryPricing) -> (r: Result<(), DomainError>)
        ensures
            r is Ok,
            final(self)@ == old(self)@.insert(pricing.tenant_id, pricing),
    {
        self.store.put(pricing);
        Ok(())
    }
}

// ---------------------------------------------------------------------------
// Device push tokens
// ---------------------------------------------------------------------------

/// Device push tokens stored by id.
pub struct InMemoryDevicePushTokenRepository {
    store: Table<DevicePushToken>,
}

impl View for InMemoryDevicePushTokenRepository {
    type V = Map<u128, DevicePushToken>;

    closed spec fn view(&self) -> Map<u128, DevicePushToken> {
        self.store.contents()
    }
}

/// Selects a user's registrations of a device token.
pub struct DeviceTokenOf<'a> {
    pub user_id: UserId,
    pub device_token: &'a str,
}

impl<'a> Selector<DevicePushToken> for DeviceTokenOf<'a> {
    open spec fn selects(&self, item: DevicePushToken) -> bool {
        item.user_id == self.user_id && item.device_token@ == self.device_token@
    }

    fn test(&self, item: &DevicePushToken) -> (b: bool) {
        item.user_id == self.user_id && text_eq(item.device_token.as_str(), self.device_token)
    }
}

/// Selects a user's push tokens.
pub struct TokensOf(pub UserId);

impl Selector<DevicePushToken> for TokensOf {
    open spec fn selects(&self, item: DevicePushToken) -> bool {
        item.user_id == self.0
    }

    fn test(&self, item: &DevicePushToken) -> (b: bool) {
        item.user_id == self.0
    }
}

impl InMemoryDevicePushTokenRepository {
    /// The stored tokens, in the order in which each id was first stored.
    pub closed spec fn rows(&self) -> Seq<DevicePushToken> {
        self.store.rows()
    }

    /// An empty repository.
    pub fn new() -> (r: Self)
        ensures
            r@ == Map::<u128, DevicePushToken>::empty(),
            r.rows() == Seq::<DevicePushToken>::empty(),
    {
        InMemoryDevicePushTokenRepository { store: Table::new() }
    }

    /// Stores the token under its id; one stored there before is replaced.
    pub fn create(&mut self, token: DevicePushToken) -> (r: Result<(), DomainError>)
        ensures
            r is Ok,
            final(self)@ == old(self)@.insert(token.id, token),
    {
        self.store.put(token);
        Ok(())
    }

    /// The user's registration of the device token, if any (the first stored).
    pub fn find_by_user_and_token(&self, user_id: UserId, device_token: &str) -> (r: Result<
        Option<&DevicePushToken>,
        DomainError,
    >)
        ensures
            r matches Ok(found) && first_picked(self.rows(), DeviceTokenOf { user_id, device_token }, found),
            r matches Ok(Some(x)) ==> x.user_id == user_id && x.device_token@ == device_token@ && self.rows().contains(*x),
            r matches Ok(None) ==> forall|i: int| 0 <= i < self.rows().len() ==> !((#[trigger] self.rows()[i]).user_id == user_id && self.rows()[i].device_token@ == device_token@),
    {
        Ok(self.store.find(&DeviceTokenOf { user_id, device_token }))
    }

    /// The user's push tokens.
    pub fn list_for_user(&self, user_id: UserId) -> (r: Result<Vec<&DevicePushToken>, DomainError>)
        ensures
            r matches Ok(list) && pointed(list@) == picked(self.rows(), TokensOf(user_id)),
            r matches Ok(list) && forall|i: int|
                0 <= i < list@.len() ==> (#[trigger] list@[i]).user_id == user_id && self.rows().contains(*list@[i]),
            r matches Ok(list) && forall|i: int|
                0 <= i < self.rows().len() && (#[trigger] self.rows()[i]).user_id == user_id ==> pointed(list@).contains(self.rows()[i]),
    {
        let list = self.store.select(&TokensOf(user_id));
        proof {
            law_picked_exactly(self.store.rows(), TokensOf(user_id));
            assert forall|i: int| 0 <= i < list@.len() implies pointed(list@)[i] == *list@[i] by {}
        }
        Ok(list)
    }

    /// Deletes the user's token `id`; nothing changes when no token of that
    /// user is stored under `id`.
    pub fn delete(&mut self, user_id: UserId, id: u128) -> (r: Result<(), DomainError>)
        ensures
            r is Ok,
            old(self)@.contains_key(id) && old(self)@[id].user_id == user_id ==> final(self)@ == old(
                self,
            )@.remove(id),
            !(old(self)@.contains_key(id) && old(self)@[id].user_id == user_id) ==> final(self)@
                == old(self)@,
    {
        let owned = match self.store.get(&id) {
            Some(token) => token.user_id == user_id,
            None => false,
        };
        if owned {
            self.store.remove(&id);
        }
        Ok(())
    }
}

// ---------------------------------------------------------------------------
// Customer profiles
// ---------------------------------------------------------------------------

/// Customer profiles stored by id.
pub struct InMemoryCustomerRepository {
    store: Table<CustomerProfile>,
}

impl View for InMemoryCustomerRepository {
    type V = Map<CustomerId, CustomerProfile>;

    closed spec fn view(&self) -> Map<CustomerId, CustomerProfile> {
        self.store.contents()
    }
}

/// Selects the profiles of a user.
pub struct ProfileOf(pub UserId);

impl Selector<CustomerProfile> for ProfileOf {
    open spec fn selects(&self, item: CustomerProfile) -> bool {
        item.user_id == self.0
    }

    fn test(&self, item: &CustomerProfile) -> (b: bool) {
        item.user_id == self.0
    }
}

impl InMemoryCustomerRepository {
    /// The stored profiles, in the order in which each id was first stored.
    pub closed spec fn rows(&self) -> Seq<CustomerProfile> {
        self.store.rows()
    }

    /// An empty repository.
    pub fn new() -> (r: Self)
        ensures
            r@ == Map::<CustomerId, CustomerProfile>::empty(),
            r.rows() == Seq::<CustomerProfile>::empty(),
    {
        InMemoryCustomerRepository { store: Table::new() }
    }

    /// Stores the profile under its id; one stored there before is replaced.
    pub fn create(&mut self, profile: CustomerProfile) -> (r: Result<(), DomainError>)
        ensures
            r is Ok,
            final(self)@ == old(self)@.insert(profile.id, profile),
    {
        self.store.put(profile);
        Ok(())
    }

    /// The profile stored under `id`, if any.
    pub fn find_by_id(&self, id: CustomerId) -> (r: Result<Option<&CustomerProfile>, DomainError>)
        ensures
            r matches Ok(found) && looked_up(self@, id, found),
    {
        Ok(self.store.get(&id))
    }

    /// A profile of the user, if any (the first stored).
    pub fn find_by_user(&self, user_id: UserId) -> (r: Result<Option<&CustomerProfile>, DomainError>)
        ensures
            r matches Ok(found) && first_picked(self.rows(), ProfileOf(user_id), found),
            r matches Ok(Some(x)) ==> x.user_id == user_id && self.rows().contains(*x),
            r matches Ok(None) ==> forall|i: int| 0 <= i < self.rows().len() ==> !((#[trigger] self.rows()[i]).user_id == user_id),
    {
        Ok(self.store.find(&ProfileOf(user_id)))
    }

    /// Stores the profile under its id, replacing the one stored there.
    pub fn update(&mut self, profile: CustomerProfile) -> (r: Result<(), DomainError>)
        ensures
            r is Ok,
            final(self)@ == old(self)@.insert(profile.id, profile),
    {
        self.store.put(profile);
        Ok(())
    }
}


// ---------------------------------------------------------------------------
// Tenants
// ---------------------------------------------------------------------------

/// Tenant companies by slug, tenant memberships by tenant and user, and the
/// tenant that each courier, order and vehicle is bound to.
pub struct InMemoryTenantRepository {
    tenants: Table<TenantSlot>,
    memberships: Table<TenantMembership>,
    courier_tenants: Table<TenantBinding>,
    order_tenants: Table<TenantBinding>,
    vehicle_tenants: Table<TenantBinding>,
}

/// Selects the tenant registered under a slug.
pub struct SlugIs<'a>(pub &'a str);

impl<'a> Selector<TenantSlot> for SlugIs<'a> {
    open spec fn selects(&self, item: TenantSlot) -> bool {
        item.slug@ == self.0@
    }

    fn test(&self, item: &TenantSlot) -> (b: bool) {
        text_eq(item.slug.as_str(), self.0)
    }
}

/// The tenants that a table of bindings binds its subjects to.
pub open spec fn bound_tenants(t: Table<TenantBinding>) -> Map<u128, TenantId> {
    t.contents().map_values(|b: TenantBinding| b.tenant_id)
}

/// Binds `subject` to `tenant_id` in `t`.
fn bind(t: &mut Table<TenantBinding>, subject: u128, tenant_id: TenantId)
    ensures
        bound_tenants(*final(t)) == bound_tenants(*old(t)).insert(subject, tenant_id),
{
    t.put(TenantBinding { subject, tenant_id });
    assert(bound_tenants(*final(t)) =~= bound_tenants(*old(t)).insert(subject, tenant_id));
}

/// The tenant that `t` binds `subject` to, if any.
fn bound_tenant(t: &Table<TenantBinding>, subject: u128) -> (r: Option<TenantId>)
    ensures
        r == (if bound_tenants(*t).contains_key(subject) {
            Some(bound_tenants(*t)[subject])
        } else {
            None
        }),
{
    match t.get(&subject) {
        Some(b) => Some(b.tenant_id),
        None => None,
    }
}

impl InMemoryTenantRepository {
    /// The tenant companies by slug.
    pub closed spec fn companies(&self) -> Map<Seq<char>, TenantCompany> {
        self.tenants.contents().map_values(|slot: TenantSlot| slot.tenant)
    }

    /// The memberships by tenant and user.
    pub closed spec fn members(&self) -> Map<(TenantId, UserId), TenantMembership> {
        self.memberships.contents()
    }

    /// The tenant that each courier is bound to.
    pub closed spec fn courier_tenants(&self) -> Map<u128, TenantId> {
        bound_tenants(self.courier_tenants)
    }

    /// The tenant that each order is bound to, by the order's id.
    pub closed spec fn order_tenants(&self) -> Map<u128, TenantId> {
        bound_tenants(self.order_tenants)
    }

    /// The tenant that each vehicle is bound to, by the vehicle's id.
    pub closed spec fn vehicle_tenants(&self) -> Map<u128, TenantId> {
        bound_tenants(self.vehicle_tenants)
    }

    /// An empty repository.
    pub fn new() -> (r: Self)
        ensures
            r.companies() == Map::<Seq<char>, TenantCompany>::empty(),
            r.members() == Map::<(TenantId, UserId), TenantMembership>::empty(),
            r.courier_tenants() == Map::<u128, TenantId>::empty(),
            r.order_tenants() == Map::<u128, TenantId>::empty(),
            r.vehicle_tenants() == Map::<u128, TenantId>::empty(),
    {
        let r = InMemoryTenantRepository {
            tenants: Table::new(),
            memberships: Table::new(),
            courier_tenants: Table::new(),
            order_tenants: Table::new(),
            vehicle_tenants: Table::new(),
        };
        assert(r.companies() =~= Map::<Seq<char>, TenantCompany>::empty());
        assert(r.courier_tenants() =~= Map::<u128, TenantId>::empty());
        assert(r.order_tenants() =~= Map::<u128, TenantId>::empty());
        assert(r.vehicle_tenants() =~= Map::<u128, TenantId>::empty());
        r
    }

    /// Registers the tenant under `slug`; refused when the slug is taken.
    pub fn create_tenant(&mut self, tenant: TenantCompany, slug: &str) -> (r: Result<(), DomainError>)
        ensures
            old(self).companies().contains_key(slug@) ==> fails_already_exists(
                r,
                "tenant slug already exists"@,
            ) && final(self).companies() == old(self).companies(),
            !old(self).companies().contains_key(slug@) ==> r is Ok && final(self).companies()
                == old(self).companies().insert(slug@, tenant),
            final(self).members() == old(self).members(),
    {
        let taken = self.tenants.any(&SlugIs(slug));
        if taken {
            proof {
                let i = choose|i: int|
                    0 <= i < self.tenants.rows().len() && SlugIs(slug).selects(
                        #[trigger] self.tenants.rows()[i],
                    );
                assert(self.tenants.contents().contains_key(self.tenants.rows()[i].key()));
            }
            return Err(already_exists_error("tenant slug already exists"));
        }
        proof {
            if self.tenants.contents().contains_key(slug@) {
                let i = choose|i: int|
                    0 <= i < self.tenants.rows().len() && #[trigger] self.tenants.rows()[i].key()
                        == slug@;
                assert(SlugIs(slug).selects(self.tenants.rows()[i]));
            }
        }
        let slot = TenantSlot { slug: slug.to_string(), tenant };
        self.tenants.put(slot);
        proof {
            assert(self.companies() =~= old(self).companies().insert(slug@, tenant));
        }
        Ok(())
    }

    /// Whether some tenant is registered.
    pub fn has_any_tenant(&self) -> (r: Result<bool, DomainError>)
        ensures
            r matches Ok(b) && b == !(self.companies() =~= Map::<Seq<char>, TenantCompany>::empty()),
    {
        let empty = self.tenants.is_empty();
        proof {
            if empty {
                assert(self.companies() =~= Map::<Seq<char>, TenantCompany>::empty());
            } else {
                let k = self.tenants.rows()[0].key();
                assert(self.tenants.contents().contains_key(k));
                assert(self.companies().contains_key(k));
            }
        }
        Ok(!empty)
    }

    /// The tenant registered under `slug`, if any.
    pub fn find_by_slug(&self, slug: &str) -> (r: Result<Option<&TenantCompany>, DomainError>)
        ensures
            r matches Ok(found) && looked_up(self.companies(), slug@, found),
    {
        match self.tenants.find(&SlugIs(slug)) {
            Some(slot) => {
                proof {
                    let i = choose|i: int|
                        0 <= i < self.tenants.rows().len() && self.tenants.rows()[i] == *slot
                            && SlugIs(slug).selects(*slot) && forall|j: int|
                            0 <= j < i ==> !SlugIs(slug).selects(#[trigger] self.tenants.rows()[j]);
                    assert(self.tenants.contents().contains_key(self.tenants.rows()[i].key()));
                }
                Ok(Some(&slot.tenant))
            },
            None => {
                proof {
                    if self.tenants.contents().contains_key(slug@) {
                        let i = choose|i: int|
                            0 <= i < self.tenants.rows().len() && #[trigger] self.tenants.rows()[i].key()
                                == slug@;
                        assert(SlugIs(slug).selects(self.tenants.rows()[i]));
                    }
                }
                Ok(None)
            },
        }
    }

    /// Records the membership; refused when the user is already a member of
    /// the tenant.
    pub fn add_member(&mut self, membership: TenantMembership) -> (r: Result<(), DomainError>)
        ensures
            old(self).members().contains_key((membership.tenant_id, membership.user_id))
                ==> fails_already_exists(r, "tenant membership already exists"@) && final(self).members()
                == old(self).members(),
            !old(self).members().contains_key((membership.tenant_id, membership.user_id)) ==> r is Ok
                && final(self).members() == old(self).members().insert(
                (membership.tenant_id, membership.user_id),
                membership,
            ),
            final(self).companies() == old(self).companies(),
    {
        if self.memberships.contains_key(&(membership.tenant_id, membership.user_id)) {
            return Err(already_exists_error("tenant membership already exists"));
        }
        self.memberships.put(membership);
        Ok(())
    }

    /// The user's membership of the tenant, if any.
    pub fn find_membership(&self, tenant_id: TenantId, user_id: UserId) -> (r: Result<
        Option<&TenantMembership>,
        DomainError,
    >)
        ensures
            r matches Ok(found) && looked_up(self.members(), (tenant_id, user_id), found),
    {
        Ok(self.memberships.get(&(tenant_id, user_id)))
    }

    /// Binds the courier to the tenant, replacing an earlier binding.
    pub fn bind_courier(&mut self, tenant_id: TenantId, courier_id: u128) -> (r: Result<(), DomainError>)
        ensures
            r is Ok,
            final(self).courier_tenants() == old(self).courier_tenants().insert(courier_id, tenant_id),
    {
        bind(&mut self.courier_tenants, courier_id, tenant_id);
        Ok(())
    }

    /// Binds the order to the tenant, replacing an earlier binding.
    pub fn bind_order(&mut self, tenant_id: TenantId, order_id: OrderId) -> (r: Result<(), DomainError>)
        ensures
            r is Ok,
            final(self).order_tenants() == old(self).order_tenants().insert(order_id.0, tenant_id),
    {
        bind(&mut self.order_tenants, order_id.0, tenant_id);
        Ok(())
    }

    /// The tenant the courier is bound to, if any.
    pub fn find_courier_tenant(&self, courier_id: u128) -> (r: Result<Option<TenantId>, DomainError>)
        ensures
            r matches Ok(found) && found == (if self.courier_tenants().contains_key(courier_id) {
                Some(self.courier_tenants()[courier_id])
            } else {
                None
            }),
    {
        Ok(bound_tenant(&self.courier_tenants, courier_id))
    }

    /// The tenant the order is bound to, if any.
    pub fn find_order_tenant(&self, order_id: OrderId) -> (r: Result<Option<TenantId>, DomainError>)
        ensures
            r matches Ok(found) && found == (if self.order_tenants().contains_key(order_id.0) {
                Some(self.order_tenants()[order_id.0])
            } else {
                None
            }),
    {
        Ok(bound_tenant(&self.order_tenants, order_id.0))
    }

    /// Binds the vehicle to the tenant, replacing an earlier binding.
    pub fn bind_vehicle(&mut self, tenant_id: TenantId, vehicle_id: VehicleId) -> (r: Result<
        (),
        DomainError,
    >)
        ensures
            r is Ok,
            final(self).vehicle_tenants() == old(self).vehicle_tenants().insert(vehicle_id.0, tenant_id),
    {
        bind(&mut self.vehicle_tenants, vehicle_id.0, tenant_id);
        Ok(())
    }

    /// The tenant the vehicle is bound to, if any.
    pub fn find_vehicle_tenant(&self, vehicle_id: VehicleId) -> (r: Result<Option<TenantId>, DomainError>)
        ensures
            r matches Ok(found) && found == (if self.vehicle_tenants().contains_key(vehicle_id.0) {
                Some(self.vehicle_tenants()[vehicle_id.0])
            } else {
                None
            }),
    {
        Ok(bound_tenant(&self.vehicle_tenants, vehicle_id.0))
    }
}


// ---------------------------------------------------------------------------
// Warehouse hubs
// ---------------------------------------------------------------------------

/// Warehouse hubs stored by id, and hub manifests in the order they were created.
pub struct InMemoryWarehouseHubRepository {
    hubs: Table<WarehouseHub>,
    manifests: Vec<HubManifestAssignment>,
}

impl View for InMemoryWarehouseHubRepository {
    type V = Map<u128, WarehouseHub>;

    closed spec fn view(&self) -> Map<u128, WarehouseHub> {
        self.hubs.contents()
    }
}

impl InMemoryWarehouseHubRepository {
    /// The created manifests, oldest first.
    pub closed spec fn manifests(&self) -> Seq<HubManifestAssignment> {
        self.manifests@
    }

    /// An empty repository.
    pub fn new() -> (r: Self)
        ensures
            r@ == Map::<u128, WarehouseHub>::empty(),
            r.manifests() == Seq::<HubManifestAssignment>::empty(),
    {
        InMemoryWarehouseHubRepository { hubs: Table::new(), manifests: Vec::new() }
    }

    /// Stores the hub under its id; one stored there before is replaced.
    pub fn create_hub(&mut self, hub: WarehouseHub) -> (r: Result<(), DomainError>)
        ensures
            r is Ok,
            final(self)@ == old(self)@.insert(hub.id, hub),
            final(self).manifests() == old(self).manifests(),
    {
        self.hubs.put(hub);
        Ok(())
    }

    /// The hub stored under `id`, if any.
    pub fn find_hub_by_id(&self, id: u128) -> (r: Result<Option<&WarehouseHub>, DomainError>)
        ensures
            r matches Ok(found) && looked_up(self@, id, found),
    {
        Ok(self.hubs.get(&id))
    }

    /// Stores the hub under its id, replacing the one stored there.
    pub fn update_hub(&mut self, hub: WarehouseHub) -> (r: Result<(), DomainError>)
        ensures
            r is Ok,
            final(self)@ == old(self)@.insert(hub.id, hub),
            final(self).manifests() == old(self).manifests(),
    {
        self.hubs.put(hub);
        Ok(())
    }

    /// Appends the manifest.
    pub fn create_manifest(&mut self, manifest: HubManifestAssignment) -> (r: Result<(), DomainError>)
        ensures
            r is Ok,
            final(self).manifests() == old(self).manifests().push(manifest),
            final(self)@ == old(self)@,
    {
        self.manifests.push(manifest);
        Ok(())
    }
}

// ---------------------------------------------------------------------------
// Cold-chain telemetry, field-service appointments, route breadcrumbs
// ---------------------------------------------------------------------------

/// Cold-chain readings in the order they were recorded.
pub struct InMemoryColdChainTelemetryRepository {
    store: Vec<ColdChainTelemetry>,
}

impl InMemoryColdChainTelemetryRepository {
    /// The recorded readings, oldest first.
    pub closed spec fn rows(&self) -> Seq<ColdChainTelemetry> {
        self.store@
    }

    /// An empty repository.
    pub fn new() -> (r: Self)
        ensures
            r.rows() == Seq::<ColdChainTelemetry>::empty(),
    {
        InMemoryColdChainTelemetryRepository { store: Vec::new() }
    }

    /// Appends the reading.
    pub fn create(&mut self, telemetry: ColdChainTelemetry) -> (r: Result<(), DomainError>)
        ensures
            r is Ok,
            final(self).rows() == old(self).rows().push(telemetry),
    {
        self.store.push(telemetry);
        Ok(())
    }
}

/// Field-service appointments in the order they were booked.
pub struct InMemoryFieldServiceAppointmentRepository {
    store: Vec<FieldServiceAppointment>,
}

/// Selects a tenant's appointments.
pub struct AppointmentsOf(pub TenantId);

impl Selector<FieldServiceAppointment> for AppointmentsOf {
    open spec fn selects(&self, item: FieldServiceAppointment) -> bool {
        item.tenant_id == self.0
    }

    fn test(&self, item: &FieldServiceAppointment) -> (b: bool) {
        item.tenant_id == self.0
    }
}

impl InMemoryFieldServiceAppointmentRepository {
    /// The booked appointments, oldest first.
    pub closed spec fn rows(&self) -> Seq<FieldServiceAppointment> {
        self.store@
    }

    /// An empty repository.
    pub fn new() -> (r: Self)
        ensures
            r.rows() == Seq::<FieldServiceAppointment>::empty(),
    {
        InMemoryFieldServiceAppointmentRepository { store: Vec::new() }
    }

    /// Appends the appointment.
    pub fn create(&mut self, appointment: FieldServiceAppointment) -> (r: Result<(), DomainError>)
        ensures
            r is Ok,
            final(self).rows() == old(self).rows().push(appointment),
    {
        self.store.push(appointment);
        Ok(())
    }

    /// The tenant's appointments, oldest first.
    pub fn list_for_tenant(&self, tenant_id: TenantId) -> (r: Result<
        Vec<&FieldServiceAppointment>,
        DomainError,
    >)
        ensures
            r matches Ok(list) && pointed(list@) == picked(self.rows(), AppointmentsOf(tenant_id)),
            r matches Ok(list) && forall|i: int|
                0 <= i < list@.len() ==> (#[trigger] list@[i]).tenant_id == tenant_id && self.rows().contains(*list@[i]),
            r matches Ok(list) && forall|i: int|
                0 <= i < self.rows().len() && (#[trigger] self.rows()[i]).tenant_id == tenant_id ==> pointed(list@).contains(self.rows()[i]),
    {
        let list = select_rows(&self.store, &AppointmentsOf(tenant_id));
        proof {
            law_picked_exactly(self.store@, AppointmentsOf(tenant_id));
            assert forall|i: int| 0 <= i < list@.len() implies pointed(list@)[i] == *list@[i] by {}
        }
        Ok(list)
    }
}

/// Route breadcrumbs in the order they were recorded.
pub struct InMemoryRouteBreadcrumbRepository {
    store: Vec<RouteBreadcrumb>,
}

impl InMemoryRouteBreadcrumbRepository {
    /// The recorded breadcrumbs, oldest first.
    pub closed spec fn rows(&self) -> Seq<RouteBreadcrumb> {
        self.store@
    }

    /// An empty repository.
    pub fn new() -> (r: Self)
        ensures
            r.rows() == Seq::<RouteBreadcrumb>::empty(),
    {
        InMemoryRouteBreadcrumbRepository { store: Vec::new() }
    }

    /// Appends the breadcrumb.
    pub fn create(&mut self, breadcrumb: RouteBreadcrumb) -> (r: Result<(), DomainError>)
        ensures
            r is Ok,
            final(self).rows() == old(self).rows().push(breadcrumb),
    {
        self.store.push(breadcrumb);
        Ok(())
    }
}

// ---------------------------------------------------------------------------
// The store
// ---------------------------------------------------------------------------

/// Every in-memory repository, each starting empty.
pub struct InMemoryStore {
    pub orders: InMemoryOrderRepository,
    pub couriers: InMemoryCourierRepository,
    pub assignments: InMemoryAssignmentRepository,
    pub tracking: InMemoryTrackingRepository,
    pub vehicles: InMemoryVehicleRepository,
    pub invoices: InMemoryInvoiceRepository,
    pub payouts: InMemoryPayoutRepository,
    pub notifications: InMemoryNotificationRepository,
    pub proofs_of_delivery: InMemoryProofOfDeliveryRepository,
    pub webhooks: InMemoryWebhookRepository,
    pub otp_challenges: InMemoryOtpChallengeRepository,
    pub courier_wallets: InMemoryCourierWalletRepository,
    pub customer_ratings: InMemoryCustomerRatingRepository,
    pub support_tickets: InMemorySupportTicketRepository,
    pub coupons: InMemoryCouponRepository,
    pub device_push_tokens: InMemoryDevicePushTokenRepository,
    pub delivery_pricing: InMemoryDeliveryPricingRepository,
    pub users: InMemoryUserRepository,
    pub customers: InMemoryCustomerRepository,
    pub tenants: InMemoryTenantRepository,
    pub warehouse_hubs: InMemoryWarehouseHubRepository,
    pub cold_chain_telemetry: InMemoryColdChainTelemetryRepository,
    pub field_service_appointments: InMemoryFieldServiceAppointmentRepository,
    pub route_breadcrumbs: InMemoryRouteBreadcrumbRepository,
}

impl InMemoryStore {
    /// A store whose repositories are all empty.
    pub fn new() -> (s: Self)
        ensures
            s.orders@ == Map::<OrderId, Order>::empty(),
            s.couriers@ == Map::<u128, Courier>::empty(),
            s.assignments@ == Map::<OrderId, Assignment>::empty(),
            s.tracking@ == Map::<u128, TrackingSession>::empty(),
            s.tracking.points() == Seq::<TrackingPoint>::empty(),
            s.vehicles@ == Map::<VehicleId, Vehicle>::empty(),
            s.invoices@ == Map::<InvoiceId, Invoice>::empty(),
            s.payouts.rows() == Seq::<CourierPayout>::empty(),
            s.notifications@ == Map::<NotificationId, Notification>::empty(),
            s.proofs_of_delivery@ == Map::<u128, ProofOfDeliveryRecord>::empty(),
            s.webhooks@ == Map::<u128, WebhookSubscription>::empty(),
            s.otp_challenges@ == Map::<u128, OtpChallenge>::empty(),
            s.courier_wallets@ == Map::<u128, CourierWallet>::empty(),
            s.customer_ratings@ == Map::<u128, CustomerRating>::empty(),
            s.support_tickets@ == Map::<u128, SupportTicket>::empty(),
            s.coupons@ == Map::<u128, Coupon>::empty(),
            s.device_push_tokens@ == Map::<u128, DevicePushToken>::empty(),
            s.delivery_pricing@ == Map::<TenantId, DeliveryPricing>::empty(),
            s.users@ == Map::<UserId, User>::empty(),
            s.customers@ == Map::<CustomerId, CustomerProfile>::empty(),
            s.tenants.companies() == Map::<Seq<char>, TenantCompany>::empty(),
            s.tenants.members() == Map::<(TenantId, UserId), TenantMembership>::empty(),
            s.warehouse_hubs@ == Map::<u128, WarehouseHub>::empty(),
            s.warehouse_hubs.manifests() == Seq::<HubManifestAssignment>::empty(),
            s.cold_chain_telemetry.rows() == Seq::<ColdChainTelemetry>::empty(),
            s.field_service_appointments.rows() == Seq::<FieldServiceAppointment>::empty(),
            s.route_breadcrumbs.rows() == Seq::<RouteBreadcrumb>::empty(),
    {
        InMemoryStore {
            orders: InMemoryOrderRepository::new(),
            couriers: InMemoryCourierRepository::new(),
            assignments: InMemoryAssignmentRepository::new(),
            tracking: InMemoryTrackingRepository::new(),
            vehicles: InMemoryVehicleRepository::new(),
            invoices: InMemoryInvoiceRepository::new(),
            payouts: InMemoryPayoutRepository::new(),
            notifications: InMemoryNotificationRepository::new(),
            proofs_of_delivery: InMemoryProofOfDeliveryRepository::new(),
            webhooks: InMemoryWebhookRepository::new(),
            otp_challenges: InMemoryOtpChallengeRepository::new(),
            courier_wallets: InMemoryCourierWalletRepository::new(),
            customer_ratings: InMemoryCustomerRatingRepository::new(),
            support_tickets: InMemorySupportTicketRepository::new(),
            coupons: InMemoryCouponRepository::new(),
            device_push_tokens: InMemoryDevicePushTokenRepository::new(),
            delivery_pricing: InMemoryDeliveryPricingRepository::new(),
            users: InMemoryUserRepository::new(),
            customers: InMemoryCustomerRepository::new(),
            tenants: InMemoryTenantRepository::new(),
            warehouse_hubs: InMemoryWarehouseHubRepository::new(),
            cold_chain_telemetry: InMemoryColdChainTelemetryRepository::new(),
            field_service_appointments: InMemoryFieldServiceAppointmentRepository::new(),
            route_breadcrumbs: InMemoryRouteBreadcrumbRepository::new(),
        }
    }

    /// The store's orders repository, to read and change in place.
    pub fn order_repository(&mut self) -> (r: &mut InMemoryOrderRepository)
        ensures
            *r == old(self).orders,
            *final(self) == (InMemoryStore { orders: *final(r), ..*old(self) }),
    {
        &mut self.orders
    }

    /// The store's couriers repository, to read and change in place.
    pub fn courier_repository(&mut self) -> (r: &mut InMemoryCourierRepository)
        ensures
            *r == old(self).couriers,
            *final(self) == (InMemoryStore { couriers: *final(r), ..*old(self) }),
    {
        &mut self.couriers
    }

    /// The store's assignments repository, to read and change in place.
    pub fn assignment_repository(&mut self) -> (r: &mut InMemoryAssignmentRepository)
        ensures
            *r == old(self).assignments,
            *final(self) == (InMemoryStore { assignments: *final(r), ..*old(self) }),
    {
        &mut self.assignments
    }

    /// The store's tracking repository, to read and change in place.
    pub fn tracking_repository(&mut self) -> (r: &mut InMemoryTrackingRepository)
        ensures
            *r == old(self).tracking,
            *final(self) == (InMemoryStore { tracking: *final(r), ..*old(self) }),
    {
        &mut self.tracking
    }

    /// The store's vehicles repository, to read and change in place.
    pub fn vehicle_repository(&mut self) -> (r: &mut InMemoryVehicleRepository)
        ensures
            *r == old(self).vehicles,
            *final(self) == (InMemoryStore { vehicles: *final(r), ..*old(self) }),
    {
        &mut self.vehicles
    }

    /// The store's invoices repository, to read and change in place.
    pub fn invoice_repository(&mut self) -> (r: &mut InMemoryInvoiceRepository)
        ensures
            *r == old(self).invoices,
            *final(self) == (InMemoryStore { invoices: *final(r), ..*old(self) }),
    {
        &mut self.invoices
    }

    /// The store's payouts repository, to read and change in place.
    pub fn payout_repository(&mut self) -> (r: &mut InMemoryPayoutRepository)
        ensures
            *r == old(self).payouts,
            *final(self) == (InMemoryStore { payouts: *final(r), ..*old(self) }),
    {
        &mut self.payouts
    }

    /// The store's notifications repository, to read and change in place.
    pub fn notification_repository(&mut self) -> (r: &mut InMemoryNotificationRepository)
        ensures
            *r == old(self).notifications,
            *final(self) == (InMemoryStore { notifications: *final(r), ..*old(self) }),
    {
        &mut self.notifications
    }

    /// The store's proofs of delivery repository, to read and change in place.
    pub fn proof_of_delivery_repository(&mut self) -> (r: &mut InMemoryProofOfDeliveryRepository)
        ensures
            *r == old(self).proofs_of_delivery,
            *final(self) == (InMemoryStore { proofs_of_delivery: *final(r), ..*old(self) }),
    {
        &mut self.proofs_of_delivery
    }

    /// The store's webhooks repository, to read and change in place.
    pub fn webhook_repository(&mut self) -> (r: &mut InMemoryWebhookRepository)
        ensures
            *r == old(self).webhooks,
            *final(self) == (InMemoryStore { webhooks: *final(r), ..*old(self) }),
    {
        &mut self.webhooks
    }

    /// The store's otp challenges repository, to read and change in place.
    pub fn otp_challenge_repository(&mut self) -> (r: &mut InMemoryOtpChallengeRepository)
        ensures
            *r == old(self).otp_challenges,
            *final(self) == (InMemoryStore { otp_challenges: *final(r), ..*old(self) }),
    {
        &mut self.otp_challenges
    }

    /// The store's courier wallets repository, to read and change in place.
    pub fn courier_wallet_repository(&mut self) -> (r: &mut InMemoryCourierWalletRepository)
        ensures
            *r == old(self).courier_wallets,
            *final(self) == (InMemoryStore { courier_wallets: *final(r), ..*old(self) }),
    {
        &mut self.courier_wallets
    }

    /// The store's customer ratings repository, to read and change in place.
    pub fn customer_rating_repository(&mut self) -> (r: &mut InMemoryCustomerRatingRepository)
        ensures
            *r == old(self).customer_ratings,
            *final(self) == (InMemoryStore { customer_ratings: *final(r), ..*old(self) }),
    {
        &mut self.customer_ratings
    }

    /// The store's support tickets repository, to read and change in place.
    pub fn support_ticket_repository(&mut self) -> (r: &mut InMemorySupportTicketRepository)
        ensures
            *r == old(self).support_tickets,
            *final(self) == (InMemoryStore { support_tickets: *final(r), ..*old(self) }),
    {
        &mut self.support_tickets
    }

    /// The store's coupons repository, to read and change in place.
    pub fn coupon_repository(&mut self) -> (r: &mut InMemoryCouponRepository)
        ensures
            *r == old(self).coupons,
            *final(self) == (InMemoryStore { coupons: *final(r), ..*old(self) }),
    {
        &mut self.coupons
    }

    /// The store's device push tokens repository, to read and change in place.
    pub fn device_push_token_repository(&mut self) -> (r: &mut InMemoryDevicePushTokenRepository)
        ensures
            *r == old(self).device_push_tokens,
            *final(self) == (InMemoryStore { device_push_tokens: *final(r), ..*old(self) }),
    {
        &mut self.device_push_tokens
    }

    /// The store's delivery pricing repository, to read and change in place.
    pub fn delivery_pricing_repository(&mut self) -> (r: &mut InMemoryDeliveryPricingRepository)
        ensures
            *r == old(self).delivery_pricing,
            *final(self) == (InMemoryStore { delivery_pricing: *final(r), ..*old(self) }),
    {
        &mut self.delivery_pricing
    }

    /// The store's users repository, to read and change in place.
    pub fn user_repository(&mut self) -> (r: &mut InMemoryUserRepository)
        ensures
            *r == old(self).users,
            *final(self) == (InMemoryStore { users: *final(r), ..*old(self) }),
    {
        &mut self.users
    }

    /// The store's customers repository, to read and change in place.
    pub fn customer_repository(&mut self) -> (r: &mut InMemoryCustomerRepository)
        ensures
            *r == old(self).customers,
            *final(self) == (InMemoryStore { customers: *final(r), ..*old(self) }),
    {
        &mut self.customers
    }

    /// The store's tenants repository, to read and change in place.
    pub fn tenant_repository(&mut self) -> (r: &mut InMemoryTenantRepository)
        ensures
            *r == old(self).tenants,
            *final(self) == (InMemoryStore { tenants: *final(r), ..*old(self) }),
    {
        &mut self.tenants
    }

    /// The store's warehouse hubs repository, to read and change in place.
    pub fn warehouse_hub_repository(&mut self) -> (r: &mut InMemoryWarehouseHubRepository)
        ensures
            *r == old(self).warehouse_hubs,
            *final(self) == (InMemoryStore { warehouse_hubs: *final(r), ..*old(self) }),
    {
        &mut self.warehouse_hubs
    }

    /// The store's cold chain telemetry repository, to read and change in place.
    pub fn cold_chain_telemetry_repository(&mut self) -> (r: &mut InMemoryColdChainTelemetryRepository)
        ensures
            *r == old(self).cold_chain_telemetry,
            *final(self) == (InMemoryStore { cold_chain_telemetry: *final(r), ..*old(self) }),
    {
        &mut self.cold_chain_telemetry
    }

    /// The store's field service appointments repository, to read and change in place.
    pub fn field_service_appointment_repository(&mut self) -> (r: &mut InMemoryFieldServiceAppointmentRepository)
        ensures
            *r == old(self).field_service_appointments,
            *final(self) == (InMemoryStore { field_service_appointments: *final(r), ..*old(self) }),
    {
        &mut self.field_service_appointments
    }

    /// The store's route breadcrumbs repository, to read and change in place.
    pub fn route_breadcrumb_repository(&mut self) -> (r: &mut InMemoryRouteBreadcrumbRepository)
        ensures
            *r == old(self).route_breadcrumbs,
            *final(self) == (InMemoryStore { route_breadcrumbs: *final(r), ..*old(self) }),
    {
        &mut self.route_breadcrumbs
    }
}

} // verus!
