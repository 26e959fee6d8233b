use chrono::Utc;
use qervon::billing::{Invoice, InvoiceId, InvoiceStatus};
use qervon::coupon::Coupon;
use qervon::courier::{Courier, VehicleType};
use qervon::courier_wallet::CourierWallet;
use qervon::customer::{CustomerId, CustomerProfile};
use qervon::customer_feedback::CustomerRating;
use qervon::dispatch::{Assignment, AssignmentStatus};
use qervon::error::DomainError;
use qervon::field_service::{FieldServiceScheduler, TimeSlotWindow};
use qervon::fleet::{Vehicle, VehicleId};
use qervon::location::Location;
use qervon::memory::InMemoryStore;
use qervon::money::Money;
use qervon::notification::{Notification, NotificationChannel, NotificationId, NotificationStatus};
use qervon::order::{Address, Order, OrderId, OrderStatus};
use qervon::otp_challenge::OtpChallenge;
use qervon::proof_of_delivery::ProofOfDeliveryRecord;
use qervon::tenant::{TenantCompany, TenantId, TenantMemberRole, TenantMembership};
use qervon::tracking::{TrackingSession, TrackingSessionStatus};
use qervon::user::{User, UserId, UserRole};
use qervon::warehouse_hub::WarehouseHub;
use qervon::webhook::WebhookSubscription;
use uuid::Uuid;

fn now() -> i64 {
    Utc::now().timestamp_micros()
}

fn fresh_uuid() -> u128 {
    Uuid::now_v7().as_u128()
}

fn location(latitude: f64, longitude: f64) -> Location {
    Location::new(latitude.to_bits(), longitude.to_bits()).unwrap()
}

fn sample_courier(id: u128) -> Courier {
    Courier::create(id, "Test Courier", VehicleType::Car, now()).expect("courier")
}

fn sample_order(id: OrderId) -> Order {
    Order::create(
        id,
        fresh_uuid(),
        Address {
            location: location(41.0, 29.0),
            label: Some("pickup".into()),
        },
        Address {
            location: location(41.1, 29.1),
            label: Some("dropoff".into()),
        },
        Money::new(1_000, "TRY").unwrap(),
        now(),
        None,
        None,
    )
    .expect("order")
}

#[test]
fn memory_orders_round_trip() {
    let mut store = InMemoryStore::new();
    let repo = store.order_repository();
    let order = sample_order(OrderId::new());

    repo.create(order.clone()).expect("create");
    let found = repo.find_by_id(order.id).expect("find");
    assert_eq!(found, Some(&order));
}

#[test]
fn memory_couriers_list_only_available() {
    let mut store = InMemoryStore::new();
    let repo = store.courier_repository();
    let mut busy = sample_courier(fresh_uuid());
    busy.go_busy().expect("go busy");

    repo.create(sample_courier(fresh_uuid())).expect("create");
    repo.create(busy).expect("create");

    let available = repo.list_available().expect("list");
    assert_eq!(available.len(), 1);
}

#[test]
fn memory_assignments_are_keyed_by_order() {
    let mut store = InMemoryStore::new();
    let repo = store.assignment_repository();
    let assignment = Assignment::new(OrderId::new(), fresh_uuid(), now()).unwrap();

    repo.create(assignment.clone()).expect("create");
    let found = repo.find_by_order(assignment.order_id).expect("find");
    assert_eq!(found, Some(&assignment));
    assert_eq!(found.unwrap().status, AssignmentStatus::Assigned);
}

#[test]
fn memory_sample_order_starts_pending() {
    assert_eq!(sample_order(OrderId::new()).status, OrderStatus::Pending);
}

#[test]
fn tracking_session_round_trip() {
    let mut store = InMemoryStore::new();
    let repo = store.tracking_repository();
    let courier_id = fresh_uuid();
    let session = TrackingSession::start(courier_id, now()).unwrap();

    repo.create_session(session).expect("create");
    let found = repo
        .find_active_session_for_courier(courier_id)
        .expect("find");
    assert!(found.is_some());
    assert_eq!(found.unwrap().status, TrackingSessionStatus::Active);
}

#[test]
fn vehicle_find_by_plate() {
    let mut store = InMemoryStore::new();
    let repo = store.vehicle_repository();
    let vehicle = Vehicle::register(
        VehicleId::new(),
        "34 XY 456",
        VehicleType::Motorcycle,
        None,
        now(),
    )
    .unwrap();

    repo.create(vehicle).expect("create");
    let found = repo.find_by_plate("34 XY 456").expect("find");
    assert!(found.is_some());
    assert_eq!(found.unwrap().plate_number, "34 XY 456");
}

#[test]
fn invoice_round_trip() {
    let mut store = InMemoryStore::new();
    let repo = store.invoice_repository();
    let invoice = Invoice::create(
        InvoiceId::new(),
        OrderId::new(),
        fresh_uuid(),
        Money::new(5_000, "TRY").unwrap(),
        now(),
    )
    .unwrap();

    let id = invoice.id;
    repo.create(invoice).expect("create");
    let found = repo.find_by_id(id).expect("find");
    assert_eq!(found.unwrap().status, InvoiceStatus::Draft);
}

#[test]
fn notification_list_for_recipient() {
    let mut store = InMemoryStore::new();
    let repo = store.notification_repository();
    let recipient = fresh_uuid();
    let n1 = Notification::create(
        NotificationId::new(),
        recipient,
        NotificationChannel::Push,
        "Title 1",
        "Body 1",
        now(),
    )
    .unwrap();
    let n2 = Notification::create(
        NotificationId::new(),
        recipient,
        NotificationChannel::Sms,
        "Title 2",
        "Body 2",
        now(),
    )
    .unwrap();
    let other = Notification::create(
        NotificationId::new(),
        fresh_uuid(), // different recipient
        NotificationChannel::Email,
        "Other",
        "Other body",
        now(),
    )
    .unwrap();

    repo.create(n1).unwrap();
    repo.create(n2).unwrap();
    repo.create(other).unwrap();

    let list = repo.list_for_recipient(recipient).expect("list");
    assert_eq!(list.len(), 2);
    assert!(list.iter().all(|n| n.status == NotificationStatus::Queued));
}

#[test]
fn proof_of_delivery_is_saved_once_per_order() {
    let mut store = InMemoryStore::new();
    let repo = store.proof_of_delivery_repository();
    let order_id = fresh_uuid();
    let proof = ProofOfDeliveryRecord::new(order_id, fresh_uuid(), "Teslim Alan", true, None, None)
        .expect("valid proof");

    repo.create(proof.clone()).expect("create proof");
    let found = repo.find_by_order(OrderId(order_id)).expect("find proof");
    assert_eq!(found.map(|record| record.id), Some(proof.id));
    assert!(repo.create(proof).is_err());
}

#[test]
fn user_repository_round_trip() {
    let mut store = InMemoryStore::new();
    let repo = store.user_repository();
    let user = User::create(
        UserId::new(),
        "user@qervon.com",
        "User Name",
        UserRole::Customer,
        now(),
    )
    .unwrap();

    repo.create(user.clone()).expect("create");
    let found_id = repo.find_by_id(user.id).expect("find by id");
    assert_eq!(found_id, Some(&user));

    let found_email = repo.find_by_email("USER@qervon.com").expect("find by email");
    assert_eq!(found_email, Some(&user));
}

#[test]
fn customer_repository_round_trip() {
    let mut store = InMemoryStore::new();
    let repo = store.customer_repository();
    let user_id = UserId::new();
    let profile = CustomerProfile::create(CustomerId::new(), user_id, now());

    repo.create(profile.clone()).expect("create");
    let found_id = repo.find_by_id(profile.id).expect("find by id");
    assert_eq!(found_id, Some(&profile));

    let found_user = repo.find_by_user(user_id).expect("find by user");
    assert_eq!(found_user, Some(&profile));
}

// ---- further cases ----

#[test]
fn update_replaces_the_stored_record() {
    let mut store = InMemoryStore::new();
    let repo = store.order_repository();
    let mut order = sample_order(OrderId::new());
    repo.create(order.clone()).unwrap();
    order.cancel().unwrap();
    repo.update(order.clone()).unwrap();
    let found = repo.find_by_id(order.id).unwrap().unwrap();
    assert_eq!(found.status, OrderStatus::Cancelled);
    assert_eq!(repo.list_all().unwrap().len(), 1);
}

#[test]
fn missing_records_are_not_found() {
    let mut store = InMemoryStore::new();
    assert_eq!(store.order_repository().find_by_id(OrderId::new()).unwrap(), None);
    assert!(store.user_repository().find_by_email("nobody@qervon.com").unwrap().is_none());
    assert!(store.user_repository().find_by_phone("+905550000000").unwrap().is_none());
}

#[test]
fn email_lookup_ignores_only_ascii_case() {
    let mut store = InMemoryStore::new();
    let repo = store.user_repository();
    let user = User::create(UserId::new(), "ada@qervon.com", "Ada", UserRole::Customer, now()).unwrap();
    repo.create(user).unwrap();
    assert!(repo.find_by_email("ADA@QERVON.COM").unwrap().is_some());
    assert!(repo.find_by_email("ada@qervon.co").unwrap().is_none());
}

#[test]
fn couriers_are_listed_by_registration_time() {
    let mut store = InMemoryStore::new();
    let repo = store.courier_repository();
    let late = Courier::create(fresh_uuid(), "Late", VehicleType::Bicycle, 2_000).unwrap();
    let early = Courier::create(fresh_uuid(), "Early", VehicleType::Car, 1_000).unwrap();
    repo.create(late).unwrap();
    repo.create(early).unwrap();
    let names: Vec<&str> = repo
        .list_all()
        .unwrap()
        .iter()
        .map(|c| c.name.as_str())
        .collect();
    assert_eq!(names, vec!["Early", "Late"]);
}

#[test]
fn pending_offer_is_found_for_its_courier_only() {
    let mut store = InMemoryStore::new();
    let repo = store.assignment_repository();
    let courier = fresh_uuid();
    let offer = Assignment::offer(OrderId::new(), courier, now()).unwrap();
    repo.create(offer.clone()).unwrap();
    assert_eq!(repo.find_pending_offer_for_courier(courier).unwrap(), Some(&offer));
    assert!(repo.find_pending_offer_for_courier(fresh_uuid()).unwrap().is_none());
}

#[test]
fn tracking_points_are_kept_in_order() {
    let mut store = InMemoryStore::new();
    let repo = store.tracking_repository();
    let courier_id = fresh_uuid();
    let session = TrackingSession::start(courier_id, now()).unwrap();
    let id = session.id;
    repo.create_session(session).unwrap();
    let mut ended = repo.find_session(id).unwrap().unwrap().clone();
    ended.end(now()).unwrap();
    repo.update_session(ended).unwrap();
    assert!(repo.find_active_session_for_courier(courier_id).unwrap().is_none());
}

#[test]
fn wallet_is_created_once_per_courier() {
    let mut store = InMemoryStore::new();
    let repo = store.courier_wallet_repository();
    let courier = fresh_uuid();
    let wallet = CourierWallet::new(courier, "TRY");
    repo.create(wallet.clone()).unwrap();
    assert_eq!(
        repo.create(wallet).unwrap_err(),
        DomainError::AlreadyExists("courier already has a wallet".to_string())
    );
    assert!(repo.find_by_courier(courier).unwrap().is_some());
}

#[test]
fn an_order_is_rated_once() {
    let mut store = InMemoryStore::new();
    let repo = store.customer_rating_repository();
    let order = fresh_uuid();
    let courier = fresh_uuid();
    let first = CustomerRating::new(order, fresh_uuid(), courier, 5, None).unwrap();
    let second = CustomerRating::new(order, fresh_uuid(), courier, 3, None).unwrap();
    repo.create(first).unwrap();
    assert_eq!(
        repo.create(second).unwrap_err(),
        DomainError::AlreadyExists("order already has a rating".to_string())
    );
    assert_eq!(repo.list_for_courier(courier).unwrap().len(), 1);
    assert_eq!(repo.find_by_order(order).unwrap().unwrap().rating_stars, 5);
}

#[test]
fn coupon_codes_are_unique_per_tenant() {
    let mut store = InMemoryStore::new();
    let repo = store.coupon_repository();
    let tenant = TenantId::new();
    let t0 = now();
    let valid_until = t0 + 86_400_000_000;
    let first = Coupon::create(tenant, "save10", 10.0f64.to_bits(), 1_000, valid_until, 5, t0).unwrap();
    let again = Coupon::create(tenant, "SAVE10", 20.0f64.to_bits(), 1_000, valid_until, 5, t0).unwrap();
    let elsewhere =
        Coupon::create(TenantId::new(), "SAVE10", 10.0f64.to_bits(), 1_000, valid_until, 5, t0)
            .unwrap();
    repo.create(first).unwrap();
    assert_eq!(
        repo.create(again).unwrap_err(),
        DomainError::AlreadyExists(
            "a coupon with this code already exists for this tenant".to_string()
        )
    );
    repo.create(elsewhere).unwrap();
    assert!(repo.find_by_code(tenant, "SAVE10").unwrap().is_some());
    assert_eq!(repo.list_for_tenant(tenant).unwrap().len(), 1);
}

#[test]
fn latest_open_challenge_is_found() {
    let mut store = InMemoryStore::new();
    let repo = store.otp_challenge_repository();
    let tenant = TenantId::new();
    let t0 = now();
    let older = OtpChallenge::issue(tenant, "+905551112233", "hash-1", t0, 300_000_000).unwrap();
    let newer = OtpChallenge::issue(tenant, "+905551112233", "hash-2", t0 + 1, 300_000_000).unwrap();
    repo.create(older).unwrap();
    repo.create(newer.clone()).unwrap();
    let found = repo
        .find_latest_active(tenant, "+905551112233", t0 + 2)
        .unwrap()
        .unwrap();
    assert_eq!(found.id, newer.id);
    assert!(repo
        .find_latest_active(tenant, "+905551112233", t0 + 400_000_000)
        .unwrap()
        .is_none());
}

#[test]
fn tenant_slugs_and_memberships_are_unique() {
    let mut store = InMemoryStore::new();
    let repo = store.tenant_repository();
    assert!(!repo.has_any_tenant().unwrap());
    let company = TenantCompany {
        id: TenantId::new(),
        company_name: "Qervon Test Ltd.".to_string(),
        category: "pharmacy".to_string(),
        created_at: now(),
    };
    let tenant_id = company.id;
    repo.create_tenant(company.clone(), "qervon-test").unwrap();
    assert!(repo.has_any_tenant().unwrap());
    assert_eq!(
        repo.create_tenant(company, "qervon-test").unwrap_err(),
        DomainError::AlreadyExists("tenant slug already exists".to_string())
    );
    assert_eq!(repo.find_by_slug("qervon-test").unwrap().unwrap().id, tenant_id);
    assert!(repo.find_by_slug("other").unwrap().is_none());

    let user = UserId::new();
    let membership = TenantMembership {
        tenant_id,
        user_id: user,
        role: TenantMemberRole::Owner,
        joined_at: now(),
    };
    repo.add_member(membership.clone()).unwrap();
    assert_eq!(
        repo.add_member(membership).unwrap_err(),
        DomainError::AlreadyExists("tenant membership already exists".to_string())
    );
    assert!(repo.find_membership(tenant_id, user).unwrap().is_some());

    let courier = fresh_uuid();
    assert_eq!(repo.find_courier_tenant(courier).unwrap(), None);
    repo.bind_courier(tenant_id, courier).unwrap();
    assert_eq!(repo.find_courier_tenant(courier).unwrap(), Some(tenant_id));
    let order = OrderId::new();
    repo.bind_order(tenant_id, order).unwrap();
    assert_eq!(repo.find_order_tenant(order).unwrap(), Some(tenant_id));
    let vehicle = VehicleId::new();
    repo.bind_vehicle(tenant_id, vehicle).unwrap();
    assert_eq!(repo.find_vehicle_tenant(vehicle).unwrap(), Some(tenant_id));
}

#[test]
fn webhook_delete_checks_the_tenant() {
    let mut store = InMemoryStore::new();
    let repo = store.webhook_repository();
    let tenant = TenantId::new();
    let subscription = WebhookSubscription::create(
        tenant,
        "https://hooks.qervon.test/orders".to_string(),
        vec!["order.created".to_string()],
        "a".repeat(64),
    )
    .unwrap();
    let id = subscription.id;
    repo.create(subscription).unwrap();
    assert_eq!(repo.list_for_tenant(tenant).unwrap().len(), 1);
    assert_eq!(
        repo.delete(TenantId::new(), id).unwrap_err(),
        DomainError::NotFound("webhook subscription not found".to_string())
    );
    repo.delete(tenant, id).unwrap();
    assert!(repo.list_for_tenant(tenant).unwrap().is_empty());
}

#[test]
fn hubs_round_trip_and_manifests_are_recorded() {
    let mut store = InMemoryStore::new();
    let repo = store.warehouse_hub_repository();
    let mut hub = WarehouseHub::new("IST-01", "Istanbul Cross-Dock", location(41.0, 29.0), 100);
    hub.receive_parcels(3).unwrap();
    let id = hub.id;
    repo.create_hub(hub.clone()).unwrap();
    assert_eq!(repo.find_hub_by_id(id).unwrap().unwrap().active_parcels, 3);
    let manifest = hub.dispatch_manifest(fresh_uuid(), vec![fresh_uuid(), fresh_uuid()]).unwrap();
    repo.update_hub(hub).unwrap();
    repo.create_manifest(manifest).unwrap();
    assert_eq!(repo.find_hub_by_id(id).unwrap().unwrap().active_parcels, 1);
    assert!(repo.find_hub_by_id(fresh_uuid()).unwrap().is_none());
}

#[test]
fn appointments_are_listed_per_tenant() {
    let mut store = InMemoryStore::new();
    let repo = store.field_service_appointment_repository();
    let tenant = TenantId::new();
    let mine = FieldServiceScheduler::schedule_appointment(
        tenant,
        fresh_uuid(),
        "installation",
        "2026-08-10",
        TimeSlotWindow::Morning,
    );
    let other = FieldServiceScheduler::schedule_appointment(
        TenantId::new(),
        fresh_uuid(),
        "repair",
        "2026-08-11",
        TimeSlotWindow::Evening,
    );
    repo.create(mine).unwrap();
    repo.create(other).unwrap();
    let list = repo.list_for_tenant(tenant).unwrap();
    assert_eq!(list.len(), 1);
    assert_eq!(list[0].service_type, "installation");
}
