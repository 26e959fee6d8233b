use chrono::{Datelike, Duration, NaiveDate, Utc};
use qervon::cold_chain::ColdChainTelemetry;
use qervon::coupon::Coupon;
use qervon::courier::VehicleType;
use qervon::courier_shift::{CourierShiftAssignment, ShiftType};
use qervon::courier_wallet::CourierWallet;
use qervon::delivery_pricing::{
    DeliveryPricing, DEFAULT_BASE_FARE_MINOR, DEFAULT_CURRENCY, DEFAULT_MINIMUM_FARE_MINOR,
    DEFAULT_PER_KM_RATE_MINOR,
};
use qervon::device_push_token::{AppVariant, DevicePushToken, PushPlatform};
use qervon::error::DomainError;
use qervon::field_service::{FieldServiceScheduler, TimeSlotWindow};
use qervon::fleet::{Vehicle, VehicleId, VehicleStatus};
use qervon::location::Location;
use qervon::notification::{Notification, NotificationChannel, NotificationId, NotificationStatus};
use qervon::otp_challenge::OtpChallenge;
use qervon::proof_of_delivery::ProofOfDeliveryRecord;
use qervon::tenant::{BranchId, TenantBranch, TenantCompany, TenantId, TenantMemberRole};
use qervon::tracking::{TrackingPoint, TrackingSession, TrackingSessionStatus};
use qervon::user::{User, UserId, UserRole, UserStatus};
use qervon::warehouse_hub::WarehouseHub;
use qervon::webhook::WebhookSubscription;
use uuid::Uuid;

fn now() -> i64 {
    Utc::now().timestamp_micros()
}

fn micros(d: Duration) -> i64 {
    d.num_microseconds().unwrap()
}

fn fresh_uuid() -> u128 {
    Uuid::now_v7().as_u128()
}

fn loc(lat: f64, lon: f64) -> Location {
    Location::new(lat.to_bits(), lon.to_bits()).unwrap()
}

fn day(y: i32, m: u32, d: u32) -> i32 {
    NaiveDate::from_ymd_opt(y, m, d).unwrap().num_days_from_ce()
}

// ---- delivery pricing ----

#[test]
fn rejects_negative_amounts() {
    let now = now();
    assert!(DeliveryPricing::new(TenantId::new(), -1, 250, 1_500, "TRY", now).is_err());
    assert!(DeliveryPricing::new(TenantId::new(), 1_000, -1, 1_500, "TRY", now).is_err());
    assert!(DeliveryPricing::new(TenantId::new(), 1_000, 250, -1, "TRY", now).is_err());
}

#[test]
fn delivery_pricing_rejects_malformed_currency() {
    let now = now();
    assert!(DeliveryPricing::new(TenantId::new(), 1_000, 250, 1_500, "try", now).is_err());
}

#[test]
fn default_pricing_uses_the_defaults() {
    let t = TenantId::new();
    let p = DeliveryPricing::default_for_tenant(t, 42);
    assert_eq!(p.tenant_id, t);
    assert_eq!(p.base_fare_minor, DEFAULT_BASE_FARE_MINOR);
    assert_eq!(p.per_km_rate_minor, DEFAULT_PER_KM_RATE_MINOR);
    assert_eq!(p.minimum_fare_minor, DEFAULT_MINIMUM_FARE_MINOR);
    assert_eq!(p.currency, DEFAULT_CURRENCY);
    assert_eq!((p.base_fare_minor, p.per_km_rate_minor, p.minimum_fare_minor), (1_000, 250, 1_500));
    assert_eq!(p.updated_at, 42);
}

#[test]
fn custom_pricing_keeps_its_values() {
    let p = DeliveryPricing::new(TenantId::new(), 2_000, 500, 3_000, "USD", 7).unwrap();
    assert_eq!((p.base_fare_minor, p.per_km_rate_minor, p.minimum_fare_minor), (2_000, 500, 3_000));
    assert_eq!(p.currency, "USD");
    assert_eq!(
        DeliveryPricing::new(TenantId::new(), -1, 0, 0, "usd", 7).unwrap_err(),
        DomainError::Validation("pricing amounts cannot be negative".into())
    );
}

// ---- push tokens ----

#[test]
fn platform_string_round_trip() {
    for variant in [PushPlatform::Ios, PushPlatform::Android] {
        assert_eq!(variant.as_str().parse::<PushPlatform>(), Ok(variant));
    }
}

#[test]
fn app_variant_string_round_trip() {
    for variant in [AppVariant::Courier, AppVariant::Customer] {
        assert_eq!(variant.as_str().parse::<AppVariant>(), Ok(variant));
    }
}

#[test]
fn rejects_blank_device_token() {
    let err = DevicePushToken::register(UserId::new(), PushPlatform::Ios, AppVariant::Courier, "  ", now())
        .unwrap_err();
    assert!(matches!(err, DomainError::Validation(_)));
}

#[test]
fn registers_a_valid_token() {
    let token =
        DevicePushToken::register(UserId::new(), PushPlatform::Android, AppVariant::Customer, "abc123", now())
            .expect("valid token");
    assert_eq!(token.device_token, "abc123");
    assert_eq!(token.platform, PushPlatform::Android);
    assert_eq!(token.app_variant, AppVariant::Customer);
}

#[test]
fn device_token_length_limit_is_in_bytes() {
    let max = "a".repeat(4_096);
    assert!(DevicePushToken::register(UserId::new(), PushPlatform::Ios, AppVariant::Courier, &max, 0).is_ok());
    let too_long = "a".repeat(4_097);
    assert_eq!(
        DevicePushToken::register(UserId::new(), PushPlatform::Ios, AppVariant::Courier, &too_long, 0)
            .unwrap_err(),
        DomainError::Validation("device token is too long".into())
    );
    let multibyte = "ş".repeat(2_049);
    assert!(DevicePushToken::register(UserId::new(), PushPlatform::Ios, AppVariant::Courier, &multibyte, 0).is_err());
}

// ---- fleet ----

fn sample_vehicle() -> Vehicle {
    Vehicle::register(
        VehicleId::new(),
        "34 ABC 123",
        VehicleType::Motorcycle,
        Some(day(2027, 6, 1)),
        now(),
    )
    .expect("valid vehicle")
}

#[test]
fn registered_vehicle_is_active_and_unassigned() {
    let v = sample_vehicle();
    assert_eq!(v.status, VehicleStatus::Active);
    assert!(v.assigned_courier_id.is_none());
}

#[test]
fn rejects_blank_plate() {
    assert!(Vehicle::register(VehicleId::new(), "  ", VehicleType::Car, None, now()).is_err());
}

#[test]
fn assign_courier_to_active_vehicle() {
    let mut v = sample_vehicle();
    v.assign_courier(fresh_uuid()).expect("assign");
    assert!(v.assigned_courier_id.is_some());
}

#[test]
fn cannot_assign_courier_to_maintenance_vehicle() {
    let mut v = sample_vehicle();
    v.send_to_maintenance().expect("maintenance");
    let err = v.assign_courier(fresh_uuid()).unwrap_err();
    assert!(matches!(err, DomainError::InvalidTransition(_)));
}

#[test]
fn maintenance_then_activate_then_decommission() {
    let mut v = sample_vehicle();
    v.send_to_maintenance().expect("maintenance");
    assert_eq!(v.status, VehicleStatus::Maintenance);
    v.activate().expect("activate");
    assert_eq!(v.status, VehicleStatus::Active);
    v.decommission().expect("decommission");
    assert_eq!(v.status, VehicleStatus::Decommissioned);
}

#[test]
fn decommissioned_vehicle_cannot_be_decommissioned_again() {
    let mut v = sample_vehicle();
    v.decommission().expect("first decommission");
    let err = v.decommission().unwrap_err();
    assert!(matches!(err, DomainError::InvalidTransition(_)));
}

#[test]
fn insurance_expiry_check() {
    let v = sample_vehicle();
    assert!(!v.is_insurance_expired(day(2026, 1, 1)));
    assert!(v.is_insurance_expired(day(2028, 1, 1)));
}

#[test]
fn send_to_maintenance_clears_courier_assignment() {
    let mut v = sample_vehicle();
    v.assign_courier(fresh_uuid()).expect("assign");
    v.send_to_maintenance().expect("maintenance");
    assert!(v.assigned_courier_id.is_none());
}

#[test]
fn vehicle_without_insurance_counts_as_expired() {
    let v = Vehicle::register(VehicleId::new(), "06 X 1", VehicleType::Car, None, 0).unwrap();
    assert!(v.is_insurance_expired(i32::MIN));
    let w = sample_vehicle();
    assert!(!w.is_insurance_expired(day(2027, 6, 1)));
    let mut m = sample_vehicle();
    m.send_to_maintenance().unwrap();
    assert_eq!(
        m.assign_courier(fresh_uuid()).unwrap_err(),
        DomainError::InvalidTransition("cannot assign courier to a maintenance vehicle".into())
    );
}

// ---- notifications ----

fn sample_notification() -> Notification {
    Notification::create(
        NotificationId::new(),
        fresh_uuid(),
        NotificationChannel::Push,
        "Sipariş Güncelleme",
        "Siparişiniz teslim edildi.",
        now(),
    )
    .expect("valid notification")
}

#[test]
fn notification_starts_queued() {
    let n = sample_notification();
    assert_eq!(n.status, NotificationStatus::Queued);
    assert!(n.sent_at.is_none());
}

#[test]
fn full_lifecycle_queued_sent_read() {
    let mut n = sample_notification();
    n.mark_sent(now()).expect("sent");
    assert_eq!(n.status, NotificationStatus::Sent);
    assert!(n.sent_at.is_some());
    n.mark_read().expect("read");
    assert_eq!(n.status, NotificationStatus::Read);
}

#[test]
fn queued_can_fail() {
    let mut n = sample_notification();
    n.mark_failed().expect("failed");
    assert_eq!(n.status, NotificationStatus::Failed);
}

#[test]
fn sent_notification_cannot_fail() {
    let mut n = sample_notification();
    n.mark_sent(now()).expect("sent");
    let err = n.mark_failed().unwrap_err();
    assert!(matches!(err, DomainError::InvalidTransition(_)));
}

#[test]
fn queued_notification_cannot_be_read() {
    let mut n = sample_notification();
    let err = n.mark_read().unwrap_err();
    assert!(matches!(err, DomainError::InvalidTransition(_)));
}

#[test]
fn rejects_blank_title() {
    let result = Notification::create(
        NotificationId::new(),
        fresh_uuid(),
        NotificationChannel::Sms,
        "  ",
        "body text",
        now(),
    );
    assert!(result.is_err());
}

#[test]
fn rejects_nil_recipient() {
    let result = Notification::create(
        NotificationId::new(),
        0,
        NotificationChannel::Email,
        "Title",
        "Body",
        now(),
    );
    assert!(result.is_err());
}

#[test]
fn notification_messages_and_channels() {
    let mut n = sample_notification();
    n.mark_failed().unwrap();
    assert_eq!(
        n.mark_sent(1).unwrap_err(),
        DomainError::InvalidTransition("cannot mark failed notification as sent".into())
    );
    for c in [
        NotificationChannel::Push,
        NotificationChannel::Sms,
        NotificationChannel::Email,
        NotificationChannel::WhatsApp,
    ] {
        assert_eq!(c.as_str().parse::<NotificationChannel>(), Ok(c));
    }
    assert_eq!(NotificationChannel::WhatsApp.as_str(), "whatsapp");
    assert_eq!(
        Notification::create(NotificationId::new(), 5, NotificationChannel::Sms, "t", " ", 0).unwrap_err(),
        DomainError::Validation("notification body is required".into())
    );
}

// ---- otp ----

fn tenant() -> TenantId {
    TenantId::new()
}

fn five_minutes() -> i64 {
    micros(Duration::minutes(5))
}

#[test]
fn issuing_rejects_blank_phone() {
    let err = OtpChallenge::issue(tenant(), "  ", "hash", now(), five_minutes()).unwrap_err();
    assert!(matches!(err, DomainError::Validation(_)));
}

#[test]
fn correct_code_consumes_the_challenge() {
    let now = now();
    let mut challenge =
        OtpChallenge::issue(tenant(), "+905551112233", "correct-hash", now, five_minutes())
            .expect("valid challenge");
    challenge.verify("correct-hash", now).expect("verifies");
    assert!(challenge.is_consumed());
    assert_eq!(challenge.attempts, 1);
}

#[test]
fn wrong_code_is_rejected_and_consumes_an_attempt() {
    let now = now();
    let mut challenge =
        OtpChallenge::issue(tenant(), "+905551112233", "correct-hash", now, five_minutes())
            .expect("valid challenge");
    let err = challenge.verify("wrong-hash", now).unwrap_err();
    assert!(matches!(err, DomainError::Validation(_)));
    assert!(!challenge.is_consumed());
    assert_eq!(challenge.attempts, 1);
}

#[test]
fn expired_challenge_cannot_be_verified() {
    let now = now();
    let mut challenge =
        OtpChallenge::issue(tenant(), "+905551112233", "correct-hash", now, five_minutes())
            .expect("valid challenge");
    let later = now + micros(Duration::minutes(6));
    let err = challenge.verify("correct-hash", later).unwrap_err();
    assert!(matches!(err, DomainError::InvalidTransition(_)));
}

#[test]
fn consumed_challenge_cannot_be_verified_again() {
    let now = now();
    let mut challenge =
        OtpChallenge::issue(tenant(), "+905551112233", "correct-hash", now, five_minutes())
            .expect("valid challenge");
    challenge.verify("correct-hash", now).expect("first verify");
    let err = challenge.verify("correct-hash", now).unwrap_err();
    assert!(matches!(err, DomainError::InvalidTransition(_)));
}

#[test]
fn attempt_limit_locks_out_the_challenge() {
    let now = now();
    let mut challenge =
        OtpChallenge::issue(tenant(), "+905551112233", "correct-hash", now, five_minutes())
            .expect("valid challenge");
    for _ in 0..OtpChallenge::MAX_ATTEMPTS {
        let _ = challenge.verify("wrong-hash", now);
    }
    let err = challenge.verify("correct-hash", now).unwrap_err();
    assert!(matches!(err, DomainError::InvalidTransition(_)));
}

#[test]
fn otp_issue_rules_and_expiry_boundary() {
    assert_eq!(
        OtpChallenge::issue(tenant(), "+90", "h", 0, 0).unwrap_err(),
        DomainError::Validation("otp lifetime must be positive".into())
    );
    assert_eq!(
        OtpChallenge::issue(tenant(), "+90", " ", 0, 10).unwrap_err(),
        DomainError::Validation("code hash is required".into())
    );
    let c = OtpChallenge::issue(tenant(), "+90", "h", 100, 10).unwrap();
    assert_eq!(c.expires_at, 110);
    assert!(!c.is_expired(109));
    assert!(c.is_expired(110));
    let mut d = c.clone();
    assert_eq!(
        d.verify("h", 110).unwrap_err(),
        DomainError::InvalidTransition("otp challenge expired".into())
    );
    assert_eq!(d.attempts, 0);
}

// ---- proof of delivery ----

#[test]
fn validates_pod_creation() {
    let order_id = fresh_uuid();
    let courier_id = fresh_uuid();
    let pod = ProofOfDeliveryRecord::new(
        order_id,
        courier_id,
        "Ali Yılmaz",
        true,
        Some("data:image/png;base64,iVBORw...".into()),
        Some("https://storage.qervon.com/pod/123.jpg".into()),
    )
    .unwrap();
    assert_eq!(pod.recipient_name, "Ali Yılmaz");
    assert!(pod.qr_barcode_verified);
}

#[test]
fn pod_requires_recipient() {
    assert_eq!(
        ProofOfDeliveryRecord::new(1, 2, "\n", false, None, None).unwrap_err(),
        DomainError::Validation("Recipient name cannot be empty".into())
    );
}

// ---- tenant ----

#[test]
fn creates_valid_tenant_and_branch() {
    let tenant_id = TenantId::new();
    let branch_id = BranchId::new();
    let company = TenantCompany {
        id: tenant_id,
        company_name: "Lezzet Restoranları A.Ş.".into(),
        category: "Restaurant".into(),
        created_at: now(),
    };
    let branch = TenantBranch {
        id: branch_id,
        tenant_id,
        branch_name: "Kadıköy Şubesi".into(),
        city: "İstanbul".into(),
    };
    assert_eq!(branch.tenant_id, company.id);
}

#[test]
fn tenant_member_role_round_trip() {
    for r in [
        TenantMemberRole::Owner,
        TenantMemberRole::Admin,
        TenantMemberRole::Operator,
        TenantMemberRole::Member,
    ] {
        assert_eq!(r.as_str().parse::<TenantMemberRole>(), Ok(r));
    }
    assert_eq!(
        "boss".parse::<TenantMemberRole>(),
        Err(DomainError::Validation("invalid tenant member role".into()))
    );
}

// ---- tracking ----

fn istanbul() -> Location {
    loc(41.0082, 28.9784)
}

#[test]
fn tracking_point_requires_courier_id() {
    let result = TrackingPoint::new(0, istanbul(), None, None, now());
    assert!(result.is_err());
}

#[test]
fn tracking_point_rejects_negative_speed() {
    let result = TrackingPoint::new(fresh_uuid(), istanbul(), Some((-5.0f64).to_bits()), None, now());
    assert!(result.is_err());
}

#[test]
fn tracking_point_rejects_battery_over_100() {
    let result = TrackingPoint::new(fresh_uuid(), istanbul(), None, Some(101), now());
    assert!(result.is_err());
}

#[test]
fn valid_tracking_point_stores_data() {
    let point = TrackingPoint::new(fresh_uuid(), istanbul(), Some(30.0f64.to_bits()), Some(85), now())
        .expect("valid point");
    assert_eq!(point.speed_kmh_bits.map(f64::from_bits), Some(30.0));
    assert_eq!(point.battery_pct, Some(85));
    assert!(!point.fraud_flagged);
    assert_eq!(f64::from_bits(point.fraud_risk_score_bits), 0.0);
}

#[test]
fn flagging_fraud_risk_marks_the_point_without_rejecting_it() {
    let mut point = TrackingPoint::new(fresh_uuid(), istanbul(), None, None, now()).expect("valid point");
    point.flag_fraud_risk(0.95f64.to_bits());
    assert!(point.fraud_flagged);
    assert_eq!(f64::from_bits(point.fraud_risk_score_bits), 0.95);
}

#[test]
fn session_starts_active() {
    let session = TrackingSession::start(fresh_uuid(), now()).expect("valid session");
    assert!(session.is_active());
    assert!(session.ended_at.is_none());
}

#[test]
fn session_can_be_ended() {
    let mut session = TrackingSession::start(fresh_uuid(), now()).expect("valid session");
    session.end(now()).expect("end session");
    assert!(!session.is_active());
    assert!(session.ended_at.is_some());
}

#[test]
fn ended_session_cannot_be_ended_again() {
    let mut session = TrackingSession::start(fresh_uuid(), now()).expect("valid session");
    session.end(now()).expect("end once");
    let err = session.end(now()).unwrap_err();
    assert!(matches!(err, DomainError::InvalidTransition(_)));
}

#[test]
fn tracking_speed_edge_cases() {
    let c = fresh_uuid();
    assert!(TrackingPoint::new(c, istanbul(), Some((-0.0f64).to_bits()), None, 0).is_ok());
    assert!(TrackingPoint::new(c, istanbul(), Some(f64::NAN.to_bits()), None, 0).is_err());
    assert!(TrackingPoint::new(c, istanbul(), Some(f64::INFINITY.to_bits()), None, 0).is_err());
    assert!(TrackingPoint::new(c, istanbul(), None, Some(100), 0).is_ok());
    let mut s = TrackingSession::start(c, 100).unwrap();
    assert_eq!(
        s.end(99).unwrap_err(),
        DomainError::Validation("end time cannot precede start time".into())
    );
    assert_eq!(s.status, TrackingSessionStatus::Active);
    s.end(100).unwrap();
    assert_eq!(s.ended_at, Some(100));
}

// ---- users ----

fn sample_user() -> User {
    User::create(UserId::new(), "test@qervon.com", "Test User", UserRole::Customer, now())
        .expect("valid user")
}

#[test]
fn user_starts_active() {
    let u = sample_user();
    assert!(u.is_active());
    assert_eq!(u.role, UserRole::Customer);
}

#[test]
fn rejects_empty_email() {
    let result = User::create(UserId::new(), "", "Name", UserRole::Customer, now());
    assert!(result.is_err());
}

#[test]
fn rejects_email_without_at() {
    let result = User::create(UserId::new(), "bademail", "Name", UserRole::Customer, now());
    assert!(result.is_err());
}

#[test]
fn suspend_and_reactivate() {
    let mut u = sample_user();
    u.suspend().expect("suspend");
    assert_eq!(u.status, UserStatus::Suspended);
    assert!(!u.is_active());
    u.reactivate().expect("reactivate");
    assert!(u.is_active());
}

#[test]
fn deleted_user_cannot_be_deleted_again() {
    let mut u = sample_user();
    u.soft_delete().expect("delete");
    let err = u.soft_delete().unwrap_err();
    assert!(matches!(err, DomainError::InvalidTransition(_)));
}

#[test]
fn change_role() {
    let mut u = sample_user();
    u.change_role(UserRole::Admin);
    assert!(u.role.is_admin());
}

#[test]
fn role_round_trip() {
    assert_eq!("super_admin".parse::<UserRole>().unwrap(), UserRole::SuperAdmin);
    assert_eq!(UserRole::FleetManager.as_str(), "fleet_manager");
}

#[test]
fn user_messages_and_phone() {
    let mut u = sample_user();
    u.set_phone("+905550000000");
    assert_eq!(u.phone.as_deref(), Some("+905550000000"));
    assert_eq!(
        u.reactivate().unwrap_err(),
        DomainError::InvalidTransition(
            "can only reactivate a suspended user, current status: active".into()
        )
    );
    u.soft_delete().unwrap();
    assert_eq!(
        u.suspend().unwrap_err(),
        DomainError::InvalidTransition("cannot suspend a deleted user".into())
    );
    assert_eq!(
        User::create(UserId::new(), "a@b", " ", UserRole::Courier, 0).unwrap_err(),
        DomainError::Validation("display name is required".into())
    );
    assert!(!UserRole::Operator.is_admin());
    assert_eq!(
        "root".parse::<UserRole>(),
        Err(DomainError::Validation("unknown user role: root".into()))
    );
}

// ---- warehouse ----

#[test]
fn receives_and_dispatches_parcels_manifest() {
    let mut hub = WarehouseHub::new("HUB-01", "İstanbul Ana Transfer Merkezi", loc(41.06, 28.93), 1000);
    hub.receive_parcels(50).unwrap();
    assert_eq!(hub.active_parcels, 50);
    let courier_id = fresh_uuid();
    let orders = vec![fresh_uuid(), fresh_uuid()];
    let manifest = hub.dispatch_manifest(courier_id, orders).unwrap();
    assert_eq!(manifest.order_ids.len(), 2);
    assert_eq!(hub.active_parcels, 48);
}

#[test]
fn hub_capacity_and_stock_limits() {
    let mut hub = WarehouseHub::new("HUB-02", "Ankara", loc(39.9, 32.8), 10);
    assert_eq!(hub.receive_parcels(11).unwrap_err(), "Warehouse capacity exceeded");
    assert_eq!(hub.active_parcels, 0);
    hub.receive_parcels(10).unwrap();
    assert_eq!(
        hub.dispatch_manifest(1, vec![1; 11]).unwrap_err(),
        "Not enough parcels in hub"
    );
    assert_eq!(hub.active_parcels, 10);
    let m = hub.dispatch_manifest(7, vec![3; 10]).unwrap();
    assert_eq!(m.hub_id, hub.id);
    assert_eq!(m.courier_id, 7);
    assert_eq!(hub.active_parcels, 0);
}

// ---- webhooks ----

#[test]
fn webhook_subscription_rules() {
    let digest = "a".repeat(64);
    let ok = WebhookSubscription::create(
        TenantId::new(),
        "https://hooks.example.com/q".into(),
        vec!["order.created".into()],
        digest.clone(),
    )
    .unwrap();
    assert!(ok.enabled);
    assert_eq!(
        WebhookSubscription::create(TenantId::new(), "http://x".into(), vec!["e".into()], digest.clone())
            .unwrap_err(),
        DomainError::Validation("webhook endpoint must use HTTPS".into())
    );
    assert_eq!(
        WebhookSubscription::create(TenantId::new(), "https://x".into(), vec![], digest.clone())
            .unwrap_err(),
        DomainError::Validation("at least one webhook event is required".into())
    );
    assert_eq!(
        WebhookSubscription::create(
            TenantId::new(),
            "https://x".into(),
            vec!["e".into(), " ".into()],
            digest.clone()
        )
        .unwrap_err(),
        DomainError::Validation("at least one webhook event is required".into())
    );
    assert_eq!(
        WebhookSubscription::create(TenantId::new(), "https://x".into(), vec!["e".into()], "g".repeat(64))
            .unwrap_err(),
        DomainError::Validation("webhook secret hash is invalid".into())
    );
    assert!(WebhookSubscription::create(
        TenantId::new(),
        "https://x".into(),
        vec!["e".into()],
        "0123456789abcdefABCDEF".repeat(3)[..64].to_string()
    )
    .is_ok());
}

// ---- coupons ----

#[test]
fn rejects_invalid_discount_percent() {
    let now = now();
    let err = Coupon::create(
        TenantId::new(),
        "QERVON20",
        150.0f64.to_bits(),
        1000,
        now + micros(Duration::days(1)),
        10,
        now,
    )
    .unwrap_err();
    assert!(matches!(err, DomainError::Validation(_)));
}

#[test]
fn rejects_zero_usage_limit() {
    let now = now();
    let err = Coupon::create(
        TenantId::new(),
        "QERVON20",
        10.0f64.to_bits(),
        1000,
        now + micros(Duration::days(1)),
        0,
        now,
    )
    .unwrap_err();
    assert!(matches!(err, DomainError::Validation(_)));
}

#[test]
fn normalizes_code_to_uppercase() {
    let now = now();
    let coupon = Coupon::create(
        TenantId::new(),
        " qervon20 ",
        10.0f64.to_bits(),
        1000,
        now + micros(Duration::days(1)),
        10,
        now,
    )
    .expect("valid coupon");
    assert_eq!(coupon.code, "QERVON20");
}

#[test]
fn redeeming_increments_usage_until_limit_reached() {
    let now = now();
    let mut coupon = Coupon::create(
        TenantId::new(),
        "LIMITED",
        10.0f64.to_bits(),
        1000,
        now + micros(Duration::days(1)),
        2,
        now,
    )
    .expect("valid coupon");
    coupon.redeem(now).expect("first redemption");
    coupon.redeem(now).expect("second redemption");
    let err = coupon.redeem(now).unwrap_err();
    assert!(matches!(err, DomainError::InvalidTransition(_)));
}

#[test]
fn expired_coupon_cannot_be_redeemed() {
    let now = now();
    let mut coupon = Coupon::create(
        TenantId::new(),
        "EXPIRED",
        10.0f64.to_bits(),
        1000,
        now - micros(Duration::days(1)),
        10,
        now - micros(Duration::days(2)),
    )
    .expect("valid coupon");
    let err = coupon.redeem(now).unwrap_err();
    assert!(matches!(err, DomainError::InvalidTransition(_)));
}

#[test]
fn deactivated_coupon_cannot_be_redeemed() {
    let now = now();
    let mut coupon = Coupon::create(
        TenantId::new(),
        "OFF",
        10.0f64.to_bits(),
        1000,
        now + micros(Duration::days(1)),
        10,
        now,
    )
    .expect("valid coupon");
    coupon.deactivate();
    assert!(coupon.redeem(now).is_err());
}

#[test]
fn coupon_edge_cases() {
    let t = TenantId::new();
    assert_eq!(
        Coupon::create(t, "   ", 10.0f64.to_bits(), 0, 10, 1, 0).unwrap_err(),
        DomainError::Validation("coupon code is required".into())
    );
    assert!(Coupon::create(t, "X", 100.0f64.to_bits(), 0, 10, 1, 0).is_ok());
    assert!(Coupon::create(t, "X", 0.0f64.to_bits(), 0, 10, 1, 0).is_ok());
    assert!(Coupon::create(t, "X", (-0.0f64).to_bits(), 0, 10, 1, 0).is_ok());
    assert!(Coupon::create(t, "X", f64::NAN.to_bits(), 0, 10, 1, 0).is_err());
    assert!(Coupon::create(t, "X", 100.5f64.to_bits(), 0, 10, 1, 0).is_err());
    assert_eq!(
        Coupon::create(t, "X", 5.0f64.to_bits(), -1, 10, 1, 0).unwrap_err(),
        DomainError::Validation("max discount amount cannot be negative".into())
    );
    assert_eq!(Coupon::create(t, "straße", 5.0f64.to_bits(), 0, 10, 1, 0).unwrap().code, "STRASSE");
    let c = Coupon::create(t, "X", 5.0f64.to_bits(), 0, 10, 1, 0).unwrap();
    assert!(c.is_redeemable(10));
    assert!(!c.is_redeemable(11));
}

// ---- cold chain, shifts, wallet, field service ----

#[test]
fn detects_cold_chain_temperature_breach() {
    let order_id = fresh_uuid();
    let b = |x: f64| x.to_bits();
    let normal = ColdChainTelemetry::new(order_id, "SENS-101", b(5.0), b(45.0), b(2.0), b(8.0));
    assert!(!normal.is_violation);
    let breach = ColdChainTelemetry::new(order_id, "SENS-101", b(12.5), b(45.0), b(2.0), b(8.0));
    assert!(breach.is_violation);
    let cold = ColdChainTelemetry::new(order_id, "SENS-101", b(-3.0), b(45.0), b(2.0), b(8.0));
    assert!(cold.is_violation);
    let edge = ColdChainTelemetry::new(order_id, "SENS-101", b(8.0), b(45.0), b(2.0), b(8.0));
    assert!(!edge.is_violation);
    let nan = ColdChainTelemetry::new(order_id, "SENS-101", b(f64::NAN), b(45.0), b(2.0), b(8.0));
    assert!(!nan.is_violation);
}

#[test]
fn creates_and_toggles_shift_break() {
    let courier_id = fresh_uuid();
    let mut shift = CourierShiftAssignment::new(courier_id, "2026-08-08", ShiftType::MorningShift);
    assert!(!shift.is_on_break);
    shift.set_break_status(true);
    assert!(shift.is_on_break);
}

#[test]
fn wallet_lifecycle_earnings_bonus_penalties() {
    let courier_id = fresh_uuid();
    let mut wallet = CourierWallet::new(courier_id, "TRY");

    wallet.add_earning(4500, "ORD-101").unwrap();
    wallet.add_bonus(500, "5-Star Rating").unwrap();
    wallet.apply_penalty(200, "Late Delivery").unwrap();

    assert_eq!(wallet.balance_minor, 4800);
    assert_eq!(wallet.total_earned_minor, 4500);
    assert_eq!(wallet.total_bonus_minor, 500);
    assert_eq!(wallet.total_penalties_minor, 200);
    assert_eq!(wallet.transactions.len(), 3);
}

#[test]
fn wallet_rejects_non_positive_amounts_and_describes_entries() {
    let mut wallet = CourierWallet::new(fresh_uuid(), "TRY");
    assert_eq!(
        wallet.add_earning(0, "X").unwrap_err(),
        DomainError::Validation("Earning amount must be positive".into())
    );
    assert_eq!(
        wallet.add_bonus(-5, "X").unwrap_err(),
        DomainError::Validation("Bonus amount must be positive".into())
    );
    assert_eq!(
        wallet.apply_penalty(0, "X").unwrap_err(),
        DomainError::Validation("Penalty amount must be positive".into())
    );
    assert!(wallet.transactions.is_empty());
    wallet.apply_penalty(300, "Hasar").unwrap();
    assert_eq!(wallet.balance_minor, -300);
    wallet.add_earning(100, "ORD-7").unwrap();
    assert_eq!(wallet.transactions[0].description, "Kesinti / Ceza: Hasar");
    assert_eq!(wallet.transactions[1].description, "Teslimat Hakedişi: Order #ORD-7");
    assert_eq!(wallet.transactions[1].currency, "TRY");
    assert_eq!(
        wallet.balance_minor,
        wallet.total_earned_minor + wallet.total_bonus_minor - wallet.total_penalties_minor
    );
}

#[test]
fn schedules_and_assigns_technician() {
    let cust_id = fresh_uuid();
    let mut appt = FieldServiceScheduler::schedule_appointment(
        TenantId::new(),
        cust_id,
        "Klima Bakımı & Montaj",
        "2026-08-10",
        TimeSlotWindow::Morning,
    );
    assert!(appt.is_confirmed);
    assert!(appt.technician_id.is_none());
    let tech_id = fresh_uuid();
    FieldServiceScheduler::assign_technician(&mut appt, tech_id);
    assert_eq!(appt.technician_id, Some(tech_id));
}

#[test]
fn time_slot_window_string_round_trip() {
    for variant in [TimeSlotWindow::Morning, TimeSlotWindow::Afternoon, TimeSlotWindow::Evening] {
        assert_eq!(variant.as_str().parse::<TimeSlotWindow>(), Ok(variant));
    }
}

#[test]
fn distance_charge_is_added_to_the_base_fare() {
    let pricing = DeliveryPricing::default_for_tenant(TenantId::new(), now());
    // 2 km at 250 per km: base 1000 + 500 = 1500, tied with the minimum.
    assert_eq!(pricing.fare_with_distance_charge(500), 1_500);
    // 10 km: base 1000 + 2500 = 3500, above the minimum.
    assert_eq!(pricing.fare_with_distance_charge(2_500), 3_500);
}

#[test]
fn fares_are_floored_at_the_minimum() {
    let pricing = DeliveryPricing::default_for_tenant(TenantId::new(), now());
    // 0.5 km: base 1000 + 125 = 1125, below the minimum of 1500.
    assert_eq!(pricing.fare_with_distance_charge(125), 1_500);
    assert_eq!(pricing.fare_with_distance_charge(0), 1_500);
    let custom = DeliveryPricing::new(TenantId::new(), 2_000, 300, 2_500, "EUR", now()).unwrap();
    assert_eq!(custom.fare_with_distance_charge(900), 2_900);
    assert_eq!(custom.fare_with_distance_charge(300), 2_500);
}
