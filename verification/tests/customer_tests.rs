use chrono::Utc;
use qervon::customer::{CustomerId, CustomerProfile, SavedAddress};
use qervon::customer_feedback::{CustomerRating, SupportTicket, TicketStatus};
use qervon::error::DomainError;
use qervon::location::Location;
use qervon::tenant::TenantId;
use qervon::user::UserId;
use uuid::Uuid;

fn now() -> i64 {
    Utc::now().timestamp_micros()
}

fn fresh_uuid() -> u128 {
    Uuid::now_v7().as_u128()
}

fn loc(lat: f64, lon: f64) -> Location {
    Location::new(lat.to_bits(), lon.to_bits()).unwrap()
}

fn sample_profile() -> CustomerProfile {
    CustomerProfile::create(CustomerId::new(), UserId::new(), now())
}

fn istanbul_address() -> SavedAddress {
    SavedAddress::new("Ev", loc(41.0082, 28.9784), "Sultanahmet, Fatih/İstanbul").unwrap()
}

#[test]
fn profile_starts_empty() {
    let p = sample_profile();
    assert!(p.addresses.is_empty());
    assert_eq!(p.loyalty_points, 0);
    assert!(p.company_name.is_none());
}

#[test]
fn first_address_becomes_default() {
    let mut p = sample_profile();
    p.add_address(istanbul_address());
    assert_eq!(p.addresses.len(), 1);
    assert!(p.addresses[0].is_default);
}

#[test]
fn set_default_address() {
    let mut p = sample_profile();
    let addr1 = istanbul_address();
    let addr2 = SavedAddress::new("İş", loc(41.0, 29.0), "Maslak, Sarıyer/İstanbul").unwrap();
    let addr2_id = addr2.id;

    p.add_address(addr1);
    p.add_address(addr2);
    p.set_default_address(addr2_id).expect("set default");

    assert_eq!(p.default_address().unwrap().id, addr2_id);
}

#[test]
fn remove_address_promotes_first() {
    let mut p = sample_profile();
    let addr1 = istanbul_address();
    let addr1_id = addr1.id;
    let addr2 = SavedAddress::new("İş", loc(41.0, 29.0), "Maslak").unwrap();

    p.add_address(addr1);
    p.add_address(addr2);
    p.remove_address(addr1_id).expect("remove");

    assert_eq!(p.addresses.len(), 1);
    assert!(p.addresses[0].is_default);
}

#[test]
fn loyalty_points_spend_and_earn() {
    let mut p = sample_profile();
    p.add_loyalty_points(100);
    assert_eq!(p.loyalty_points, 100);

    p.spend_loyalty_points(40).expect("spend");
    assert_eq!(p.loyalty_points, 60);

    let err = p.spend_loyalty_points(100).unwrap_err();
    assert!(matches!(err, DomainError::Validation(_)));
}

#[test]
fn set_company_info() {
    let mut p = sample_profile();
    p.set_company("ACME Ltd.", "1234567890");
    assert_eq!(p.company_name.as_deref(), Some("ACME Ltd."));
    assert_eq!(p.tax_id.as_deref(), Some("1234567890"));
}

// ---- further customer cases ----

#[test]
fn set_default_address_unknown_id_is_not_found() {
    let mut p = sample_profile();
    p.add_address(istanbul_address());
    let missing = Uuid::now_v7();
    assert_eq!(
        p.set_default_address(missing.as_u128()).unwrap_err(),
        DomainError::NotFound(format!("address {} not found in customer profile", missing))
    );
    assert_eq!(
        p.remove_address(missing.as_u128()).unwrap_err(),
        DomainError::NotFound(format!("address {} not found", missing))
    );
    assert_eq!(p.addresses.len(), 1);
    assert!(p.addresses[0].is_default);
}

#[test]
fn removing_a_non_default_address_keeps_the_default() {
    let mut p = sample_profile();
    let a = istanbul_address();
    let a_id = a.id;
    let b = SavedAddress::new("İş", loc(41.0, 29.0), "Maslak").unwrap();
    let b_id = b.id;
    let c = SavedAddress::new("Yazlık", loc(40.0, 27.0), "Ayvalık").unwrap();
    p.add_address(a);
    p.add_address(b);
    p.add_address(c);
    p.remove_address(b_id).unwrap();
    assert_eq!(p.addresses.len(), 2);
    assert_eq!(p.default_address().unwrap().id, a_id);
    assert!(!p.addresses[1].is_default);
}

#[test]
fn removing_the_last_address_leaves_no_default() {
    let mut p = sample_profile();
    let a = istanbul_address();
    let a_id = a.id;
    p.add_address(a);
    p.remove_address(a_id).unwrap();
    assert!(p.addresses.is_empty());
    assert!(p.default_address().is_none());
}

#[test]
fn loyalty_points_saturate_and_report_shortfall() {
    let mut p = sample_profile();
    p.add_loyalty_points(u64::MAX - 1);
    p.add_loyalty_points(10);
    assert_eq!(p.loyalty_points, u64::MAX);
    let mut q = sample_profile();
    q.add_loyalty_points(7);
    assert_eq!(
        q.spend_loyalty_points(12).unwrap_err(),
        DomainError::Validation("insufficient loyalty points: have 7, need 12".into())
    );
    assert_eq!(q.loyalty_points, 7);
}

#[test]
fn saved_address_requires_label() {
    assert_eq!(
        SavedAddress::new(" \t", loc(1.0, 1.0), "x").unwrap_err(),
        DomainError::Validation("address label is required".into())
    );
    let a = istanbul_address();
    assert!(!a.is_default);
    assert_ne!(a.id, 0);
}

// ---- feedback ----

#[test]
fn validates_rating_stars_range() {
    let order_id = fresh_uuid();
    let cust_id = fresh_uuid();
    let courier_id = fresh_uuid();

    assert!(CustomerRating::new(order_id, cust_id, courier_id, 5, None).is_ok());
    assert!(CustomerRating::new(order_id, cust_id, courier_id, 6, None).is_err());
}

#[test]
fn ticket_status_string_round_trip() {
    for variant in [
        TicketStatus::Open,
        TicketStatus::InProgress,
        TicketStatus::Resolved,
        TicketStatus::Closed,
    ] {
        assert_eq!(variant.as_str().parse::<TicketStatus>(), Ok(variant));
    }
}

#[test]
fn rejects_blank_subject_or_message() {
    let tenant_id = TenantId::new();
    let customer_id = fresh_uuid();
    assert!(SupportTicket::open(tenant_id, customer_id, None, "  ", "message", now()).is_err());
    assert!(SupportTicket::open(tenant_id, customer_id, None, "subject", "  ", now()).is_err());
}

#[test]
fn ticket_lifecycle_open_progress_resolve() {
    let mut ticket = SupportTicket::open(
        TenantId::new(),
        fresh_uuid(),
        None,
        "Kurye gelmedi",
        "Siparişim 1 saattir bekliyor",
        now(),
    )
    .expect("valid ticket");
    assert_eq!(ticket.status, TicketStatus::Open);

    ticket.start_progress().expect("start progress");
    assert_eq!(ticket.status, TicketStatus::InProgress);

    ticket.resolve().expect("resolve");
    assert_eq!(ticket.status, TicketStatus::Resolved);

    ticket.close().expect("close");
    assert_eq!(ticket.status, TicketStatus::Closed);
    let err = ticket.close().unwrap_err();
    assert!(matches!(err, DomainError::InvalidTransition(_)));
}

#[test]
fn cannot_resolve_a_closed_ticket() {
    let mut ticket =
        SupportTicket::open(TenantId::new(), fresh_uuid(), None, "Konu", "Mesaj", now())
            .expect("valid ticket");
    ticket.close().expect("close");
    let err = ticket.resolve().unwrap_err();
    assert!(matches!(err, DomainError::InvalidTransition(_)));
}

#[test]
fn rating_rejects_zero_stars_and_keeps_fields() {
    assert_eq!(
        CustomerRating::new(1, 2, 3, 0, None).unwrap_err(),
        DomainError::Validation("Rating stars must be between 1 and 5".into())
    );
    let r = CustomerRating::new(1, 2, 3, 1, Some("iyi".into())).unwrap();
    assert_eq!((r.order_id, r.customer_id, r.courier_id, r.rating_stars), (1, 2, 3, 1));
    assert_eq!(r.comment.as_deref(), Some("iyi"));
    assert!(r.photo_url.is_none());
}

#[test]
fn resolved_ticket_cannot_start_progress() {
    let mut ticket =
        SupportTicket::open(TenantId::new(), fresh_uuid(), Some(9), "Konu", "Mesaj", now()).unwrap();
    ticket.resolve().unwrap();
    assert_eq!(
        ticket.start_progress().unwrap_err(),
        DomainError::InvalidTransition("cannot start progress on a resolved ticket".into())
    );
}

#[test]
fn removal_leaves_exactly_one_default() {
    let mut p = sample_profile();
    let a = istanbul_address();
    let b = SavedAddress::new("İş", loc(41.0, 29.0), "Maslak").unwrap();
    let c = SavedAddress::new("Yazlık", loc(40.9, 29.1), "Kadıköy").unwrap();
    let (a_id, b_id) = (a.id, b.id);
    p.add_address(a);
    p.add_address(b);
    p.add_address(c);
    p.set_default_address(b_id).unwrap();
    p.remove_address(a_id).unwrap();
    assert_eq!(p.addresses.iter().filter(|x| x.is_default).count(), 1);
    assert!(p.addresses.iter().any(|x| x.id == b_id && x.is_default));
    p.remove_address(b_id).unwrap();
    assert_eq!(p.addresses.iter().filter(|x| x.is_default).count(), 1);
    assert!(p.addresses[0].is_default);
}
