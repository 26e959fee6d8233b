use chrono::Utc;
use qervon::courier::{Courier, CourierStatus, VehicleType};
use qervon::dispatch::{Assignment, AssignmentStatus, OFFER_TTL};
use qervon::error::DomainError;
use qervon::order::OrderId;
use uuid::Uuid;

fn now() -> i64 {
    Utc::now().timestamp_micros()
}

fn fresh_uuid() -> u128 {
    Uuid::now_v7().as_u128()
}

fn one_second() -> i64 {
    chrono::Duration::seconds(1).num_microseconds().unwrap()
}

fn sample_courier() -> Courier {
    Courier::create(fresh_uuid(), "Ayşe Kurye", VehicleType::Motorcycle, now())
        .expect("valid courier")
}

#[test]
fn registered_courier_is_available() {
    assert_eq!(sample_courier().status, CourierStatus::Available);
}

#[test]
fn goes_busy_then_available() {
    let mut courier = sample_courier();
    courier.go_busy().expect("go busy");
    assert_eq!(courier.status, CourierStatus::Busy);
    courier.go_available().expect("go available");
    assert_eq!(courier.status, CourierStatus::Available);
}

#[test]
fn busy_courier_cannot_accept_more_work() {
    let mut courier = sample_courier();
    courier.go_busy().expect("go busy");
    let err = courier.go_busy().unwrap_err();
    assert!(matches!(err, DomainError::InvalidTransition(_)));
}

#[test]
fn only_available_courier_can_go_offline() {
    let mut courier = sample_courier();
    courier.go_offline().expect("offline");
    let err = courier.go_busy().unwrap_err();
    assert!(matches!(err, DomainError::InvalidTransition(_)));
}

#[test]
fn rejects_blank_name() {
    assert!(Courier::create(fresh_uuid(), "  ", VehicleType::Car, now()).is_err());
}

#[test]
fn courier_errors_name_the_courier_and_status() {
    let id = Uuid::now_v7();
    let mut courier = Courier::create(id.as_u128(), "Ali", VehicleType::Bicycle, now()).unwrap();
    courier.go_offline().unwrap();
    assert_eq!(
        courier.go_busy().unwrap_err(),
        DomainError::InvalidTransition(format!("courier {} is not available (status Offline)", id))
    );
    assert_eq!(
        courier.go_available().unwrap_err(),
        DomainError::InvalidTransition(format!("courier {} is not busy (status Offline)", id))
    );
    assert_eq!(
        courier.go_offline().unwrap_err(),
        DomainError::InvalidTransition(format!("courier {} cannot go offline while Offline", id))
    );
    assert_eq!(
        Courier::create(0, "Ali", VehicleType::Car, now()).unwrap_err(),
        DomainError::Validation("courier id is required".into())
    );
}

#[test]
fn vehicle_type_and_courier_status_round_trip() {
    for v in [VehicleType::Bicycle, VehicleType::Motorcycle, VehicleType::Car] {
        assert_eq!(v.as_str().parse::<VehicleType>(), Ok(v));
    }
    for s in [CourierStatus::Available, CourierStatus::Busy, CourierStatus::Offline] {
        assert_eq!(s.as_str().parse::<CourierStatus>(), Ok(s));
    }
}

#[test]
fn assignment_starts_assigned() {
    let assignment = Assignment::new(OrderId::new(), fresh_uuid(), now()).expect("valid assignment");
    assert_eq!(assignment.status, AssignmentStatus::Assigned);
}

#[test]
fn rejects_nil_courier() {
    assert!(Assignment::new(OrderId::new(), 0, now()).is_err());
}

#[test]
fn can_be_completed() {
    let mut assignment =
        Assignment::new(OrderId::new(), fresh_uuid(), now()).expect("valid assignment");
    assignment.complete();
    assert_eq!(assignment.status, AssignmentStatus::Completed);
}

#[test]
fn offer_starts_offered_and_can_be_accepted() {
    let now = now();
    let mut offer = Assignment::offer(OrderId::new(), fresh_uuid(), now).expect("valid offer");
    assert_eq!(offer.status, AssignmentStatus::Offered);
    assert!(!offer.is_offer_expired(now));

    offer.accept(now).expect("accept");
    assert_eq!(offer.status, AssignmentStatus::Assigned);
    assert!(offer.responded_at.is_some());
}

#[test]
fn offer_can_be_rejected() {
    let now = now();
    let mut offer = Assignment::offer(OrderId::new(), fresh_uuid(), now).expect("valid offer");
    offer.reject(now).expect("reject");
    assert_eq!(offer.status, AssignmentStatus::Cancelled);
    assert!(offer.responded_at.is_some());
}

#[test]
fn expired_offer_cannot_be_accepted() {
    let now = now();
    let offer = Assignment::offer(OrderId::new(), fresh_uuid(), now).expect("valid offer");
    let later = now + OFFER_TTL + one_second();
    assert!(offer.is_offer_expired(later));

    let mut offer = offer;
    let err = offer.accept(later).unwrap_err();
    assert!(matches!(err, DomainError::InvalidTransition(_)));
}

#[test]
fn expired_offer_can_still_be_rejected_to_persist_the_expiry() {
    let now = now();
    let mut offer = Assignment::offer(OrderId::new(), fresh_uuid(), now).expect("valid offer");
    let later = now + OFFER_TTL + one_second();
    offer.reject(later).expect("reject expired offer");
    assert_eq!(offer.status, AssignmentStatus::Cancelled);
}

#[test]
fn offer_excluding_carries_the_excluded_set() {
    let now = now();
    let first_courier = fresh_uuid();
    let second_courier = fresh_uuid();
    let offer = Assignment::offer(OrderId::new(), first_courier, now).expect("valid offer");
    assert!(offer.excluded_courier_ids.is_empty());

    let mut rejected = offer;
    rejected.reject(now).expect("reject");
    let excluded = rejected.excluded_including_self();
    assert_eq!(excluded, vec![first_courier]);

    let re_offer =
        Assignment::offer_excluding(rejected.order_id, second_courier, excluded.clone(), now)
            .expect("valid re-offer");
    assert_eq!(re_offer.excluded_courier_ids, excluded);
    assert_eq!(re_offer.status, AssignmentStatus::Offered);
}

#[test]
fn cannot_accept_or_reject_an_already_assigned_assignment() {
    let now = now();
    let mut assignment =
        Assignment::new(OrderId::new(), fresh_uuid(), now).expect("valid assignment");
    assert!(assignment.accept(now).is_err());
    assert!(assignment.reject(now).is_err());
}

// ---- further cases ----

#[test]
fn offer_expires_exactly_at_the_ttl() {
    let t = 1_000_000_000i64;
    let offer = Assignment::offer(OrderId::new(), fresh_uuid(), t).unwrap();
    assert_eq!(OFFER_TTL, 45_000_000);
    assert!(!offer.is_offer_expired(t + OFFER_TTL - 1));
    assert!(offer.is_offer_expired(t + OFFER_TTL));
    let assigned = Assignment::new(OrderId::new(), fresh_uuid(), t).unwrap();
    assert!(!assigned.is_offer_expired(t + 10 * OFFER_TTL));
}

#[test]
fn accept_stamps_assignment_time() {
    let t = 5_000i64;
    let mut offer = Assignment::offer(OrderId::new(), fresh_uuid(), t).unwrap();
    offer.accept(t + 10).unwrap();
    assert_eq!(offer.assigned_at, t + 10);
    assert_eq!(offer.offered_at, t);
    assert_eq!(offer.responded_at, Some(t + 10));
    assert_eq!(
        offer.accept(t + 11).unwrap_err(),
        DomainError::InvalidTransition("cannot accept a assigned assignment".into())
    );
}

#[test]
fn excluded_set_never_holds_a_courier_twice() {
    let courier = fresh_uuid();
    let other = fresh_uuid();
    let offer = Assignment::offer_excluding(OrderId::new(), courier, vec![other, courier], 0).unwrap();
    assert_eq!(offer.excluded_including_self(), vec![other, courier]);
    let offer2 = Assignment::offer_excluding(OrderId::new(), courier, vec![other], 0).unwrap();
    assert_eq!(offer2.excluded_including_self(), vec![other, courier]);
}

#[test]
fn assignment_status_round_trip() {
    for s in [
        AssignmentStatus::Offered,
        AssignmentStatus::Assigned,
        AssignmentStatus::Completed,
        AssignmentStatus::Cancelled,
    ] {
        assert_eq!(s.as_str().parse::<AssignmentStatus>(), Ok(s));
    }
}
