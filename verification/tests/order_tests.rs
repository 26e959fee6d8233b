use chrono::Utc;
use qervon::error::DomainError;
use qervon::location::Location;
use qervon::money::Money;
use qervon::order::{Address, Order, OrderId, OrderStatus, PaymentMethod};
use uuid::Uuid;

fn now() -> i64 {
    Utc::now().timestamp_micros()
}

fn fresh_uuid() -> u128 {
    Uuid::now_v7().as_u128()
}

fn sample_address(label: &str) -> Address {
    Address {
        location: Location::new(41.0f64.to_bits(), 29.0f64.to_bits()).unwrap(),
        label: Some(label.to_string()),
    }
}

fn sample_order() -> Order {
    Order::create(
        OrderId::new(),
        fresh_uuid(),
        sample_address("pickup"),
        sample_address("dropoff"),
        Money::new(1_500, "TRY").unwrap(),
        now(),
        None,
        None,
    )
    .expect("valid order")
}

#[test]
fn created_order_starts_pending_without_courier() {
    let order = sample_order();
    assert_eq!(order.status, OrderStatus::Pending);
    assert!(order.assigned_courier_id.is_none());
}

#[test]
fn assign_then_transit_then_deliver_is_valid_path() {
    let mut order = sample_order();
    let courier_id = fresh_uuid();

    order.assign_courier(courier_id).expect("assign");
    assert_eq!(order.status, OrderStatus::CourierAssigned);
    assert_eq!(order.assigned_courier_id, Some(courier_id));

    order.start_transit().expect("start transit");
    assert_eq!(order.status, OrderStatus::InTransit);

    order.deliver(now()).expect("deliver");
    assert_eq!(order.status, OrderStatus::Delivered);
    assert!(order.delivered_at.is_some());
}

#[test]
fn cannot_deliver_before_pickup() {
    let mut order = sample_order();
    order.assign_courier(fresh_uuid()).expect("assign");
    let err = order.deliver(now()).expect_err("direct delivery must fail");
    assert!(matches!(err, DomainError::InvalidTransition(_)));
}

#[test]
fn cannot_assign_courier_twice() {
    let mut order = sample_order();
    order.assign_courier(fresh_uuid()).expect("assign once");
    let err = order.assign_courier(fresh_uuid()).unwrap_err();
    assert!(matches!(err, DomainError::InvalidTransition(_)));
}

#[test]
fn cannot_deliver_a_pending_order() {
    let mut order = sample_order();
    let err = order.deliver(now()).unwrap_err();
    assert!(matches!(err, DomainError::InvalidTransition(_)));
}

#[test]
fn cancelled_order_cannot_be_delivered() {
    let mut order = sample_order();
    order.cancel().expect("cancel");
    let err = order.deliver(now()).unwrap_err();
    assert!(matches!(err, DomainError::InvalidTransition(_)));
}

#[test]
fn rejected_courier_assignment_is_not_saved() {
    let mut order = sample_order();
    let err = order.assign_courier(0).unwrap_err();
    assert!(matches!(err, DomainError::Validation(_)));
    assert!(order.assigned_courier_id.is_none());
    assert_eq!(order.status, OrderStatus::Pending);
}

#[test]
fn in_transit_order_can_be_returned() {
    let mut order = sample_order();
    order.assign_courier(fresh_uuid()).expect("assign");
    order.start_transit().expect("start transit");
    order.return_order(now()).expect("return");
    assert_eq!(order.status, OrderStatus::Returned);
    assert!(order.returned_at.is_some());
}

#[test]
fn delivered_order_can_later_be_returned() {
    let mut order = sample_order();
    order.assign_courier(fresh_uuid()).expect("assign");
    order.start_transit().expect("start transit");
    order.deliver(now()).expect("deliver");
    order.return_order(now()).expect("return after delivery");
    assert_eq!(order.status, OrderStatus::Returned);
}

#[test]
fn pending_order_cannot_be_returned() {
    let mut order = sample_order();
    let err = order.return_order(now()).unwrap_err();
    assert!(matches!(err, DomainError::InvalidTransition(_)));
}

#[test]
fn payment_method_round_trip_strings() {
    for variant in [
        PaymentMethod::Cash,
        PaymentMethod::Card,
        PaymentMethod::Qr,
        PaymentMethod::Wallet,
    ] {
        assert_eq!(variant.as_str().parse::<PaymentMethod>(), Ok(variant));
    }
}

#[test]
fn cannot_confirm_payment_before_a_method_is_chosen() {
    let mut order = sample_order();
    let err = order.mark_payment_collected().unwrap_err();
    assert!(matches!(err, DomainError::InvalidTransition(_)));
}

#[test]
fn confirming_payment_twice_is_rejected() {
    let mut order = sample_order();
    order.set_payment_method(PaymentMethod::Cash);
    order.mark_payment_collected().expect("first confirmation");
    let err = order.mark_payment_collected().unwrap_err();
    assert!(matches!(err, DomainError::InvalidTransition(_)));
}

#[test]
fn delivery_note_and_contact_phone_are_stored_when_present() {
    let order = Order::create(
        OrderId::new(),
        fresh_uuid(),
        sample_address("pickup"),
        sample_address("dropoff"),
        Money::new(1_500, "TRY").unwrap(),
        now(),
        Some("Kapıcıya bırakın".to_string()),
        Some("+905551234567".to_string()),
    )
    .expect("valid order");
    assert_eq!(order.delivery_note, Some("Kapıcıya bırakın".to_string()));
    assert_eq!(order.contact_phone, Some("+905551234567".to_string()));
}

#[test]
fn blank_delivery_note_and_contact_phone_are_normalized_to_none() {
    let order = Order::create(
        OrderId::new(),
        fresh_uuid(),
        sample_address("pickup"),
        sample_address("dropoff"),
        Money::new(1_500, "TRY").unwrap(),
        now(),
        Some("   ".to_string()),
        Some("".to_string()),
    )
    .expect("valid order");
    assert!(order.delivery_note.is_none());
    assert!(order.contact_phone.is_none());
}

#[test]
fn returned_order_cannot_be_returned_again() {
    let mut order = sample_order();
    order.assign_courier(fresh_uuid()).expect("assign");
    order.start_transit().expect("start transit");
    order.return_order(now()).expect("first return");
    let err = order.return_order(now()).unwrap_err();
    assert!(matches!(err, DomainError::InvalidTransition(_)));
}

#[test]
fn sample_order_starts_pending() {
    let order = sample_order();
    assert_eq!(order.status, OrderStatus::Pending);
}

// ---- further cases ----

#[test]
fn transition_errors_quote_the_status_name() {
    let mut order = sample_order();
    order.cancel().unwrap();
    assert_eq!(
        order.assign_courier(fresh_uuid()).unwrap_err(),
        DomainError::InvalidTransition(
            "cannot assign a courier to an order in status Cancelled".to_string()
        )
    );
    assert_eq!(
        order.start_transit().unwrap_err(),
        DomainError::InvalidTransition("cannot start transit from status Cancelled".to_string())
    );
}

#[test]
fn order_requires_customer() {
    let err = Order::create(
        OrderId::new(),
        0,
        sample_address("pickup"),
        sample_address("dropoff"),
        Money::new(1_500, "TRY").unwrap(),
        now(),
        None,
        None,
    )
    .unwrap_err();
    assert_eq!(err, DomainError::Validation("customer id is required".to_string()));
}

#[test]
fn pickup_evidence_must_be_an_uploaded_photo() {
    let mut order = sample_order();
    assert!(matches!(
        order.record_pickup_evidence("https://example.com/x.jpg".to_string()),
        Err(DomainError::Validation(_))
    ));
    assert!(order.pickup_photo_evidence_url.is_none());
    order
        .record_pickup_evidence("/v1/uploads/delivery-photos/a.jpg".to_string())
        .unwrap();
    assert_eq!(
        order
            .record_pickup_evidence("/v1/uploads/pickup-photos/b.jpg".to_string())
            .unwrap_err(),
        DomainError::InvalidTransition("pickup evidence is already recorded".to_string())
    );
    assert_eq!(
        order.pickup_photo_evidence_url.as_deref(),
        Some("/v1/uploads/delivery-photos/a.jpg")
    );
}

#[test]
fn assigned_courier_reports_missing_courier() {
    let mut order = sample_order();
    assert_eq!(
        order.assigned_courier(),
        Err(DomainError::NotFound("order has no assigned courier".to_string()))
    );
    let courier = fresh_uuid();
    order.assign_courier(courier).unwrap();
    assert_eq!(order.assigned_courier(), Ok(courier));
}

#[test]
fn order_status_text_round_trip() {
    for s in [
        OrderStatus::Pending,
        OrderStatus::CourierAssigned,
        OrderStatus::InTransit,
        OrderStatus::Delivered,
        OrderStatus::Cancelled,
        OrderStatus::Returned,
    ] {
        assert_eq!(s.as_str().parse::<OrderStatus>(), Ok(s));
    }
    assert_eq!(OrderStatus::InTransit.as_str(), "in_transit");
    assert!("In_Transit".parse::<OrderStatus>().is_err());
}
