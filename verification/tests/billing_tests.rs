use chrono::{Duration, Utc};
use qervon::billing::{CourierPayout, Invoice, InvoiceId, InvoiceStatus, PayoutStatus};
use qervon::error::DomainError;
use qervon::money::Money;
use qervon::order::OrderId;
use uuid::Uuid;

fn now() -> i64 {
    Utc::now().timestamp_micros()
}

fn in_days(days: i64) -> i64 {
    (Utc::now() + Duration::days(days)).timestamp_micros()
}

fn fresh_uuid() -> u128 {
    Uuid::now_v7().as_u128()
}

fn sample_invoice() -> Invoice {
    Invoice::create(
        InvoiceId::new(),
        OrderId::new(),
        fresh_uuid(),
        Money::new(5_000, "TRY").unwrap(),
        now(),
    )
    .expect("valid invoice")
}

fn sample_payout(gross: i64, commission: i64) -> Result<CourierPayout, DomainError> {
    CourierPayout::create(
        fresh_uuid(),
        now(),
        in_days(7),
        Money::new(gross, "TRY").unwrap(),
        Money::new(commission, "TRY").unwrap(),
        now(),
    )
}

#[test]
fn invoice_starts_as_draft() {
    let inv = sample_invoice();
    assert_eq!(inv.status, InvoiceStatus::Draft);
    assert!(inv.issued_at.is_none());
    assert!(inv.paid_at.is_none());
}

#[test]
fn invoice_full_lifecycle_draft_issue_pay_refund() {
    let mut inv = sample_invoice();
    inv.issue(now()).expect("issue");
    assert_eq!(inv.status, InvoiceStatus::Issued);

    inv.pay(now()).expect("pay");
    assert_eq!(inv.status, InvoiceStatus::Paid);
    assert!(inv.paid_at.is_some());

    inv.refund().expect("refund");
    assert_eq!(inv.status, InvoiceStatus::Refunded);
}

#[test]
fn cannot_pay_a_draft_invoice() {
    let mut inv = sample_invoice();
    let err = inv.pay(now()).unwrap_err();
    assert!(matches!(err, DomainError::InvalidTransition(_)));
}

#[test]
fn cannot_refund_an_issued_invoice() {
    let mut inv = sample_invoice();
    inv.issue(now()).expect("issue");
    let err = inv.refund().unwrap_err();
    assert!(matches!(err, DomainError::InvalidTransition(_)));
}

#[test]
fn rejects_zero_amount_invoice() {
    let result = Invoice::create(
        InvoiceId::new(),
        OrderId::new(),
        fresh_uuid(),
        Money::new(0, "TRY").unwrap(),
        now(),
    );
    assert!(result.is_err());
}

#[test]
fn payout_calculates_net_amount() {
    let payout = sample_payout(10_000, 1_500).expect("valid payout");
    assert_eq!(payout.net_amount.amount_minor, 8_500);
    assert_eq!(payout.status, PayoutStatus::Pending);
}

#[test]
fn payout_rejects_commission_exceeding_gross() {
    let result = sample_payout(1_000, 2_000);
    assert!(result.is_err());
}

#[test]
fn payout_lifecycle_pending_approve_paid() {
    let mut payout = sample_payout(10_000, 1_500).expect("valid payout");
    payout.approve().expect("approve");
    assert_eq!(payout.status, PayoutStatus::Approved);
    payout.mark_paid().expect("paid");
    assert_eq!(payout.status, PayoutStatus::Paid);
}

#[test]
fn cannot_mark_pending_payout_as_paid() {
    let mut payout = sample_payout(10_000, 1_500).expect("valid payout");
    let err = payout.mark_paid().unwrap_err();
    assert!(matches!(err, DomainError::InvalidTransition(_)));
}

// ---- further cases ----

#[test]
fn invoice_transition_errors_name_the_current_status() {
    let mut inv = sample_invoice();
    let err = inv.pay(now()).unwrap_err();
    assert_eq!(
        err,
        DomainError::InvalidTransition("cannot pay an invoice in status draft".to_string())
    );
    inv.cancel().expect("cancel a draft");
    assert_eq!(inv.status, InvoiceStatus::Cancelled);
    let err = inv.issue(now()).unwrap_err();
    assert_eq!(
        err,
        DomainError::InvalidTransition("cannot issue an invoice in status cancelled".to_string())
    );
    assert_eq!(inv.status, InvoiceStatus::Cancelled);
}

#[test]
fn invoice_requires_a_customer() {
    let err = Invoice::create(
        InvoiceId::new(),
        OrderId::new(),
        0,
        Money::new(100, "TRY").unwrap(),
        now(),
    )
    .unwrap_err();
    assert_eq!(err, DomainError::Validation("customer id is required".to_string()));
}

#[test]
fn paid_invoice_cannot_be_cancelled() {
    let mut inv = sample_invoice();
    inv.issue(now()).unwrap();
    inv.pay(now()).unwrap();
    assert!(matches!(inv.cancel(), Err(DomainError::InvalidTransition(_))));
    assert_eq!(inv.status, InvoiceStatus::Paid);
}

#[test]
fn payout_validations_come_in_order() {
    let t = now();
    let nil = CourierPayout::create(
        0,
        t,
        t + 1,
        Money::new(10, "TRY").unwrap(),
        Money::new(1, "TRY").unwrap(),
        t,
    );
    assert_eq!(nil.unwrap_err(), DomainError::Validation("courier id is required".into()));
    let backwards = CourierPayout::create(
        fresh_uuid(),
        t,
        t,
        Money::new(10, "TRY").unwrap(),
        Money::new(1, "TRY").unwrap(),
        t,
    );
    assert_eq!(
        backwards.unwrap_err(),
        DomainError::Validation("period end must be after period start".into())
    );
    let mixed = CourierPayout::create(
        fresh_uuid(),
        t,
        t + 1,
        Money::new(10, "TRY").unwrap(),
        Money::new(1, "EUR").unwrap(),
        t,
    );
    assert_eq!(
        mixed.unwrap_err(),
        DomainError::Validation("gross amount and commission must share the same currency".into())
    );
}

#[test]
fn payout_with_equal_commission_nets_zero() {
    let payout = sample_payout(2_000, 2_000).expect("valid payout");
    assert_eq!(payout.net_amount.amount_minor, 0);
    assert_eq!(payout.net_amount.currency, "TRY");
    assert_ne!(payout.id, 0);
}

#[test]
fn invoice_and_payout_status_text_round_trip() {
    for s in [
        InvoiceStatus::Draft,
        InvoiceStatus::Issued,
        InvoiceStatus::Paid,
        InvoiceStatus::Cancelled,
        InvoiceStatus::Refunded,
    ] {
        assert_eq!(s.as_str().parse::<InvoiceStatus>(), Ok(s));
    }
    for s in [PayoutStatus::Pending, PayoutStatus::Approved, PayoutStatus::Paid] {
        assert_eq!(s.as_str().parse::<PayoutStatus>(), Ok(s));
    }
    assert_eq!(
        "void".parse::<InvoiceStatus>(),
        Err(DomainError::Validation("unknown invoice status: void".into()))
    );
}
