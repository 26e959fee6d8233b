use qervon::billing::{InvoiceStatus, PayoutStatus};
use qervon::courier::{CourierStatus, VehicleType};
use qervon::dispatch::AssignmentStatus;
use qervon::fleet::VehicleStatus;
use qervon::customer_feedback::TicketStatus;
use qervon::error::DomainError;
use qervon::order::{OrderId, OrderStatus, PaymentMethod};
use qervon::rows::{
    db_vehicle_status, CourierPayoutRow, CourierRow, CustomerRatingRow, InvoiceRow, OrderRow,
    OtpChallengeRow, ProofOfDeliveryRow, SupportTicketRow, VehicleRow,
};
use qervon::tenant::TenantId;

fn order_row() -> OrderRow {
    OrderRow {
        id: 7,
        customer_id: 11,
        pickup_lat_bits: 41.0f64.to_bits(),
        pickup_lon_bits: 29.0f64.to_bits(),
        pickup_label: Some("pickup".to_string()),
        dropoff_lat_bits: 41.1f64.to_bits(),
        dropoff_lon_bits: 29.1f64.to_bits(),
        dropoff_label: None,
        status: "in_transit".to_string(),
        fare_amount_minor: 1_500,
        fare_currency: "TRY".to_string(),
        assigned_courier_id: Some(13),
        created_at: 1_000,
        delivered_at: None,
        returned_at: None,
        payment_method: Some("cash".to_string()),
        payment_collected: false,
        delivery_note: Some("ring twice".to_string()),
        contact_phone: None,
        pickup_photo_evidence_url: None,
    }
}

#[test]
fn order_row_decodes_every_column() {
    let order = order_row().into_domain().unwrap();
    assert_eq!(order.id, OrderId(7));
    assert_eq!(order.status, OrderStatus::InTransit);
    assert_eq!(order.fare.amount_minor, 1_500);
    assert_eq!(order.fare.currency, "TRY");
    assert_eq!(order.payment_method, Some(PaymentMethod::Cash));
    assert_eq!(order.pickup.label.as_deref(), Some("pickup"));
    assert_eq!(order.assigned_courier_id, Some(13));
    assert_eq!(order.delivery_note.as_deref(), Some("ring twice"));
}

#[test]
fn order_row_reports_the_first_bad_column() {
    let mut row = order_row();
    row.pickup_lat_bits = 95.0f64.to_bits();
    row.status = "lost".to_string();
    assert_eq!(
        row.into_domain().unwrap_err(),
        DomainError::Validation("latitude must be within [-90, 90]".to_string())
    );

    let mut row = order_row();
    row.status = "lost".to_string();
    assert_eq!(
        row.into_domain().unwrap_err(),
        DomainError::Validation("unknown order status: lost".to_string())
    );

    let mut row = order_row();
    row.fare_currency = "try".to_string();
    assert_eq!(
        row.into_domain().unwrap_err(),
        DomainError::Validation("currency must be a 3-letter ISO 4217 code".to_string())
    );

    let mut row = order_row();
    row.payment_method = Some("barter".to_string());
    assert_eq!(
        row.into_domain().unwrap_err(),
        DomainError::Validation("unknown payment method: barter".to_string())
    );
}

#[test]
fn invoice_and_payout_rows_decode() {
    let invoice = InvoiceRow {
        id: 1,
        order_id: 2,
        customer_id: 3,
        amount_minor: 5_000,
        currency: "TRY".to_string(),
        status: "issued".to_string(),
        created_at: 10,
        issued_at: Some(20),
        paid_at: None,
    }
    .into_domain()
    .unwrap();
    assert_eq!(invoice.status, InvoiceStatus::Issued);
    assert_eq!(invoice.amount.amount_minor, 5_000);

    let payout = CourierPayoutRow {
        id: 1,
        courier_id: 2,
        period_start: 0,
        period_end: 100,
        gross_amount_minor: 10_000,
        commission_amount_minor: 1_500,
        net_amount_minor: 8_500,
        currency: "TRY".to_string(),
        status: "pending".to_string(),
        created_at: 100,
    };
    let payout = payout.into_domain().unwrap();
    assert_eq!(payout.status, PayoutStatus::Pending);
    assert_eq!(payout.net_amount.amount_minor, 8_500);

    let bad = CourierPayoutRow {
        id: 1,
        courier_id: 2,
        period_start: 0,
        period_end: 100,
        gross_amount_minor: 10_000,
        commission_amount_minor: -1,
        net_amount_minor: 8_500,
        currency: "TRY".to_string(),
        status: "pending".to_string(),
        created_at: 100,
    };
    assert_eq!(
        bad.into_domain().unwrap_err(),
        DomainError::Validation("amount cannot be negative".to_string())
    );
}

#[test]
fn ticket_rating_and_proof_rows_decode() {
    let ticket = SupportTicketRow {
        id: 1,
        tenant_id: 2,
        customer_id: 3,
        order_id: None,
        subject: "Late".to_string(),
        message: "Where is my parcel?".to_string(),
        status: "open".to_string(),
        created_at: 5,
    };
    let ticket = ticket.into_domain().unwrap();
    assert_eq!(ticket.status, TicketStatus::Open);
    assert_eq!(ticket.tenant_id, TenantId(2));

    let unknown = SupportTicketRow {
        id: 1,
        tenant_id: 2,
        customer_id: 3,
        order_id: None,
        subject: "Late".to_string(),
        message: "Where is my parcel?".to_string(),
        status: "archived".to_string(),
        created_at: 5,
    };
    assert!(matches!(unknown.into_domain(), Err(DomainError::Validation(_))));

    let rating = CustomerRatingRow {
        id: 1,
        order_id: 2,
        customer_id: 3,
        courier_id: 4,
        rating_stars: 5,
        comment: None,
        photo_url: None,
        created_at: 6,
    }
    .into_domain();
    assert_eq!(rating.rating_stars, 5);

    let proof = ProofOfDeliveryRow {
        id: 1,
        order_id: 2,
        courier_id: 3,
        recipient_name: "Teslim Alan".to_string(),
        qr_barcode_verified: true,
        digital_signature_base64: None,
        photo_evidence_url: None,
        delivered_at: 9,
    }
    .into_domain();
    assert_eq!(proof.recipient_name, "Teslim Alan");
    assert_eq!(proof.order_id, 2);
}

#[test]
fn enum_round_trip_strings_match_migrations() {
    assert_eq!(OrderStatus::Pending.as_str(), "pending");
    assert_eq!(
        "courier_assigned".parse::<OrderStatus>().unwrap(),
        OrderStatus::CourierAssigned
    );
    assert_eq!(CourierStatus::Available.as_str(), "available");
    assert_eq!(VehicleType::Motorcycle.as_str(), "motorcycle");
    assert_eq!(AssignmentStatus::Assigned.as_str(), "assigned");
}

fn vehicle_row(plate: Option<&str>, status: &str, kind: &str) -> VehicleRow {
    VehicleRow {
        id: 1,
        courier_id: None,
        kind: kind.to_string(),
        plate: plate.map(|p| p.to_string()),
        status: status.to_string(),
        insurance_expiry: None,
        created_at: 3,
    }
}

#[test]
fn vehicle_rows_use_the_store_status_words() {
    assert_eq!(db_vehicle_status(VehicleStatus::Active), "operational");
    assert_eq!(db_vehicle_status(VehicleStatus::Maintenance), "maintenance");
    assert_eq!(db_vehicle_status(VehicleStatus::Decommissioned), "retired");

    let v = vehicle_row(Some("34 QV 1"), "retired", "motorcycle").into_domain().unwrap();
    assert_eq!(v.status, VehicleStatus::Decommissioned);
    assert_eq!(v.vehicle_type, VehicleType::Motorcycle);
    assert_eq!(v.plate_number, "34 QV 1");

    assert_eq!(
        vehicle_row(Some("   "), "operational", "car").into_domain().unwrap_err(),
        DomainError::Validation("vehicle plate is missing".to_string())
    );
    assert_eq!(
        vehicle_row(None, "operational", "car").into_domain().unwrap_err(),
        DomainError::Validation("vehicle plate is missing".to_string())
    );
    assert_eq!(
        vehicle_row(Some("34 QV 1"), "active", "car").into_domain().unwrap_err(),
        DomainError::Validation("unknown vehicle status: active".to_string())
    );
    assert!(vehicle_row(Some("34 QV 1"), "operational", "rocket").into_domain().is_err());
}

#[test]
fn courier_rows_keep_a_location_only_with_both_coordinates() {
    let both = CourierRow {
        id: 1,
        name: "Ayşe".to_string(),
        vehicle: "car".to_string(),
        status: "busy".to_string(),
        current_lat_bits: Some(41.0f64.to_bits()),
        current_lon_bits: Some(29.0f64.to_bits()),
        registered_at: 0,
    }
    .into_domain()
    .unwrap();
    assert!(both.current_location.is_some());
    assert_eq!(both.status, CourierStatus::Busy);

    let half = CourierRow {
        id: 1,
        name: "Ayşe".to_string(),
        vehicle: "car".to_string(),
        status: "busy".to_string(),
        current_lat_bits: Some(41.0f64.to_bits()),
        current_lon_bits: None,
        registered_at: 0,
    }
    .into_domain()
    .unwrap();
    assert!(half.current_location.is_none());

    let bad = CourierRow {
        id: 1,
        name: "Ayşe".to_string(),
        vehicle: "car".to_string(),
        status: "busy".to_string(),
        current_lat_bits: Some(41.0f64.to_bits()),
        current_lon_bits: Some(200.0f64.to_bits()),
        registered_at: 0,
    };
    assert_eq!(
        bad.into_domain().unwrap_err(),
        DomainError::Validation("longitude must be within [-180, 180]".to_string())
    );
}

#[test]
fn otp_rows_keep_the_low_byte_of_the_attempts() {
    let c = OtpChallengeRow {
        id: 1,
        tenant_id: 2,
        phone: "+905551112233".to_string(),
        code_hash: "h".to_string(),
        attempts: 3,
        created_at: 0,
        expires_at: 10,
        consumed_at: None,
    }
    .into_domain();
    assert_eq!(c.attempts, 3);
    assert_eq!(c.tenant_id, TenantId(2));
}
