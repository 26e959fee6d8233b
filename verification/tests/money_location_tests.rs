use qervon::error::DomainError;
use qervon::location::Location;
use qervon::money::Money;

fn loc(lat: f64, lon: f64) -> Result<Location, DomainError> {
    Location::new(lat.to_bits(), lon.to_bits())
}

#[test]
fn accepts_positive_amount_with_iso_currency() {
    let money = Money::new(1_000, "TRY").expect("valid money");
    assert_eq!(money.amount_minor, 1_000);
    assert_eq!(money.currency, "TRY");
}

#[test]
fn rejects_negative_amount() {
    assert!(Money::new(-1, "TRY").is_err());
}

#[test]
fn money_rejects_malformed_currency() {
    assert!(Money::new(100, "tru").is_err());
    assert!(Money::new(100, "TR").is_err());
}

#[test]
fn money_zero_is_zero_lira() {
    let z = Money::zero();
    assert_eq!(z.amount_minor, 0);
    assert_eq!(z.currency, "TRY");
}

#[test]
fn money_error_messages() {
    assert_eq!(
        Money::new(-5, "XX").unwrap_err(),
        DomainError::Validation("amount cannot be negative".into())
    );
    assert_eq!(
        Money::new(5, "TRYX").unwrap_err(),
        DomainError::Validation("currency must be a 3-letter ISO 4217 code".into())
    );
    assert_eq!(
        Money::new(5, "TÜR").unwrap_err(),
        DomainError::Validation("currency must be a 3-letter ISO 4217 code".into())
    );
}

#[test]
fn accepts_valid_coordinates() {
    let location = loc(41.0082, 28.9784).expect("valid Istanbul coords");
    assert_eq!(f64::from_bits(location.latitude_bits), 41.0082);
}

#[test]
fn rejects_out_of_range_latitude() {
    assert!(loc(91.0, 0.0).is_err());
    assert!(loc(-91.0, 0.0).is_err());
}

#[test]
fn rejects_non_finite_values() {
    assert!(loc(f64::NAN, 0.0).is_err());
    assert!(loc(0.0, f64::INFINITY).is_err());
}

#[test]
fn location_bounds_are_inclusive() {
    assert!(loc(90.0, 180.0).is_ok());
    assert!(loc(-90.0, -180.0).is_ok());
    assert!(loc(-0.0, 0.0).is_ok());
    assert_eq!(
        loc(0.0, 180.5).unwrap_err(),
        DomainError::Validation("longitude must be within [-180, 180]".into())
    );
    assert_eq!(
        loc(90.000001, 0.0).unwrap_err(),
        DomainError::Validation("latitude must be within [-90, 90]".into())
    );
    assert_eq!(
        loc(f64::NEG_INFINITY, 0.0).unwrap_err(),
        DomainError::Validation("latitude and longitude must be finite numbers".into())
    );
}

#[test]
fn locations_compare_as_numbers() {
    let a = Location::new((-0.0f64).to_bits(), 0.0f64.to_bits()).unwrap();
    let b = Location::new(0.0f64.to_bits(), 0.0f64.to_bits()).unwrap();
    assert_eq!(a, b);
    let c = Location::new(0.5f64.to_bits(), 0.0f64.to_bits()).unwrap();
    assert_ne!(a, c);
}
