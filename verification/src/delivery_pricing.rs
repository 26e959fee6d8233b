use vstd::prelude::*;

use crate::error::{fails_validation, validation_error, DomainError};
use crate::money::{is_currency_code, Money};
use crate::tenant::TenantId;

verus! {

/// Base fare every tenant gets until it configures its own pricing, in minor
/// units of `DEFAULT_CURRENCY`.
pub const DEFAULT_BASE_FARE_MINOR: i64 = 1_000i64;

/// Default rate per kilometre, in minor units.
pub const DEFAULT_PER_KM_RATE_MINOR: i64 = 250i64;

/// Default minimum fare, in minor units.
pub const DEFAULT_MINIMUM_FARE_MINOR: i64 = 1_500i64;

/// Default currency.
pub const DEFAULT_CURRENCY: &'static str = "TRY";

/// A tenant's delivery pricing: `max(minimum, base + per_km * distance)`.
#[derive(Debug, Clone, PartialEq)]
pub struct DeliveryPricing {
    pub tenant_id: TenantId,
    pub base_fare_minor: i64,
    pub per_km_rate_minor: i64,
    pub minimum_fare_minor: i64,
    pub currency: String,
    pub updated_at: i64,
}

impl DeliveryPricing {
    /// A pricing with non-negative amounts in a well-formed currency.
    pub fn new(
        tenant_id: TenantId,
        base_fare_minor: i64,
        per_km_rate_minor: i64,
        minimum_fare_minor: i64,
        currency: &str,
        updated_at: i64,
    ) -> (r: Result<DeliveryPricing, DomainError>)
        ensures
            (base_fare_minor < 0 || per_km_rate_minor < 0 || minimum_fare_minor < 0)
                ==> fails_validation(r, "pricing amounts cannot be negative"@),
            !(base_fare_minor < 0 || per_km_rate_minor < 0 || minimum_fare_minor < 0)
                && !is_currency_code(currency@) ==> fails_validation(
                r,
                "currency must be a 3-letter ISO 4217 code"@,
            ),
            !(base_fare_minor < 0 || per_km_rate_minor < 0 || minimum_fare_minor < 0)
                && is_currency_code(currency@) ==> (r matches Ok(p) && p.tenant_id == tenant_id
                && p.base_fare_minor == base_fare_minor && p.per_km_rate_minor
                == per_km_rate_minor && p.minimum_fare_minor == minimum_fare_minor
                && p.currency@ == currency@ && p.updated_at == updated_at),
    {
        if base_fare_minor < 0 || per_km_rate_minor < 0 || minimum_fare_minor < 0 {
            return Err(validation_error("pricing amounts cannot be negative"));
        }
        let currency = match Money::new(0, currency) {
            Ok(m) => m.currency,
            Err(e) => {
                return Err(e);
            },
        };
        Ok(
            DeliveryPricing {
                tenant_id,
                base_fare_minor,
                per_km_rate_minor,
                minimum_fare_minor,
                currency,
                updated_at,
            },
        )
    }

    /// The pricing every tenant gets until it configures its own.
    pub fn default_for_tenant(tenant_id: TenantId, now: i64) -> (p: DeliveryPricing)
        ensures
            p.tenant_id == tenant_id,
            p.base_fare_minor == DEFAULT_BASE_FARE_MINOR,
            p.per_km_rate_minor == DEFAULT_PER_KM_RATE_MINOR,
            p.minimum_fare_minor == DEFAULT_MINIMUM_FARE_MINOR,
            p.currency@ == DEFAULT_CURRENCY@,
            p.updated_at == now,
    {
        DeliveryPricing {
            tenant_id,
            base_fare_minor: DEFAULT_BASE_FARE_MINOR,
            per_km_rate_minor: DEFAULT_PER_KM_RATE_MINOR,
            minimum_fare_minor: DEFAULT_MINIMUM_FARE_MINOR,
            currency: DEFAULT_CURRENCY.to_owned(),
            updated_at: now,
        }
    }

    /// The fare for a journey whose distance charge, already rounded to minor
    /// units, is `distance_charge_minor`: the base fare plus that charge, but
    /// never less than the minimum fare.
    pub fn fare_with_distance_charge(&self, distance_charge_minor: i64) -> (fare: i64)
        requires
            i64::MIN <= self.base_fare_minor + distance_charge_minor <= i64::MAX,
        ensures
            fare == if self.base_fare_minor + distance_charge_minor >= self.minimum_fare_minor {
                self.base_fare_minor + distance_charge_minor
            } else {
                self.minimum_fare_minor as int
            },
            fare >= self.minimum_fare_minor,
            fare >= self.base_fare_minor + distance_charge_minor,
    {
        let computed = self.base_fare_minor + distance_charge_minor;
        if computed >= self.minimum_fare_minor {
            computed
        } else {
            self.minimum_fare_minor
        }
    }
}

} // verus!
