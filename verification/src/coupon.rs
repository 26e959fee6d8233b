use vstd::prelude::*;

use crate::error::{fails_transition, fails_validation, transition_error, validation_error, DomainError};
use crate::float_bits::{le, le_spec, ZERO_BITS};
use crate::platform::{new_id, uuid_version};
use crate::tenant::TenantId;
use crate::text::{to_uppercase, trim, trim_spec, uppercase_of};

verus! {

/// The bit pattern of `100.0`.
pub const HUNDRED_BITS: u64 = 0x4059_0000_0000_0000u64;

/// A tenant's discount coupon. `discount_percent_bits` is an `f64` percentage
/// carried as its IEEE-754 bit pattern; timestamps are microseconds since the
/// Unix epoch.
#[derive(Debug, Clone, PartialEq)]
pub struct Coupon {
    pub id: u128,
    pub tenant_id: TenantId,
    pub code: String,
    pub discount_percent_bits: u64,
    pub max_discount_minor: i64,
    pub valid_until: i64,
    pub usage_limit: u32,
    pub used_count: u32,
    pub is_active: bool,
    pub created_at: i64,
}

/// The message of the first check that a coupon with the (already
/// normalised) `code` fails, if any.
pub open spec fn coupon_error(
    code: Seq<char>,
    discount_percent_bits: u64,
    max_discount_minor: i64,
    usage_limit: u32,
) -> Option<Seq<char>> {
    if code.len() == 0 {
        Some("coupon code is required"@)
    } else if !(le_spec(ZERO_BITS, discount_percent_bits) && le_spec(
        discount_percent_bits,
        HUNDRED_BITS,
    )) {
        Some("discount percent must be between 0 and 100"@)
    } else if max_discount_minor < 0 {
        Some("max discount amount cannot be negative"@)
    } else if usage_limit == 0 {
        Some("usage limit must be positive"@)
    } else {
        None
    }
}

/// The coupon code as stored: trimmed, then upper-cased.
pub open spec fn normalized_code(code: Seq<char>) -> Seq<char> {
    uppercase_of(trim_spec(code))
}

/// The coupon can be redeemed at `now`.
pub open spec fn redeemable(c: Coupon, now: i64) -> bool {
    c.is_active && now <= c.valid_until && c.used_count < c.usage_limit
}

impl Coupon {
    /// A coupon whose code is `code` trimmed and upper-cased.
    pub fn create(
        tenant_id: TenantId,
        code: &str,
        discount_percent_bits: u64,
        max_discount_minor: i64,
        valid_until: i64,
        usage_limit: u32,
        now: i64,
    ) -> (r: Result<Coupon, DomainError>)
        ensures
            match coupon_error(
                normalized_code(code@),
                discount_percent_bits,
                max_discount_minor,
                usage_limit,
            ) {
                Some(m) => fails_validation(r, m),
                None => r matches Ok(c) && c.code@ == normalized_code(code@) && c.id != 0
                    && uuid_version(c.id) == 7 && c.tenant_id == tenant_id
                    && c.discount_percent_bits == discount_percent_bits && c.max_discount_minor
                    == max_discount_minor && c.valid_until == valid_until && c.usage_limit
                    == usage_limit && c.used_count == 0 && c.is_active && c.created_at == now,
            },
    {
        let normalized = to_uppercase(trim(code));
        Coupon::create_normalized(
            tenant_id,
            normalized,
            discount_percent_bits,
            max_discount_minor,
            valid_until,
            usage_limit,
            now,
        )
    }

    /// The checks and construction that follow the normalisation of the code:
    /// `code` is taken as already trimmed and upper-cased.
    pub fn create_normalized(
        tenant_id: TenantId,
        code: String,
        discount_percent_bits: u64,
        max_discount_minor: i64,
        valid_until: i64,
        usage_limit: u32,
        now: i64,
    ) -> (r: Result<Coupon, DomainError>)
        ensures
            match coupon_error(code@, discount_percent_bits, max_discount_minor, usage_limit) {
                Some(m) => fails_validation(r, m),
                None => r matches Ok(c) && c.code == code && c.id != 0 && uuid_version(c.id) == 7
                    && c.tenant_id == tenant_id && c.discount_percent_bits == discount_percent_bits
                    && c.max_discount_minor == max_discount_minor && c.valid_until == valid_until
                    && c.usage_limit == usage_limit && c.used_count == 0 && c.is_active
                    && c.created_at == now,
            },
    {
        if code.unicode_len() == 0 {
            return Err(validation_error("coupon code is required"));
        }
        if !(le(ZERO_BITS, discount_percent_bits) && le(discount_percent_bits, HUNDRED_BITS)) {
            return Err(validation_error("discount percent must be between 0 and 100"));
        }
        if max_discount_minor < 0 {
            return Err(validation_error("max discount amount cannot be negative"));
        }
        if usage_limit == 0 {
            return Err(validation_error("usage limit must be positive"));
        }
        Ok(
            Coupon {
                id: new_id(),
                tenant_id,
                code,
                discount_percent_bits,
                max_discount_minor,
                valid_until,
                usage_limit,
                used_count: 0,
                is_active: true,
                created_at: now,
            },
        )
    }

    pub fn is_redeemable(&self, now: i64) -> (b: bool)
        ensures
            b == redeemable(*self, now),
    {
        self.is_active && now <= self.valid_until && self.used_count < self.usage_limit
    }

    /// Records one redemption of a redeemable coupon.
    pub fn redeem(&mut self, now: i64) -> (r: Result<(), DomainError>)
        ensures
            redeemable(*old(self), now) ==> r is Ok && *final(self) == (Coupon {
                used_count: (old(self).used_count + 1) as u32,
                ..*old(self)
            }),
            !redeemable(*old(self), now) ==> *final(self) == *old(self) && fails_transition(
                r,
                "coupon is expired, inactive, or has reached its usage limit"@,
            ),
            old(self).used_count <= old(self).usage_limit ==> final(self).used_count
                <= final(self).usage_limit,
    {
        if !self.is_redeemable(now) {
            return Err(
                transition_error("coupon is expired, inactive, or has reached its usage limit"),
            );
        }
        self.used_count = self.used_count + 1;
        Ok(())
    }

    pub fn deactivate(&mut self)
        ensures
            *final(self) == (Coupon { is_active: false, ..*old(self) }),
    {
        self.is_active = false;
    }
}

} // verus!
