use vstd::prelude::*;

use crate::error::{fails_transition, fails_validation, transition_error, validation_error, DomainError};
use crate::platform::{new_id, uuid_version};
use crate::tenant::TenantId;
use crate::text::{is_blank, is_blank_spec, text_eq};

verus! {

/// Maximum number of verification attempts per challenge before it is
/// permanently rejected, independent of expiry.
pub const OTP_MAX_ATTEMPTS: u8 = 5u8;

/// A one-time-password challenge sent to a phone. Timestamps are microseconds
/// since the Unix epoch.
#[derive(Debug, Clone, PartialEq, Eq)]
pub struct OtpChallenge {
    pub id: u128,
    pub tenant_id: TenantId,
    pub phone: String,
    pub code_hash: String,
    pub attempts: u8,
    pub created_at: i64,
    pub expires_at: i64,
    pub consumed_at: Option<i64>,
}

/// The message of the first check that `OtpChallenge::issue` fails, if any.
pub open spec fn otp_issue_error(phone: Seq<char>, code_hash: Seq<char>, ttl: i64) -> Option<
    Seq<char>,
> {
    if is_blank_spec(phone) {
        Some("phone number is required"@)
    } else if is_blank_spec(code_hash) {
        Some("code hash is required"@)
    } else if ttl <= 0 {
        Some("otp lifetime must be positive"@)
    } else {
        None
    }
}

/// Why `verify` refuses to check a code at all, if it does: the challenge is
/// consumed, expired, or out of attempts.
pub open spec fn otp_closed_reason(c: OtpChallenge, now: i64) -> Option<Seq<char>> {
    if c.consumed_at is Some {
        Some("otp challenge already consumed"@)
    } else if now >= c.expires_at {
        Some("otp challenge expired"@)
    } else if c.attempts >= OTP_MAX_ATTEMPTS {
        Some("otp verification attempt limit exceeded"@)
    } else {
        None
    }
}

impl OtpChallenge {
    /// The attempt limit (`OTP_MAX_ATTEMPTS`).
    pub const MAX_ATTEMPTS: u8 = 5u8;

    /// A fresh challenge living `ttl` microseconds from `now`.
    pub fn issue(tenant_id: TenantId, phone: &str, code_hash: &str, now: i64, ttl: i64) -> (r:
        Result<OtpChallenge, DomainError>)
        requires
            otp_issue_error(phone@, code_hash@, ttl) is None ==> now + ttl <= i64::MAX,
        ensures
            match otp_issue_error(phone@, code_hash@, ttl) {
                Some(m) => fails_validation(r, m),
                None => r matches Ok(c) && c.id != 0 && uuid_version(c.id) == 7 && c.tenant_id
                    == tenant_id && c.phone@ == phone@ && c.code_hash@ == code_hash@ && c.attempts
                    == 0 && c.created_at == now && c.expires_at == now + ttl && c.consumed_at is None,
            },
    {
        if is_blank(phone) {
            return Err(validation_error("phone number is required"));
        }
        if is_blank(code_hash) {
            return Err(validation_error("code hash is required"));
        }
        if ttl <= 0 {
            return Err(validation_error("otp lifetime must be positive"));
        }
        Ok(
            OtpChallenge {
                id: new_id(),
                tenant_id,
                phone: phone.to_owned(),
                code_hash: code_hash.to_owned(),
                attempts: 0,
                created_at: now,
                expires_at: now + ttl,
                consumed_at: None,
            },
        )
    }

    pub fn is_expired(&self, now: i64) -> (b: bool)
        ensures
            b == (now >= self.expires_at),
    {
        now >= self.expires_at
    }

    pub fn is_consumed(&self) -> (b: bool)
        ensures
            b == self.consumed_at is Some,
    {
        self.consumed_at.is_some()
    }

    /// Checks a caller-supplied hash of the entered code. Every check of an
    /// open challenge consumes one attempt; a closed (consumed, expired or
    /// exhausted) challenge is refused without consuming one. On success the
    /// challenge is consumed and can never be verified again.
    pub fn verify(&mut self, provided_code_hash: &str, now: i64) -> (r: Result<(), DomainError>)
        ensures
            old(self).attempts <= OTP_MAX_ATTEMPTS ==> final(self).attempts <= OTP_MAX_ATTEMPTS,
            old(self).consumed_at is Some ==> r is Err && *final(self) == *old(self),
            r is Ok ==> final(self).consumed_at == Some(now),
            match otp_closed_reason(*old(self), now) {
                Some(m) => *final(self) == *old(self) && fails_transition(r, m),
                None => if old(self).code_hash@ == provided_code_hash@ {
                    r is Ok && *final(self) == (OtpChallenge {
                        attempts: (old(self).attempts + 1) as u8,
                        consumed_at: Some(now),
                        ..*old(self)
                    })
                } else {
                    *final(self) == (OtpChallenge {
                        attempts: (old(self).attempts + 1) as u8,
                        ..*old(self)
                    }) && fails_validation(r, "invalid otp code"@)
                },
            },
    {
        if self.is_consumed() {
            return Err(transition_error("otp challenge already consumed"));
        }
        if self.is_expired(now) {
            return Err(transition_error("otp challenge expired"));
        }
        if self.attempts >= OTP_MAX_ATTEMPTS {
            return Err(transition_error("otp verification attempt limit exceeded"));
        }
        self.attempts = self.attempts + 1;
        if !text_eq(self.code_hash.as_str(), provided_code_hash) {
            return Err(validation_error("invalid otp code"));
        }
        self.consumed_at = Some(now);
        Ok(())
    }
}

} // verus!
