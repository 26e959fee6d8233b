use vstd::prelude::*;

use crate::error::{fails_validation, join_text, validation_error, DomainError};
use crate::platform::{new_id, uuid_version};
use crate::text::{byte_len, is_blank, is_blank_spec, text_byte_len, text_eq};
use crate::user::UserId;

verus! {

/// Mobile platform of a push token.
#[derive(Debug, Clone, Copy, PartialEq, Eq, Structural)]
pub enum PushPlatform {
    Ios,
    Android,
}

impl PushPlatform {
    /// The canonical text of each variant.
    pub open spec fn name(self) -> Seq<char> {
        match self {
            PushPlatform::Ios => "ios"@,
            PushPlatform::Android => "android"@,
        }
    }

    /// The variant whose canonical text is `value`, if any.
    pub open spec fn parse_spec(value: Seq<char>) -> Option<PushPlatform> {
        if value == "ios"@ {
            Some(PushPlatform::Ios)
        } else if value == "android"@ {
            Some(PushPlatform::Android)
        } else {
            None
        }
    }

    /// The message of the error for an unknown text.
    pub open spec fn unknown_message(value: Seq<char>) -> Seq<char> {
        "unknown push platform: "@ + value
    }

    pub fn as_str(&self) -> (s: &'static str)
        ensures
            s@ == self.name(),
    {
        match self {
            PushPlatform::Ios => "ios",
            PushPlatform::Android => "android",
        }
    }

    /// Parses the canonical text of a variant.
    pub fn parse(value: &str) -> (r: Result<PushPlatform, DomainError>)
        ensures
            match PushPlatform::parse_spec(value@) {
                Some(s) => r == Ok::<PushPlatform, DomainError>(s),
                None => fails_validation(r, PushPlatform::unknown_message(value@)),
            },
    {
        if text_eq(value, "ios") {
            Ok(PushPlatform::Ios)
        } else if text_eq(value, "android") {
            Ok(PushPlatform::Android)
        } else {
            Err(DomainError::validation(join_text("unknown push platform: ", value)))
        }
    }
}

impl std::str::FromStr for PushPlatform {
    type Err = DomainError;

    fn from_str(value: &str) -> (r: Result<PushPlatform, DomainError>)
        ensures
            match PushPlatform::parse_spec(value@) {
                Some(s) => r == Ok::<PushPlatform, DomainError>(s),
                None => fails_validation(r, PushPlatform::unknown_message(value@)),
            },
    {
        PushPlatform::parse(value)
    }
}

/// Every variant's canonical text parses back to that variant.
pub proof fn lemma_push_platform_text_round_trip(s: PushPlatform)
    ensures
        PushPlatform::parse_spec(s.name()) == Some(s),
{
    reveal_strlit("ios");
    reveal_strlit("android");
    assert("ios"@.len() != "android"@.len());
}

/// Which native app issued a device token; the two apps have distinct bundle ids,\nso a push provider must pick the matching one.
#[derive(Debug, Clone, Copy, PartialEq, Eq, Structural)]
pub enum AppVariant {
    Courier,
    Customer,
}

impl AppVariant {
    /// The canonical text of each variant.
    pub open spec fn name(self) -> Seq<char> {
        match self {
            AppVariant::Courier => "courier"@,
            AppVariant::Customer => "customer"@,
        }
    }

    /// The variant whose canonical text is `value`, if any.
    pub open spec fn parse_spec(value: Seq<char>) -> Option<AppVariant> {
        if value == "courier"@ {
            Some(AppVariant::Courier)
        } else if value == "customer"@ {
            Some(AppVariant::Customer)
        } else {
            None
        }
    }

    /// The message of the error for an unknown text.
    pub open spec fn unknown_message(value: Seq<char>) -> Seq<char> {
        "unknown app variant: "@ + value
    }

    pub fn as_str(&self) -> (s: &'static str)
        ensures
            s@ == self.name(),
    {
        match self {
            AppVariant::Courier => "courier",
            AppVariant::Customer => "customer",
        }
    }

    /// Parses the canonical text of a variant.
    pub fn parse(value: &str) -> (r: Result<AppVariant, DomainError>)
        ensures
            match AppVariant::parse_spec(value@) {
                Some(s) => r == Ok::<AppVariant, DomainError>(s),
                None => fails_validation(r, AppVariant::unknown_message(value@)),
            },
    {
        if text_eq(value, "courier") {
            Ok(AppVariant::Courier)
        } else if text_eq(value, "customer") {
            Ok(AppVariant::Customer)
        } else {
            Err(DomainError::validation(join_text("unknown app variant: ", value)))
        }
    }
}

impl std::str::FromStr for AppVariant {
    type Err = DomainError;

    fn from_str(value: &str) -> (r: Result<AppVariant, DomainError>)
        ensures
            match AppVariant::parse_spec(value@) {
                Some(s) => r == Ok::<AppVariant, DomainError>(s),
                None => fails_validation(r, AppVariant::unknown_message(value@)),
            },
    {
        AppVariant::parse(value)
    }
}

/// Every variant's canonical text parses back to that variant.
pub proof fn lemma_app_variant_text_round_trip(s: AppVariant)
    ensures
        AppVariant::parse_spec(s.name()) == Some(s),
{
    reveal_strlit("courier");
    reveal_strlit("customer");
    assert("courier"@.len() != "customer"@.len());
}

/// Longest device token accepted, in bytes.
pub const MAX_DEVICE_TOKEN_BYTES: usize = 4_096usize;

/// A device's push registration for a user.
#[derive(Debug, Clone, PartialEq, Eq)]
pub struct DevicePushToken {
    pub id: u128,
    pub user_id: UserId,
    pub platform: PushPlatform,
    pub app_variant: AppVariant,
    pub device_token: String,
    pub created_at: i64,
}

impl DevicePushToken {
    /// A registration with a non-blank token of at most 4096 bytes.
    pub fn register(
        user_id: UserId,
        platform: PushPlatform,
        app_variant: AppVariant,
        device_token: &str,
        now: i64,
    ) -> (r: Result<DevicePushToken, DomainError>)
        ensures
            is_blank_spec(device_token@) ==> fails_validation(r, "device token is required"@),
            !is_blank_spec(device_token@) && byte_len(device_token@) > MAX_DEVICE_TOKEN_BYTES
                ==> fails_validation(r, "device token is too long"@),
            !is_blank_spec(device_token@) && byte_len(device_token@) <= MAX_DEVICE_TOKEN_BYTES
                ==> (r matches Ok(t) && t.id != 0 && uuid_version(t.id) == 7 && t.user_id
                == user_id && t.platform == platform && t.app_variant == app_variant
                && t.device_token@ == device_token@ && t.created_at == now),
    {
        if is_blank(device_token) {
            return Err(validation_error("device token is required"));
        }
        if text_byte_len(device_token) > MAX_DEVICE_TOKEN_BYTES {
            return Err(validation_error("device token is too long"));
        }
        Ok(
            DevicePushToken {
                id: new_id(),
                user_id,
                platform,
                app_variant,
                device_token: device_token.to_owned(),
                created_at: now,
            },
        )
    }
}

} // verus!
