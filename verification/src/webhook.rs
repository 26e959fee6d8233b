use vstd::prelude::*;

use crate::error::{fails_validation, validation_error, DomainError};
use crate::platform::{new_id, now_micros, uuid_version};
use crate::tenant::TenantId;
use crate::text::{
    all_bytes_hexdigits, all_hex_bytes, byte_len, is_ascii_hexdigit_byte_spec, is_blank, is_blank_spec,
    starts_with, starts_with_spec, text_byte_len,
};

verus! {

/// A tenant's subscription to outgoing webhook events.
#[derive(Debug, Clone, PartialEq)]
pub struct WebhookSubscription {
    pub id: u128,
    pub tenant_id: TenantId,
    pub endpoint_url: String,
    pub event_types: Vec<String>,
    pub secret_hash: String,
    pub enabled: bool,
    pub created_at: i64,
}

/// A 64-character lowercase-or-uppercase hexadecimal digest.
pub open spec fn is_hex_digest(s: Seq<char>) -> bool {
    byte_len(s) == 64 && all_hex_bytes(s)
}

/// Every event type is present and non-blank.
pub open spec fn valid_event_types(event_types: Seq<String>) -> bool {
    event_types.len() > 0 && forall|k: int|
        0 <= k < event_types.len() ==> !is_blank_spec(#[trigger] event_types[k]@)
}

/// The message of the first check that `WebhookSubscription::create` fails, if any.
pub open spec fn webhook_error(
    endpoint_url: Seq<char>,
    event_types: Seq<String>,
    secret_hash: Seq<char>,
) -> Option<Seq<char>> {
    if !starts_with_spec(endpoint_url, "https://"@) {
        Some("webhook endpoint must use HTTPS"@)
    } else if !valid_event_types(event_types) {
        Some("at least one webhook event is required"@)
    } else if !is_hex_digest(secret_hash) {
        Some("webhook secret hash is invalid"@)
    } else {
        None
    }
}

fn check_event_types(event_types: &Vec<String>) -> (b: bool)
    ensures
        b == valid_event_types(event_types@),
{
    let n = event_types.len();
    if n == 0 {
        return false;
    }
    let mut i: usize = 0;
    while i < n
        invariant
            n == event_types@.len(),
            i <= n,
            forall|k: int| 0 <= k < i ==> !is_blank_spec(#[trigger] event_types@[k]@),
        decreases n - i,
    {
        if is_blank(event_types[i].as_str()) {
            return false;
        }
        i = i + 1;
    }
    true
}

impl WebhookSubscription {
    /// An enabled subscription to an HTTPS endpoint for at least one event,
    /// with a well-formed secret digest; stamped with the current time.
    pub fn create(
        tenant_id: TenantId,
        endpoint_url: String,
        event_types: Vec<String>,
        secret_hash: String,
    ) -> (r: Result<WebhookSubscription, DomainError>)
        ensures
            match webhook_error(endpoint_url@, event_types@, secret_hash@) {
                Some(m) => fails_validation(r, m),
                None => r matches Ok(w) && w.id != 0 && uuid_version(w.id) == 7 && w.tenant_id
                    == tenant_id && w.endpoint_url == endpoint_url && w.event_types == event_types
                    && w.secret_hash == secret_hash && w.enabled,
            },
    {
        if !starts_with(endpoint_url.as_str(), "https://") {
            return Err(validation_error("webhook endpoint must use HTTPS"));
        }
        if !check_event_types(&event_types) {
            return Err(validation_error("at least one webhook event is required"));
        }
        if text_byte_len(secret_hash.as_str()) != 64 || !all_bytes_hexdigits(secret_hash.as_str()) {
            return Err(validation_error("webhook secret hash is invalid"));
        }
        Ok(
            WebhookSubscription {
                id: new_id(),
                tenant_id,
                endpoint_url,
                event_types,
                secret_hash,
                enabled: true,
                created_at: now_micros(),
            },
        )
    }
}

} // verus!
