use vstd::prelude::*;

use crate::error::{fails_validation, validation_error, DomainError};
use crate::platform::{new_id, now_micros, uuid_version};
use crate::text::{is_blank, is_blank_spec};

verus! {

/// Evidence that an order was handed over, stamped with the time of recording.
#[derive(Debug, Clone)]
pub struct ProofOfDeliveryRecord {
    pub id: u128,
    pub order_id: u128,
    pub courier_id: u128,
    pub recipient_name: String,
    pub qr_barcode_verified: bool,
    pub digital_signature_base64: Option<String>,
    pub photo_evidence_url: Option<String>,
    pub delivered_at: i64,
}

impl ProofOfDeliveryRecord {
    /// A record naming the recipient (not blank), stamped with the current time.
    pub fn new(
        order_id: u128,
        courier_id: u128,
        recipient_name: &str,
        qr_barcode_verified: bool,
        digital_signature_base64: Option<String>,
        photo_evidence_url: Option<String>,
    ) -> (r: Result<ProofOfDeliveryRecord, DomainError>)
        ensures
            is_blank_spec(recipient_name@) ==> fails_validation(
                r,
                "Recipient name cannot be empty"@,
            ),
            !is_blank_spec(recipient_name@) ==> (r matches Ok(p) && p.id != 0 && uuid_version(p.id)
                == 7 && p.order_id == order_id && p.courier_id == courier_id && p.recipient_name@
                == recipient_name@ && p.qr_barcode_verified == qr_barcode_verified
                && p.digital_signature_base64 == digital_signature_base64 && p.photo_evidence_url
                == photo_evidence_url),
    {
        if is_blank(recipient_name) {
            return Err(validation_error("Recipient name cannot be empty"));
        }
        Ok(
            ProofOfDeliveryRecord {
                id: new_id(),
                order_id,
                courier_id,
                recipient_name: recipient_name.to_owned(),
                qr_barcode_verified,
                digital_signature_base64,
                photo_evidence_url,
                delivered_at: now_micros(),
            },
        )
    }
}

} // verus!
