use vstd::prelude::*;

use crate::error::{validation_error, DomainError};
use crate::text::{all_ascii_uppercase, is_ascii_uppercase_spec};

verus! {

/// A money amount in minor units (kuruş for TRY, cent for EUR/USD) with its
/// ISO 4217 currency code.
#[derive(Debug, Clone, PartialEq, Eq, Hash)]
pub struct Money {
    pub amount_minor: i64,
    pub currency: String,
}

/// A 3-letter ISO 4217 code: three ASCII uppercase letters. (Such a text is
/// three bytes long, so this is the same test as "three bytes, all ASCII
/// uppercase".)
pub open spec fn is_currency_code(c: Seq<char>) -> bool {
    c.len() == 3 && forall|k: int| 0 <= k < c.len() ==> is_ascii_uppercase_spec(#[trigger] c[k])
}

/// The message of the first check that `Money::new` fails, if any.
pub open spec fn money_error(amount_minor: i64, currency: Seq<char>) -> Option<Seq<char>> {
    if amount_minor < 0 {
        Some("amount cannot be negative"@)
    } else if !is_currency_code(currency) {
        Some("currency must be a 3-letter ISO 4217 code"@)
    } else {
        None
    }
}

/// `currency` is a 3-letter ISO 4217 code.
pub fn check_currency_code(currency: &str) -> (r: bool)
    ensures
        r == is_currency_code(currency@),
{
    currency.unicode_len() == 3 && all_ascii_uppercase(currency)
}

impl Money {
    /// A non-negative amount in a well-formed currency.
    pub fn new(amount_minor: i64, currency: &str) -> (r: Result<Money, DomainError>)
        ensures
            match money_error(amount_minor, currency@) {
                None => r matches Ok(m) && m.amount_minor == amount_minor && m.currency@
                    == currency@,
                Some(msg) => r matches Err(e) && e is Validation && e.message() == msg,
            },
    {
        if amount_minor < 0 {
            return Err(validation_error("amount cannot be negative"));
        }
        if !check_currency_code(currency) {
            return Err(validation_error("currency must be a 3-letter ISO 4217 code"));
        }
        Ok(Money { amount_minor, currency: currency.to_owned() })
    }

    /// Zero Turkish lira.
    pub fn zero() -> (m: Money)
        ensures
            m.amount_minor == 0,
            m.currency@ == "TRY"@,
    {
        Money { amount_minor: 0, currency: "TRY".to_owned() }
    }
}

} // verus!
