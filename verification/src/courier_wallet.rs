use vstd::prelude::*;

use crate::error::{fails_validation, join_text, validation_error, DomainError};
use crate::platform::{new_id, now_micros, uuid_version};

verus! {

/// Kind of a wallet ledger entry.
#[derive(Debug, Clone, Copy, PartialEq, Eq, Structural)]
pub enum WalletTransactionType {
    DeliveryEarning,
    PerformanceBonus,
    Tip,
    PenaltyDeduction,
    PayoutWithdrawal,
}

/// One ledger entry of a courier wallet; `amount_minor` is always positive,
/// its direction is given by the type.
#[derive(Debug, Clone)]
pub struct WalletTransaction {
    pub id: u128,
    pub transaction_type: WalletTransactionType,
    pub amount_minor: i64,
    pub currency: String,
    pub description: String,
    pub created_at: i64,
}

/// A courier's earnings wallet and its ledger.
#[derive(Debug, Clone)]
pub struct CourierWallet {
    pub courier_id: u128,
    pub balance_minor: i64,
    pub total_earned_minor: i64,
    pub total_bonus_minor: i64,
    pub total_penalties_minor: i64,
    pub currency: String,
    pub transactions: Vec<WalletTransaction>,
}

/// The signed effect of a ledger entry on the balance.
pub open spec fn signed_amount(t: WalletTransaction) -> int {
    match t.transaction_type {
        WalletTransactionType::PenaltyDeduction => -(t.amount_minor as int),
        WalletTransactionType::PayoutWithdrawal => -(t.amount_minor as int),
        _ => t.amount_minor as int,
    }
}

/// The sum of the signed effects of a ledger.
pub open spec fn ledger_sum(ledger: Seq<WalletTransaction>) -> int
    decreases ledger.len(),
{
    if ledger.len() == 0 {
        0
    } else {
        ledger_sum(ledger.drop_last()) + signed_amount(ledger.last())
    }
}

impl CourierWallet {
    /// The balance is the earnings plus the bonuses minus the penalties, and
    /// it is also the signed sum of the ledger.
    pub open spec fn is_consistent(self) -> bool {
        &&& self.balance_minor == self.total_earned_minor + self.total_bonus_minor
            - self.total_penalties_minor
        &&& self.balance_minor == ledger_sum(self.transactions@)
    }

    /// `self` is `old` with one more ledger entry `t` of the given type, amount
    /// and description, in the wallet's currency.
    pub open spec fn appended(
        self,
        old: CourierWallet,
        kind: WalletTransactionType,
        amount_minor: i64,
        description: Seq<char>,
    ) -> bool {
        let t = self.transactions@.last();
        &&& self.transactions@.len() == old.transactions@.len() + 1
        &&& self.transactions@.drop_last() == old.transactions@
        &&& t.id != 0
        &&& uuid_version(t.id) == 7
        &&& t.transaction_type == kind
        &&& t.amount_minor == amount_minor
        &&& t.currency == old.currency
        &&& t.description@ == description
    }

    /// An empty wallet.
    pub fn new(courier_id: u128, currency: &str) -> (w: CourierWallet)
        ensures
            w.courier_id == courier_id,
            w.balance_minor == 0,
            w.total_earned_minor == 0,
            w.total_bonus_minor == 0,
            w.total_penalties_minor == 0,
            w.currency@ == currency@,
            w.transactions@ == Seq::<WalletTransaction>::empty(),
            w.is_consistent(),
    {
        CourierWallet {
            courier_id,
            balance_minor: 0,
            total_earned_minor: 0,
            total_bonus_minor: 0,
            total_penalties_minor: 0,
            currency: currency.to_owned(),
            transactions: Vec::new(),
        }
    }

    fn record(&mut self, kind: WalletTransactionType, amount_minor: i64, description: String)
        ensures
            final(self).appended(*old(self), kind, amount_minor, description@),
            *final(self) == (CourierWallet { transactions: final(self).transactions, ..*old(self) }),
    {
        let t = WalletTransaction {
            id: new_id(),
            transaction_type: kind,
            amount_minor,
            currency: self.currency.clone(),
            description,
            created_at: now_micros(),
        };
        self.transactions.push(t);
        assert(self.transactions@.drop_last() =~= old(self).transactions@);
    }

    /// Credits a delivery earning.
    pub fn add_earning(&mut self, amount_minor: i64, order_ref: &str) -> (r: Result<(), DomainError>)
        requires
            amount_minor > 0 ==> old(self).balance_minor + amount_minor <= i64::MAX
                && old(self).total_earned_minor + amount_minor <= i64::MAX,
        ensures
            amount_minor <= 0 ==> *final(self) == *old(self) && fails_validation(
                r,
                "Earning amount must be positive"@,
            ),
            amount_minor > 0 ==> r is Ok && final(self).balance_minor == old(self).balance_minor
                + amount_minor && final(self).total_earned_minor == old(self).total_earned_minor
                + amount_minor && final(self).appended(
                *old(self),
                WalletTransactionType::DeliveryEarning,
                amount_minor,
                "Teslimat Hakedişi: Order #"@ + order_ref@,
            ) && *final(self) == (CourierWallet {
                balance_minor: final(self).balance_minor,
                total_earned_minor: final(self).total_earned_minor,
                transactions: final(self).transactions,
                ..*old(self)
            }),
            old(self).is_consistent() ==> final(self).is_consistent(),
    {
        if amount_minor <= 0 {
            return Err(validation_error("Earning amount must be positive"));
        }
        self.balance_minor = self.balance_minor + amount_minor;
        self.total_earned_minor = self.total_earned_minor + amount_minor;
        self.record(
            WalletTransactionType::DeliveryEarning,
            amount_minor,
            join_text("Teslimat Hakedişi: Order #", order_ref),
        );
        Ok(())
    }

    /// Credits a performance bonus.
    pub fn add_bonus(&mut self, amount_minor: i64, bonus_reason: &str) -> (r: Result<(), DomainError>)
        requires
            amount_minor > 0 ==> old(self).balance_minor + amount_minor <= i64::MAX
                && old(self).total_bonus_minor + amount_minor <= i64::MAX,
        ensures
            amount_minor <= 0 ==> *final(self) == *old(self) && fails_validation(
                r,
                "Bonus amount must be positive"@,
            ),
            amount_minor > 0 ==> r is Ok && final(self).balance_minor == old(self).balance_minor
                + amount_minor && final(self).total_bonus_minor == old(self).total_bonus_minor
                + amount_minor && final(self).appended(
                *old(self),
                WalletTransactionType::PerformanceBonus,
                amount_minor,
                "Performans Primi: "@ + bonus_reason@,
            ) && *final(self) == (CourierWallet {
                balance_minor: final(self).balance_minor,
                total_bonus_minor: final(self).total_bonus_minor,
                transactions: final(self).transactions,
                ..*old(self)
            }),
            old(self).is_consistent() ==> final(self).is_consistent(),
    {
        if amount_minor <= 0 {
            return Err(validation_error("Bonus amount must be positive"));
        }
        self.balance_minor = self.balance_minor + amount_minor;
        self.total_bonus_minor = self.total_bonus_minor + amount_minor;
        self.record(
            WalletTransactionType::PerformanceBonus,
            amount_minor,
            join_text("Performans Primi: ", bonus_reason),
        );
        Ok(())
    }

    /// Deducts a penalty; the balance may go negative.
    pub fn apply_penalty(&mut self, amount_minor: i64, penalty_reason: &str) -> (r: Result<
        (),
        DomainError,
    >)
        requires
            amount_minor > 0 ==> old(self).balance_minor - amount_minor >= i64::MIN
                && old(self).total_penalties_minor + amount_minor <= i64::MAX,
        ensures
            amount_minor <= 0 ==> *final(self) == *old(self) && fails_validation(
                r,
                "Penalty amount must be positive"@,
            ),
            amount_minor > 0 ==> r is Ok && final(self).balance_minor == old(self).balance_minor
                - amount_minor && final(self).total_penalties_minor == old(
                self,
            ).total_penalties_minor + amount_minor && final(self).appended(
                *old(self),
                WalletTransactionType::PenaltyDeduction,
                amount_minor,
                "Kesinti / Ceza: "@ + penalty_reason@,
            ) && *final(self) == (CourierWallet {
                balance_minor: final(self).balance_minor,
                total_penalties_minor: final(self).total_penalties_minor,
                transactions: final(self).transactions,
                ..*old(self)
            }),
            old(self).is_consistent() ==> final(self).is_consistent(),
    {
        if amount_minor <= 0 {
            return Err(validation_error("Penalty amount must be positive"));
        }
        self.balance_minor = self.balance_minor - amount_minor;
        self.total_penalties_minor = self.total_penalties_minor + amount_minor;
        self.record(
            WalletTransactionType::PenaltyDeduction,
            amount_minor,
            join_text("Kesinti / Ceza: ", penalty_reason),
        );
        Ok(())
    }
}

} // verus!
