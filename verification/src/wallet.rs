//! The wallet entity: a balance and the rules by which it changes.

use vstd::prelude::*;
use vstd::string::StringExecFns;
use crate::base::{AuditMetadata, Auditable};
use crate::text::{decimal, decimal_text};

verus! {

#[derive(Debug, Clone, Copy, PartialEq, Eq, Structural)]
pub enum WalletStatus {
    Active,
    NonActive,
}

impl WalletStatus {
    /// The name under which the status is kept and sent.
    pub open spec fn name_text(self) -> Seq<char> {
        match self {
            WalletStatus::Active => "Active"@,
            WalletStatus::NonActive => "NonActive"@,
        }
    }

    /// The name under which the status is kept and sent.
    pub fn name(&self) -> (name: &'static str)
        ensures
            name@ == self.name_text(),
    {
        match self {
            WalletStatus::Active => "Active",
            WalletStatus::NonActive => "NonActive",
        }
    }

    /// The status that `name` stands for; `None` where it names none.
    pub fn from_name(name: &str) -> (status: Option<Self>)
        ensures
            status == if name@ == "Active"@ {
                Some(WalletStatus::Active)
            } else if name@ == "NonActive"@ {
                Some(WalletStatus::NonActive)
            } else {
                None
            },
    {
        let given = String::from_str(name);
        if given == String::from_str("Active") {
            Some(WalletStatus::Active)
        } else if given == String::from_str("NonActive") {
            Some(WalletStatus::NonActive)
        } else {
            None
        }
    }
}

/// Why a credit or a debit was refused.
#[derive(Debug, Clone, Copy, PartialEq, Eq, Structural)]
pub enum WalletError {
    /// The amount asked for, then the balance that was available.
    InsufficientBalance(i64, i64),
    /// The amount was zero or negative.
    InvalidAmount(i64),
}

/// The words in which a refusal is reported.
pub open spec fn wallet_error_text(e: WalletError) -> Seq<char> {
    match e {
        WalletError::InsufficientBalance(asked, available) =>
            "Insufficient balance: attempted to debit "@ + decimal_text(asked) + ", but only "@
                + decimal_text(available) + " available"@,
        WalletError::InvalidAmount(amount) => "Invalid amount: "@ + decimal_text(amount),
    }
}

impl WalletError {
    /// The refusal in words.
    pub fn message(&self) -> (text: String)
        ensures
            text@ == wallet_error_text(*self),
    {
        match self {
            WalletError::InsufficientBalance(asked, available) => {
                let mut text = String::from_str("Insufficient balance: attempted to debit ");
                text.append(decimal(*asked).as_str());
                text.append(", but only ");
                text.append(decimal(*available).as_str());
                text.append(" available");
                text
            },
            WalletError::InvalidAmount(amount) => {
                let mut text = String::from_str("Invalid amount: ");
                text.append(decimal(*amount).as_str());
                text
            },
        }
    }
}

/// What a credit of `amount` makes of `balance`.
pub open spec fn credit_outcome(balance: i64, amount: i64) -> Result<int, WalletError> {
    if amount <= 0 {
        Err(WalletError::InvalidAmount(amount))
    } else {
        Ok(balance + amount)
    }
}

/// What a debit of `amount` makes of `balance`.
pub open spec fn debit_outcome(balance: i64, amount: i64) -> Result<int, WalletError> {
    if amount <= 0 {
        Err(WalletError::InvalidAmount(amount))
    } else if balance < amount {
        Err(WalletError::InsufficientBalance(amount, balance))
    } else {
        Ok(balance - amount)
    }
}

#[derive(Debug, Clone)]
pub struct Wallet {
    pub id: Option<i32>,
    pub norek: String,
    pub user_id: i32,
    pub balance: i64,
    pub status: WalletStatus,
    pub audit: AuditMetadata,
}

impl Wallet {
    /// A wallet at rest holds no debt.
    pub open spec fn wf(&self) -> bool {
        self.balance >= 0
    }

    /// `self` with another balance and a later update mark, all else equal.
    pub open spec fn moved_to(&self, after: &Wallet, balance: int) -> bool {
        &&& after.balance == balance
        &&& after.id == self.id
        &&& after.norek == self.norek
        &&& after.user_id == self.user_id
        &&& after.status == self.status
        &&& after.audit.created_date == self.audit.created_date
        &&& after.audit.updated_date is Some
    }

    pub fn new(
        id: Option<i32>,
        norek: String,
        user_id: i32,
        inital_balance: i64,
        audit: AuditMetadata,
    ) -> (wallet: Self)
        ensures
            wallet.id == id,
            wallet.norek == norek,
            wallet.user_id == user_id,
            wallet.balance == inital_balance,
            wallet.status == WalletStatus::Active,
            wallet.audit == audit,
            wallet.wf() <==> inital_balance >= 0,
    {
        Self { id, norek, user_id, balance: inital_balance, status: WalletStatus::Active, audit }
    }

    /// A copy to hand out: a snapshot that shares nothing with `self`.
    pub fn snapshot(&self) -> (copy: Self)
        ensures
            copy == *self,
    {
        Self {
            id: self.id,
            norek: self.norek.clone(),
            user_id: self.user_id,
            balance: self.balance,
            status: self.status,
            audit: self.audit,
        }
    }

    /// Adds `amount` to the balance. A refused credit changes nothing.
    pub fn credit(&mut self, amount: i64) -> (result: Result<(), WalletError>)
        requires
            old(self).balance + amount <= i64::MAX,
        ensures
            match credit_outcome(old(self).balance, amount) {
                Ok(balance) => result is Ok && old(self).moved_to(final(self), balance),
                Err(e) => result == Err::<(), WalletError>(e) && *final(self) == *old(self),
            },
            old(self).wf() ==> final(self).wf(),
    {
        if amount <= 0 {
            return Err(WalletError::InvalidAmount(amount));
        }
        self.balance = self.balance + amount;
        self.audit.touch();
        Ok(())
    }

    /// Takes `amount` from the balance, which never falls below zero. A
    /// refused debit changes nothing.
    pub fn debit(&mut self, amount: i64) -> (result: Result<(), WalletError>)
        ensures
            match debit_outcome(old(self).balance, amount) {
                Ok(balance) => result is Ok && old(self).moved_to(final(self), balance),
                Err(e) => result == Err::<(), WalletError>(e) && *final(self) == *old(self),
            },
            old(self).wf() ==> final(self).wf(),
    {
        if amount <= 0 {
            return Err(WalletError::InvalidAmount(amount));
        }
        if self.balance < amount {
            return Err(WalletError::InsufficientBalance(amount, self.balance));
        }
        self.balance = self.balance - amount;
        self.audit.touch();
        Ok(())
    }
}

impl Auditable for Wallet {
    fn audit(&self) -> (audit: &AuditMetadata)
        ensures
            *audit == self.audit,
    {
        &self.audit
    }

    fn audit_mut(&mut self) -> (audit: &mut AuditMetadata)
        ensures
            *audit == old(self).audit,
            *final(self) == (Wallet { audit: *final(audit), ..*old(self) }),
    {
        &mut self.audit
    }
}

/// One step in the life of a balance.
pub enum BalanceChange {
    Credit(i64),
    Debit(i64),
}

/// The balance after `changes` were applied in order, each of them accepted
/// and each result within the machine's range; `None` once one is not.
pub open spec fn replay(balance: i64, changes: Seq<BalanceChange>) -> Option<i64>
    decreases changes.len(),
{
    if changes.len() == 0 {
        Some(balance)
    } else {
        let step = match changes[0] {
            BalanceChange::Credit(amount) => credit_outcome(balance, amount),
            BalanceChange::Debit(amount) => debit_outcome(balance, amount),
        };
        match step {
            Ok(next) if next <= i64::MAX => replay(next as i64, changes.drop_first()),
            _ => None,
        }
    }
}

/// A balance that starts at zero or above stays there through every run of
/// accepted credits and debits.
pub proof fn lemma_accepted_changes_keep_balance_non_negative(
    balance: i64,
    changes: Seq<BalanceChange>,
)
    requires
        balance >= 0,
    ensures
        replay(balance, changes) matches Some(last) ==> last >= 0,
    decreases changes.len(),
{
    if changes.len() > 0 {
        let step = match changes[0] {
            BalanceChange::Credit(amount) => credit_outcome(balance, amount),
            BalanceChange::Debit(amount) => debit_outcome(balance, amount),
        };
        if let Ok(next) = step {
            if next <= i64::MAX {
                lemma_accepted_changes_keep_balance_non_negative(
                    next as i64,
                    changes.drop_first(),
                );
            }
        }
    }
}

} // verus!
