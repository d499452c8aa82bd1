//! A ledger store that keeps its accounts in memory.

use std::collections::HashMap;
use vstd::prelude::*;
use crate::base::AuditMetadata;
use crate::clock::now_millis;
use crate::repository::{
    account_number, entry_of, requested_amount, validate_opening, Account, LedgerError,
    TransferEntry, WalletProvider,
};
use crate::text::decimal_text;
use crate::transfer::Transfer;
use crate::wallet::{Wallet, WalletStatus};

verus! {

broadcast use vstd::std_specs::hash::group_hash_axioms;

/// The wallets by owner, and the journal of transfers. A user has one wallet
/// and no wallet is ever removed, so the owner's id serves as the wallet's
/// id, and written in decimal digits as its account number. Holding the
/// ledger by `&mut` is what makes each request a unit of work of its own.
#[derive(Debug)]
pub struct MemoryLedger {
    rows: HashMap<i32, Wallet>,
    journal: Vec<Transfer>,
}

/// What the store keeps of `wallet`.
pub open spec fn account_of(wallet: Wallet) -> Account {
    Account {
        id: match wallet.id {
            Some(id) => id,
            None => 0,
        },
        norek: wallet.norek@,
        balance: wallet.balance,
        status: wallet.status,
        audit: wallet.audit,
    }
}

impl MemoryLedger {
    /// A ledger with no wallet in it.
    pub fn new() -> (ledger: Self)
        ensures
            ledger.inv(),
            ledger.accounts() == Map::<i32, Account>::empty(),
            ledger.journal() == Seq::<TransferEntry>::empty(),
    {
        let ledger = MemoryLedger { rows: HashMap::new(), journal: Vec::new() };
        assert(ledger.accounts() =~= Map::<i32, Account>::empty());
        assert(ledger.journal() =~= Seq::<TransferEntry>::empty());
        ledger
    }

    /// How many transfers are on record.
    pub fn journal_len(&self) -> (len: usize)
        ensures
            len == self.journal().len(),
    {
        self.journal.len()
    }

    /// The transfer that was recorded as number `index`, counting from zero;
    /// `None` where fewer were recorded.
    pub fn recorded(&self, index: usize) -> (transfer: Option<&Transfer>)
        ensures
            match transfer {
                Some(found) => index < self.journal().len() && entry_of(*found)
                    == self.journal()[index as int],
                None => index >= self.journal().len(),
            },
    {
        if index < self.journal.len() {
            Some(&self.journal[index])
        } else {
            None
        }
    }

    /// Puts `row` in the place of the row of its owner.
    fn store(&mut self, row: Wallet)
        requires
            old(self).inv(),
            row.id == Some(row.user_id),
            row.norek@ == decimal_text(row.user_id as i64),
        ensures
            final(self).inv(),
            final(self).journal() == old(self).journal(),
            final(self).accounts() == old(self).accounts().insert(row.user_id, account_of(row)),
    {
        let user_id: i32 = row.user_id;
        self.rows.insert(user_id, row);
        assert(self.accounts() =~= old(self).accounts().insert(user_id, account_of(row)));
    }
}

impl WalletProvider for MemoryLedger {
    closed spec fn accounts(&self) -> Map<i32, Account> {
        Map::new(
            |user_id: i32| self.rows@.contains_key(user_id),
            |user_id: i32| account_of(self.rows@[user_id]),
        )
    }

    closed spec fn journal(&self) -> Seq<TransferEntry> {
        self.journal@.map_values(|transfer: Transfer| entry_of(transfer))
    }

    closed spec fn inv(&self) -> bool {
        forall|user_id: i32| #[trigger]
            self.rows@.contains_key(user_id) ==> {
                &&& self.rows@[user_id].user_id == user_id
                &&& self.rows@[user_id].id == Some(user_id)
                &&& self.rows@[user_id].norek@ == decimal_text(user_id as i64)
            }
    }

    /// A ledger in memory has one writer and is always there.
    open spec fn faithful(&self) -> bool {
        true
    }

    fn get_wallet_by_userid(&self, user_id: i32) -> (result: Result<Option<Wallet>, LedgerError>)
    {
        match self.rows.get(&user_id) {
            Some(row) => Ok(Some(row.snapshot())),
            None => Ok(None),
        }
    }

    fn create_wallet(&mut self, user_id: i32, balance: i64) -> (result: Result<Wallet, LedgerError>)
        ensures
            result matches Ok(wallet) ==> wallet.id == Some(user_id) && wallet.norek@
                == decimal_text(user_id as i64),
    {
        if let Err(e) = validate_opening(balance) {
            return Err(e);
        }
        if self.rows.contains_key(&user_id) {
            return Err(LedgerError::StorageConflict);
        }
        let now: i64 = now_millis();
        let row = Wallet {
            id: Some(user_id),
            norek: account_number(user_id),
            user_id,
            balance,
            status: WalletStatus::Active,
            audit: AuditMetadata { created_date: now, updated_date: Some(now) },
        };
        let wallet = row.snapshot();
        self.store(row);
        Ok(wallet)
    }

    fn update_balance(&mut self, user_id: i32, upcoming_balance: i64) -> (result: Result<
        (),
        LedgerError,
    >)
    {
        let mut row = match self.rows.get(&user_id) {
            Some(row) => row.snapshot(),
            None => {
                return Err(LedgerError::WalletNotFound);
            },
        };
        if upcoming_balance < 0 && row.status != WalletStatus::Active {
            return Err(LedgerError::WalletNotActive);
        }
        match row.balance.checked_add(upcoming_balance) {
            Some(balance) => {
                if balance < 0 {
                    return Err(
                        LedgerError::InsufficientBalance(
                            requested_amount(upcoming_balance),
                            row.balance,
                        ),
                    );
                }
                row.balance = balance;
                row.audit.touch();
                self.store(row);
                Ok(())
            },
            None => {
                if upcoming_balance < 0 {
                    Err(
                        LedgerError::InsufficientBalance(
                            requested_amount(upcoming_balance),
                            row.balance,
                        ),
                    )
                } else {
                    Err(LedgerError::BalanceOverflow)
                }
            },
        }
    }

    fn transfer_balance(&mut self, from_id: i32, to_id: i32, amount: i64) -> (result: Result<
        (i64, i64),
        LedgerError,
    >)
    {
        if amount <= 0 {
            return Err(LedgerError::InvalidAmount(amount));
        }
        if from_id == to_id {
            return Err(LedgerError::SelfTransfer);
        }
        let mut sender = match self.rows.get(&from_id) {
            Some(row) => row.snapshot(),
            None => {
                return Err(LedgerError::WalletNotFound);
            },
        };
        if sender.status != WalletStatus::Active {
            return Err(LedgerError::WalletNotActive);
        }
        if sender.balance < amount {
            return Err(LedgerError::InsufficientBalance(amount, sender.balance));
        }
        let mut receiver = match self.rows.get(&to_id) {
            Some(row) => row.snapshot(),
            None => {
                return Err(LedgerError::WalletNotFound);
            },
        };
        if receiver.balance > i64::MAX - amount {
            return Err(LedgerError::BalanceOverflow);
        }
        let now: i64 = now_millis();
        sender.balance = sender.balance - amount;
        sender.audit.touch_at(now);
        receiver.balance = receiver.balance + amount;
        receiver.audit.touch_at(now);
        let balances = (sender.balance, receiver.balance);
        self.store(sender);
        self.store(receiver);
        Ok(balances)
    }

    fn record_transfer(&mut self, transfer: Transfer) -> (result: Result<(), LedgerError>) {
        self.journal.push(transfer);
        assert(self.journal() =~= old(self).journal().push(entry_of(transfer)));
        Ok(())
    }

    fn delete_wallet(&mut self, id: i32) -> (result: Result<(), LedgerError>)
    {
        let mut row = match self.rows.get(&id) {
            Some(row) => row.snapshot(),
            None => {
                return Err(LedgerError::WalletNotFound);
            },
        };
        row.status = WalletStatus::NonActive;
        row.audit.touch();
        self.store(row);
        Ok(())
    }
}

} // verus!
