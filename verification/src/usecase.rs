//! The transfer orchestrator: it validates a request, looks the wallets up,
//! checks the sender's snapshot to fail fast, and leaves the decision to the
//! store's own unit of work.

use vstd::prelude::*;
use crate::base::AuditMetadata;
use crate::repository::{
    after_adjust, after_delete, after_transfer, attempt_entry, changed_at, delete_plan, entry_of,
    opened, reflects, shows, transfer_outcome, unused_id, unused_norek, wallet_refusal, Account,
    LedgerError, TransferEntry, WalletProvider,
};
use crate::text::decimal;
use crate::transfer::{Transfer, TransferStatus};
use crate::wallet::{debit_outcome, Wallet, WalletStatus};

verus! {

/// `wallet` is what an inquiry for `user_id` answers with: the wallet on
/// record, or, where there was none, a new active one with nothing in it.
pub open spec fn found_or_opened(
    before: Map<i32, Account>,
    user_id: i32,
    wallet: &Wallet,
    after: Map<i32, Account>,
) -> bool {
    &&& after.contains_key(user_id)
    &&& shows(wallet, user_id, after[user_id])
    &&& if before.contains_key(user_id) {
        after == before
    } else {
        &&& unused_id(before, after[user_id].id)
        &&& unused_norek(before, after[user_id].norek)
        &&& after == before.insert(
            user_id,
            opened(
                after[user_id].id,
                after[user_id].norek,
                0,
                after[user_id].audit.created_date,
            ),
        )
    }
}

/// Whether `amount` may be taken from the wallet of `user_id`.
pub open spec fn debit_plan(accounts: Map<i32, Account>, user_id: i32, amount: i64) -> Result<
    (),
    LedgerError,
> {
    if !accounts.contains_key(user_id) {
        Err(LedgerError::WalletNotFound)
    } else if accounts[user_id].status != WalletStatus::Active {
        Err(LedgerError::WalletNotActive)
    } else if amount <= 0 {
        Err(LedgerError::InvalidAmount(amount))
    } else if accounts[user_id].balance < amount {
        Err(LedgerError::InsufficientBalance(amount, accounts[user_id].balance))
    } else {
        Ok(())
    }
}

/// The first inquiry for a user without a wallet opens one; the second finds
/// that same wallet, under the same id, still empty and active, and changes
/// nothing.
pub proof fn lemma_second_inquiry_finds_the_wallet_of_the_first(
    before: Map<i32, Account>,
    user_id: i32,
    first: &Wallet,
    between: Map<i32, Account>,
    second: &Wallet,
    after: Map<i32, Account>,
)
    requires
        !before.contains_key(user_id),
        found_or_opened(before, user_id, first, between),
        found_or_opened(between, user_id, second, after),
    ensures
        first.id == second.id,
        first.id is Some,
        first.balance == 0 && second.balance == 0,
        first.status == WalletStatus::Active && second.status == WalletStatus::Active,
        after == between,
{
}

/// What can be said of a transfer request before any wallet is looked up.
pub open spec fn request_check(from_id: i32, to_id: i32, amount: i64) -> Result<(), LedgerError> {
    if amount <= 0 {
        Err(LedgerError::InvalidAmount(amount))
    } else if from_id == to_id {
        Err(LedgerError::SelfTransfer)
    } else {
        Ok(())
    }
}

/// What the snapshot `found` of a wallet says of a debit of `amount`: the
/// balance that would be left, or the reason why the debit is not tried.
pub open spec fn snapshot_check(found: Option<Wallet>, amount: i64) -> Result<int, LedgerError> {
    match found {
        None => Err(LedgerError::WalletNotFound),
        Some(wallet) => if wallet.status != WalletStatus::Active {
            Err(LedgerError::WalletNotActive)
        } else {
            match debit_outcome(wallet.balance, amount) {
                Ok(balance) => Ok(balance),
                Err(e) => Err(wallet_refusal(e)),
            }
        },
    }
}

/// Checks the shape of a transfer request: a positive amount, and two
/// different wallets.
pub fn validate_transfer(from_id: i32, to_id: i32, amount: i64) -> (result: Result<
    (),
    LedgerError,
>)
    ensures
        result == request_check(from_id, to_id, amount),
{
    if amount <= 0 {
        Err(LedgerError::InvalidAmount(amount))
    } else if from_id == to_id {
        Err(LedgerError::SelfTransfer)
    } else {
        Ok(())
    }
}

/// Tries the debit on the snapshot that a lookup gave, to fail fast. The
/// snapshot may be stale: what comes back is the caller's picture of the
/// wallet after the debit, not a decision.
pub fn check_debit(found: Option<Wallet>, amount: i64) -> (result: Result<Wallet, LedgerError>)
    ensures
        match snapshot_check(found, amount) {
            Ok(balance) => result matches Ok(wallet) && found->0.moved_to(&wallet, balance),
            Err(e) => result == Err::<Wallet, LedgerError>(e),
        },
{
    let mut wallet = match found {
        None => {
            return Err(LedgerError::WalletNotFound);
        },
        Some(wallet) => wallet,
    };
    if wallet.status != WalletStatus::Active {
        return Err(LedgerError::WalletNotActive);
    }
    match wallet.debit(amount) {
        Ok(_) => Ok(wallet),
        Err(e) => Err(LedgerError::from_wallet(e)),
    }
}

/// Makes sure that the lookup of the receiver found a wallet.
pub fn check_receiver(found: Option<Wallet>) -> (result: Result<(), LedgerError>)
    ensures
        result == match found {
            Some(_) => Ok::<(), LedgerError>(()),
            None => Err::<(), LedgerError>(LedgerError::WalletNotFound),
        },
{
    match found {
        Some(_) => Ok(()),
        None => Err(LedgerError::WalletNotFound),
    }
}

/// The answer to a transfer request, given the store's reply: the sender's
/// snapshot with the balance that the store reports, or the store's refusal.
pub fn settle_transfer(sender: Wallet, reply: Result<(i64, i64), LedgerError>) -> (result: Result<
    Wallet,
    LedgerError,
>)
    ensures
        result == match reply {
            Ok(balances) => Ok::<Wallet, LedgerError>(Wallet { balance: balances.0, ..sender }),
            Err(e) => Err::<Wallet, LedgerError>(e),
        },
{
    match reply {
        Ok((sender_balance, _)) => {
            let mut wallet = sender;
            wallet.balance = sender_balance;
            Ok(wallet)
        },
        Err(e) => Err(e),
    }
}

/// What the store's reply to the opening of a wallet calls for.
pub enum Opening {
    /// The wallet was opened: it is the answer.
    Opened(Wallet),
    /// Another request opened a wallet for the user first: look it up.
    LookAgain,
    /// The store refused, and the refusal is the answer.
    Refused(LedgerError),
}

/// Reads the store's reply to the opening of a wallet. A conflict is no
/// failure: it means that the wallet is there by now.
pub fn after_create(reply: Result<Wallet, LedgerError>) -> (next: Opening)
    ensures
        next == match reply {
            Ok(wallet) => Opening::Opened(wallet),
            Err(LedgerError::StorageConflict) => Opening::LookAgain,
            Err(e) => Opening::Refused(e),
        },
{
    match reply {
        Ok(wallet) => Opening::Opened(wallet),
        Err(LedgerError::StorageConflict) => Opening::LookAgain,
        Err(e) => Opening::Refused(e),
    }
}

/// Reads the store's reply to the lookup that follows a conflict: the wallet
/// that won, or the conflict itself where the store shows none after all.
pub fn after_conflict(reply: Result<Option<Wallet>, LedgerError>) -> (result: Result<
    Wallet,
    LedgerError,
>)
    ensures
        result == match reply {
            Ok(Some(wallet)) => Ok::<Wallet, LedgerError>(wallet),
            Ok(None) => Err::<Wallet, LedgerError>(LedgerError::StorageConflict),
            Err(e) => Err::<Wallet, LedgerError>(e),
        },
{
    match reply {
        Ok(Some(wallet)) => Ok(wallet),
        Ok(None) => Err(LedgerError::StorageConflict),
        Err(e) => Err(e),
    }
}

#[derive(Clone)]
pub struct Usecase<R: WalletProvider> {
    repo: R,
}

impl<R: WalletProvider> Usecase<R> {
    /// The store behind the orchestrator.
    pub closed spec fn store(&self) -> R {
        self.repo
    }

    /// The accounts on record in the store.
    pub open spec fn accounts(&self) -> Map<i32, Account> {
        self.store().accounts()
    }

    /// The store is in order.
    pub open spec fn inv(&self) -> bool {
        self.store().inv()
    }

    /// The store keeps the accounts for this orchestrator alone and answers
    /// by the rules.
    pub open spec fn faithful(&self) -> bool {
        self.store().faithful()
    }

    /// The transfers on record in the store, oldest first.
    pub open spec fn journal(&self) -> Seq<TransferEntry> {
        self.store().journal()
    }

    pub fn new(repo: R) -> (usecase: Self)
        ensures
            usecase.store() == repo,
    {
        Self { repo }
    }

    /// The store behind the orchestrator, to read from.
    pub fn repo(&self) -> (repo: &R)
        ensures
            *repo == self.store(),
    {
        &self.repo
    }

    /// The snapshot that goes out to the caller: `data`, field for field.
    fn construct_wallet(data: Wallet) -> (wallet: Wallet)
        ensures
            wallet == data,
    {
        Wallet {
            id: data.id,
            norek: data.norek,
            user_id: data.user_id,
            balance: data.balance,
            status: data.status,
            audit: data.audit,
        }
    }

    /// The wallet of `user_id`; one is opened, empty and active, where the
    /// user has none. A faithful store always answers with a wallet.
    pub fn get_or_create_wallet(&mut self, user_id: i32) -> (result: Result<Wallet, LedgerError>)
        requires
            old(self).inv(),
        ensures
            final(self).inv(),
            old(self).faithful() ==> {
                &&& final(self).faithful()
                &&& final(self).journal() == old(self).journal()
                &&& match result {
                    Ok(wallet) => found_or_opened(
                        old(self).accounts(),
                        user_id,
                        &wallet,
                        final(self).accounts(),
                    ),
                    Err(_) => false,
                }
            },
    {
        match self.repo.get_wallet_by_userid(user_id) {
            Err(e) => Err(e),
            Ok(Some(data)) => Ok(Self::construct_wallet(data)),
            Ok(None) => match after_create(self.repo.create_wallet(user_id, 0)) {
                Opening::Opened(data) => Ok(Self::construct_wallet(data)),
                Opening::LookAgain => after_conflict(self.repo.get_wallet_by_userid(user_id)),
                Opening::Refused(e) => Err(e),
            },
        }
    }

    /// The record of an attempt to move `amount` from the wallet of `from_id`
    /// to that of `to_id`, marked by whether the money moved.
    pub fn transfer_record(from_id: i32, to_id: i32, amount: i64, moved: bool) -> (transfer: Transfer)
        ensures
            entry_of(transfer) == attempt_entry(from_id, to_id, amount, moved, transfer.audit),
            transfer.status.is_terminal(),
            transfer.id is None,
            transfer.audit.updated_date is Some,
    {
        let debet = decimal(from_id as i64);
        let credit = decimal(to_id as i64);
        let mut transfer = Transfer::new(
            debet.as_str(),
            credit.as_str(),
            amount,
            TransferStatus::Pending,
            AuditMetadata::new(),
        );
        if moved {
            transfer.mark_success();
        } else {
            transfer.mark_failed();
        }
        transfer
    }

    /// The transfer itself, without its record in the journal.
    fn move_balance(&mut self, from_id: i32, to_id: i32, amount: i64) -> (result: Result<
        Wallet,
        LedgerError,
    >)
        requires
            old(self).inv(),
        ensures
            final(self).inv(),
            request_check(from_id, to_id, amount) matches Err(e) ==> {
                &&& result == Err::<Wallet, LedgerError>(e)
                &&& final(self).store() == old(self).store()
            },
            old(self).faithful() ==> {
                &&& final(self).faithful()
                &&& final(self).journal() == old(self).journal()
                &&& match result {
                    Ok(wallet) => {
                        &&& transfer_outcome(old(self).accounts(), from_id, to_id, amount) is Ok
                        &&& final(self).accounts() == after_transfer(
                            old(self).accounts(),
                            from_id,
                            to_id,
                            amount,
                            changed_at(final(self).accounts(), from_id),
                        )
                        &&& reflects(&wallet, from_id, final(self).accounts()[from_id])
                    },
                    Err(e) => {
                        &&& transfer_outcome(old(self).accounts(), from_id, to_id, amount) == Err::<
                            (i64, i64),
                            LedgerError,
                        >(e)
                        &&& final(self).accounts() == old(self).accounts()
                    },
                }
            },
    {
        if let Err(e) = validate_transfer(from_id, to_id, amount) {
            return Err(e);
        }
        let sender = match self.repo.get_wallet_by_userid(from_id) {
            Err(e) => {
                return Err(e);
            },
            Ok(found) => match check_debit(found, amount) {
                Err(e) => {
                    return Err(e);
                },
                Ok(wallet) => wallet,
            },
        };
        match self.repo.get_wallet_by_userid(to_id) {
            Err(e) => {
                return Err(e);
            },
            Ok(found) => {
                if let Err(e) = check_receiver(found) {
                    return Err(e);
                }
            },
        }
        let reply = self.repo.transfer_balance(from_id, to_id, amount);
        settle_transfer(sender, reply)
    }

    /// Moves `amount` from the wallet of `from_id` to that of `to_id` and
    /// answers with the sender's wallet as it stands after the transfer.
    /// Every attempt, carried out or not, is recorded in the journal.
    ///
    /// A request of the wrong shape is refused before any wallet is looked
    /// up. The check on the sender's snapshot only saves a trip to the store;
    /// the store's own unit of work decides, and its refusal is passed on.
    pub fn transfer_balance(&mut self, from_id: i32, to_id: i32, amount: i64) -> (result: Result<
        Wallet,
        LedgerError,
    >)
        requires
            old(self).inv(),
        ensures
            final(self).inv(),
            request_check(from_id, to_id, amount) matches Err(e) ==> result == Err::<
                Wallet,
                LedgerError,
            >(e),
            old(self).faithful() ==> {
                &&& final(self).faithful()
                &&& final(self).journal() == old(self).journal().push(
                    attempt_entry(
                        from_id,
                        to_id,
                        amount,
                        result is Ok,
                        final(self).journal().last().audit,
                    ),
                )
                &&& final(self).journal().last().audit.updated_date is Some
                &&& match result {
                    Ok(wallet) => {
                        &&& transfer_outcome(old(self).accounts(), from_id, to_id, amount) is Ok
                        &&& final(self).accounts() == after_transfer(
                            old(self).accounts(),
                            from_id,
                            to_id,
                            amount,
                            changed_at(final(self).accounts(), from_id),
                        )
                        &&& reflects(&wallet, from_id, final(self).accounts()[from_id])
                        &&& wallet.balance == old(self).accounts()[from_id].balance - amount
                        &&& final(self).accounts()[to_id].balance == old(self).accounts()[to_id].balance
                            + amount
                    },
                    Err(e) => {
                        &&& transfer_outcome(old(self).accounts(), from_id, to_id, amount) == Err::<
                            (i64, i64),
                            LedgerError,
                        >(e)
                        &&& final(self).accounts() == old(self).accounts()
                    },
                }
            },
    {
        let result = self.move_balance(from_id, to_id, amount);
        let record = Self::transfer_record(from_id, to_id, amount, result.is_ok());
        // The money has moved or not by now: a journal that cannot be
        // written does not change the answer.
        let _ = self.repo.record_transfer(record);
        result
    }

    /// Deactivates the wallet of `id`; its balance stays.
    pub fn delete_wallet(&mut self, id: i32) -> (result: Result<(), LedgerError>)
        requires
            old(self).inv(),
        ensures
            final(self).inv(),
            old(self).faithful() ==> {
                &&& final(self).faithful()
                &&& final(self).journal() == old(self).journal()
                &&& match result {
                    Ok(_) => {
                        &&& delete_plan(old(self).accounts(), id) is Ok
                        &&& final(self).accounts() == after_delete(
                            old(self).accounts(),
                            id,
                            changed_at(final(self).accounts(), id),
                        )
                    },
                    Err(e) => {
                        &&& delete_plan(old(self).accounts(), id) == Err::<(), LedgerError>(e)
                        &&& final(self).accounts() == old(self).accounts()
                    },
                }
            },
    {
        match self.repo.get_wallet_by_userid(id) {
            Err(e) => Err(e),
            Ok(None) => Err(LedgerError::WalletNotFound),
            Ok(Some(_)) => self.repo.delete_wallet(id),
        }
    }

    /// Takes `amount` from the wallet of `user_id` and answers with the
    /// wallet as it stands after the debit.
    pub fn update_balance(&mut self, user_id: i32, amount: i64) -> (result: Result<
        Wallet,
        LedgerError,
    >)
        requires
            old(self).inv(),
        ensures
            final(self).inv(),
            old(self).faithful() ==> {
                &&& final(self).faithful()
                &&& final(self).journal() == old(self).journal()
                &&& match result {
                    Ok(wallet) => {
                        &&& debit_plan(old(self).accounts(), user_id, amount) is Ok
                        &&& final(self).accounts() == after_adjust(
                            old(self).accounts(),
                            user_id,
                            (-amount) as i64,
                            changed_at(final(self).accounts(), user_id),
                        )
                        &&& reflects(&wallet, user_id, final(self).accounts()[user_id])
                        &&& wallet.balance == old(self).accounts()[user_id].balance - amount
                    },
                    Err(e) => {
                        &&& debit_plan(old(self).accounts(), user_id, amount) == Err::<
                            (),
                            LedgerError,
                        >(e)
                        &&& final(self).accounts() == old(self).accounts()
                    },
                }
            },
    {
        let wallet = match self.repo.get_wallet_by_userid(user_id) {
            Err(e) => {
                return Err(e);
            },
            Ok(found) => match check_debit(found, amount) {
                Err(e) => {
                    return Err(e);
                },
                Ok(wallet) => wallet,
            },
        };
        match self.repo.update_balance(user_id, -amount) {
            Ok(_) => Ok(wallet),
            Err(e) => Err(e),
        }
    }
}

} // verus!
