//! The ledger store: the only writer of balances.
//!
//! What a store must do is stated once, over a map from owner to account, as
//! spec functions that say for every request whether it is carried out and
//! what the accounts are afterwards. [`WalletProvider`] binds an
//! implementation to them; [`MemoryLedger`] is the one that keeps the
//! accounts in memory.

use vstd::prelude::*;
use vstd::string::StringExecFns;
use crate::base::AuditMetadata;
use crate::text::{decimal, decimal_text, lemma_decimal_text_injective};
use crate::transfer::{Transfer, TransferStatus};
use crate::wallet::{wallet_error_text, Wallet, WalletError, WalletStatus};

verus! {

/// Why the store or the orchestrator refused a request.
#[derive(Debug, Clone, Copy, PartialEq, Eq, Structural)]
pub enum LedgerError {
    /// The amount was zero or negative.
    InvalidAmount(i64),
    /// The amount asked for, then the balance that was available.
    InsufficientBalance(i64, i64),
    /// No wallet is on record for the sender, the receiver or the target.
    WalletNotFound,
    /// The wallet to be debited has been deactivated.
    WalletNotActive,
    /// A wallet is already on record for the user.
    StorageConflict,
    /// The store could not be reached, or did not answer in time.
    StorageUnavailable,
    /// Sender and receiver are the same wallet.
    SelfTransfer,
    /// The credited balance would leave the range of `i64`.
    BalanceOverflow,
}

/// The ledger's word for a refusal by the wallet entity.
pub open spec fn wallet_refusal(e: WalletError) -> LedgerError {
    match e {
        WalletError::InsufficientBalance(asked, available) => LedgerError::InsufficientBalance(
            asked,
            available,
        ),
        WalletError::InvalidAmount(amount) => LedgerError::InvalidAmount(amount),
    }
}

/// The words in which a refusal is reported.
pub open spec fn ledger_error_text(e: LedgerError) -> Seq<char> {
    match e {
        LedgerError::InvalidAmount(amount) => wallet_error_text(WalletError::InvalidAmount(amount)),
        LedgerError::InsufficientBalance(asked, available) => wallet_error_text(
            WalletError::InsufficientBalance(asked, available),
        ),
        LedgerError::WalletNotFound => "Wallet not found"@,
        LedgerError::WalletNotActive => "Wallet is not active"@,
        LedgerError::StorageConflict => "Wallet already exists"@,
        LedgerError::StorageUnavailable => "Storage unavailable"@,
        LedgerError::SelfTransfer => "Cannot transfer to the same wallet"@,
        LedgerError::BalanceOverflow => "Balance out of range"@,
    }
}

impl LedgerError {
    /// The refusal in words.
    pub fn message(&self) -> (text: String)
        ensures
            text@ == ledger_error_text(*self),
    {
        match self {
            LedgerError::InvalidAmount(amount) => WalletError::InvalidAmount(*amount).message(),
            LedgerError::InsufficientBalance(asked, available) => WalletError::InsufficientBalance(
                *asked,
                *available,
            ).message(),
            LedgerError::WalletNotFound => String::from_str("Wallet not found"),
            LedgerError::WalletNotActive => String::from_str("Wallet is not active"),
            LedgerError::StorageConflict => String::from_str("Wallet already exists"),
            LedgerError::StorageUnavailable => String::from_str("Storage unavailable"),
            LedgerError::SelfTransfer => String::from_str("Cannot transfer to the same wallet"),
            LedgerError::BalanceOverflow => String::from_str("Balance out of range"),
        }
    }

    /// The ledger's word for a refusal by the wallet entity.
    pub fn from_wallet(e: WalletError) -> (error: Self)
        ensures
            error == wallet_refusal(e),
    {
        match e {
            WalletError::InsufficientBalance(asked, available) => LedgerError::InsufficientBalance(
                asked,
                available,
            ),
            WalletError::InvalidAmount(amount) => LedgerError::InvalidAmount(amount),
        }
    }
}

/// What the store keeps of a wallet.
pub struct Account {
    pub id: i32,
    pub norek: Seq<char>,
    pub balance: i64,
    pub status: WalletStatus,
    pub audit: AuditMetadata,
}

/// What the store keeps of a transfer.
pub struct TransferEntry {
    pub id: Option<i32>,
    pub account_debet: Seq<char>,
    pub account_credit: Seq<char>,
    pub amount: i64,
    pub status: TransferStatus,
    pub audit: AuditMetadata,
}

/// What the store keeps of `transfer`.
pub open spec fn entry_of(transfer: Transfer) -> TransferEntry {
    TransferEntry {
        id: transfer.id,
        account_debet: transfer.account_debet@,
        account_credit: transfer.account_credit@,
        amount: transfer.amount,
        status: transfer.status,
        audit: transfer.audit,
    }
}

/// The entry that the attempt to move `amount` from the wallet of `from_id`
/// to that of `to_id` leaves in the journal: the wallets are referred to by
/// their owners' ids, the status says whether the money moved, and `audit`
/// holds the instants at which the attempt was made and decided.
pub open spec fn attempt_entry(
    from_id: i32,
    to_id: i32,
    amount: i64,
    moved: bool,
    audit: AuditMetadata,
) -> TransferEntry {
    TransferEntry {
        id: None,
        account_debet: decimal_text(from_id as i64),
        account_credit: decimal_text(to_id as i64),
        amount,
        status: if moved {
            TransferStatus::Success
        } else {
            TransferStatus::Failed
        },
        audit,
    }
}

/// `wallet` is a snapshot of `account`, held by `user_id`.
pub open spec fn shows(wallet: &Wallet, user_id: i32, account: Account) -> bool {
    &&& wallet.id == Some(account.id)
    &&& wallet.norek@ == account.norek
    &&& wallet.user_id == user_id
    &&& wallet.balance == account.balance
    &&& wallet.status == account.status
    &&& wallet.audit == account.audit
}

/// `wallet` is the picture that the caller has of `account` after a change
/// that it asked for: all of the account but the instant of the change,
/// which only the store knows.
pub open spec fn reflects(wallet: &Wallet, user_id: i32, account: Account) -> bool {
    &&& wallet.id == Some(account.id)
    &&& wallet.norek@ == account.norek
    &&& wallet.user_id == user_id
    &&& wallet.balance == account.balance
    &&& wallet.status == account.status
    &&& wallet.audit.created_date == account.audit.created_date
    &&& wallet.audit.updated_date is Some
}

/// A new active account, opened at `now`.
pub open spec fn opened(id: i32, norek: Seq<char>, balance: i64, now: i64) -> Account {
    Account {
        id,
        norek,
        balance,
        status: WalletStatus::Active,
        audit: AuditMetadata { created_date: now, updated_date: Some(now) },
    }
}

/// `account` with `balance` and `status`, as changed at `now`.
pub open spec fn changed(account: Account, balance: int, status: WalletStatus, now: i64) -> Account {
    Account {
        balance: balance as i64,
        status,
        audit: AuditMetadata {
            created_date: account.audit.created_date,
            updated_date: Some(now),
        },
        ..account
    }
}

/// The instant at which the account of `user_id` was last changed.
pub open spec fn changed_at(accounts: Map<i32, Account>, user_id: i32) -> i64 {
    match accounts[user_id].audit.updated_date {
        Some(at) => at,
        None => 0,
    }
}

/// No account is in debt.
pub open spec fn solvent(accounts: Map<i32, Account>) -> bool {
    forall|user_id: i32| #[trigger]
        accounts.contains_key(user_id) ==> accounts[user_id].balance >= 0
}

/// No account has the wallet id `id` yet.
pub open spec fn unused_id(accounts: Map<i32, Account>, id: i32) -> bool {
    forall|user_id: i32|
        accounts.contains_key(user_id) ==> (#[trigger] accounts[user_id]).id != id
}

/// No account has the account number `norek` yet.
pub open spec fn unused_norek(accounts: Map<i32, Account>, norek: Seq<char>) -> bool {
    forall|user_id: i32|
        accounts.contains_key(user_id) ==> (#[trigger] accounts[user_id]).norek != norek
}

/// No two accounts share an id or an account number.
pub open spec fn distinct(accounts: Map<i32, Account>) -> bool {
    forall|one: i32, other: i32|
        #![trigger accounts[one], accounts[other]]
        accounts.contains_key(one) && accounts.contains_key(other) && one != other ==> {
            &&& accounts[one].id != accounts[other].id
            &&& accounts[one].norek != accounts[other].norek
        }
}

/// Whether a wallet with `balance` may be opened for `user_id`.
pub open spec fn create_plan(accounts: Map<i32, Account>, user_id: i32, balance: i64) -> Result<
    (),
    LedgerError,
> {
    if balance < 0 {
        Err(LedgerError::InvalidAmount(balance))
    } else if accounts.contains_key(user_id) {
        Err(LedgerError::StorageConflict)
    } else {
        Ok(())
    }
}

/// The amount that a negative `delta` asks to take, capped at `i64::MAX`.
pub open spec fn requested(delta: i64) -> i64 {
    if delta == i64::MIN {
        i64::MAX
    } else {
        (-delta) as i64
    }
}

/// The amount that a negative `delta` asks to take, capped at `i64::MAX`.
pub fn requested_amount(delta: i64) -> (asked: i64)
    ensures
        asked == requested(delta),
{
    if delta == i64::MIN {
        i64::MAX
    } else {
        -delta
    }
}

/// Why a guarded debit of `asked` touched no wallet, given what a lookup of
/// the wallet then `found`: its status and balance, or nothing.
pub open spec fn refusal(found: Option<(WalletStatus, i64)>, asked: i64) -> LedgerError {
    match found {
        None => LedgerError::WalletNotFound,
        Some((status, balance)) => if status != WalletStatus::Active {
            LedgerError::WalletNotActive
        } else {
            LedgerError::InsufficientBalance(asked, balance)
        },
    }
}

/// Names the reason why a guarded debit of `asked` touched no wallet: there
/// is none, it is deactivated, or it holds too little.
pub fn refusal_of(found: Option<(WalletStatus, i64)>, asked: i64) -> (e: LedgerError)
    ensures
        e == refusal(found, asked),
{
    match found {
        None => LedgerError::WalletNotFound,
        Some((status, balance)) => if status != WalletStatus::Active {
            LedgerError::WalletNotActive
        } else {
            LedgerError::InsufficientBalance(asked, balance)
        },
    }
}

/// Reads what the credit leg of a transfer gave back: the receiver's new
/// balance, or nothing where the receiver has no wallet.
pub fn credited_balance(found: Option<i64>) -> (result: Result<i64, LedgerError>)
    ensures
        result == match found {
            Some(balance) => Ok::<i64, LedgerError>(balance),
            None => Err::<i64, LedgerError>(LedgerError::WalletNotFound),
        },
{
    match found {
        Some(balance) => Ok(balance),
        None => Err(LedgerError::WalletNotFound),
    }
}

/// Reads the number of wallets that a deactivation touched: none means that
/// the user has no wallet.
pub fn deactivation_result(touched: u64) -> (result: Result<(), LedgerError>)
    ensures
        result == if touched == 0 {
            Err::<(), LedgerError>(LedgerError::WalletNotFound)
        } else {
            Ok::<(), LedgerError>(())
        },
{
    if touched == 0 {
        Err(LedgerError::WalletNotFound)
    } else {
        Ok(())
    }
}

/// The account number of the wallet of `user_id` in a store that keeps one
/// wallet for each user: the user's id in decimal digits, which no other
/// user's wallet has.
pub fn account_number(user_id: i32) -> (norek: String)
    ensures
        norek@ == decimal_text(user_id as i64),
        forall|other: i32| other != user_id ==> #[trigger] decimal_text(other as i64) != norek@,
{
    proof {
        assert forall|other: i32| other != user_id implies #[trigger] decimal_text(other as i64)
            != decimal_text(user_id as i64) by {
            if decimal_text(other as i64) == decimal_text(user_id as i64) {
                lemma_decimal_text_injective(other as i64, user_id as i64);
            }
        }
    }
    decimal(user_id as i64)
}

/// Says whether a wallet may be opened with `balance`: no wallet starts in
/// debt.
pub fn validate_opening(balance: i64) -> (result: Result<(), LedgerError>)
    ensures
        result == if balance < 0 {
            Err::<(), LedgerError>(LedgerError::InvalidAmount(balance))
        } else {
            Ok::<(), LedgerError>(())
        },
{
    if balance < 0 {
        Err(LedgerError::InvalidAmount(balance))
    } else {
        Ok(())
    }
}

/// Whether `delta` may be added to the balance of `user_id`.
pub open spec fn adjust_plan(accounts: Map<i32, Account>, user_id: i32, delta: i64) -> Result<
    (),
    LedgerError,
> {
    if !accounts.contains_key(user_id) {
        Err(LedgerError::WalletNotFound)
    } else if delta < 0 && accounts[user_id].status != WalletStatus::Active {
        Err(LedgerError::WalletNotActive)
    } else if accounts[user_id].balance + delta < 0 {
        Err(LedgerError::InsufficientBalance(requested(delta), accounts[user_id].balance))
    } else if accounts[user_id].balance + delta > i64::MAX {
        Err(LedgerError::BalanceOverflow)
    } else {
        Ok(())
    }
}

/// The accounts once `delta` was added to the balance of `user_id`, at
/// `now`.
pub open spec fn after_adjust(
    accounts: Map<i32, Account>,
    user_id: i32,
    delta: i64,
    now: i64,
) -> Map<i32, Account> {
    accounts.insert(
        user_id,
        changed(
            accounts[user_id],
            accounts[user_id].balance + delta,
            accounts[user_id].status,
            now,
        ),
    )
}

/// The request names a positive amount and two different wallets.
pub open spec fn well_formed_request(from_id: i32, to_id: i32, amount: i64) -> bool {
    amount > 0 && from_id != to_id
}

/// What a transfer of `amount` from `from_id` to `to_id` comes to: the two
/// balances after it, the sender's first, or the reason why nothing moves.
pub open spec fn transfer_outcome(
    accounts: Map<i32, Account>,
    from_id: i32,
    to_id: i32,
    amount: i64,
) -> Result<(i64, i64), LedgerError> {
    if amount <= 0 {
        Err(LedgerError::InvalidAmount(amount))
    } else if from_id == to_id {
        Err(LedgerError::SelfTransfer)
    } else if !accounts.contains_key(from_id) {
        Err(LedgerError::WalletNotFound)
    } else if accounts[from_id].status != WalletStatus::Active {
        Err(LedgerError::WalletNotActive)
    } else if accounts[from_id].balance < amount {
        Err(LedgerError::InsufficientBalance(amount, accounts[from_id].balance))
    } else if !accounts.contains_key(to_id) {
        Err(LedgerError::WalletNotFound)
    } else if accounts[to_id].balance + amount > i64::MAX {
        Err(LedgerError::BalanceOverflow)
    } else {
        Ok(((accounts[from_id].balance - amount) as i64, (accounts[to_id].balance + amount) as i64))
    }
}

/// The accounts once both legs of a transfer were applied, at `now`.
pub open spec fn after_transfer(
    accounts: Map<i32, Account>,
    from_id: i32,
    to_id: i32,
    amount: i64,
    now: i64,
) -> Map<i32, Account> {
    accounts.insert(
        from_id,
        changed(
            accounts[from_id],
            accounts[from_id].balance - amount,
            accounts[from_id].status,
            now,
        ),
    ).insert(
        to_id,
        changed(accounts[to_id], accounts[to_id].balance + amount, accounts[to_id].status, now),
    )
}

/// Whether the wallet of `user_id` may be deactivated.
pub open spec fn delete_plan(accounts: Map<i32, Account>, user_id: i32) -> Result<(), LedgerError> {
    if accounts.contains_key(user_id) {
        Ok(())
    } else {
        Err(LedgerError::WalletNotFound)
    }
}

/// The accounts once the wallet of `user_id` was deactivated, at `now`.
pub open spec fn after_delete(accounts: Map<i32, Account>, user_id: i32, now: i64) -> Map<
    i32,
    Account,
> {
    accounts.insert(
        user_id,
        changed(accounts[user_id], accounts[user_id].balance as int, WalletStatus::NonActive, now),
    )
}

/// A ledger store. Every request is one unit of work: it is carried out in
/// full, or it is refused and the accounts stay as they were.
///
/// The contracts bind a store that is `faithful`. Of any other store, such as
/// one that other processes write to or that may be out of reach, they claim
/// nothing, and its answers are taken as they come. An implementation that
/// does not say what its accounts are is of that kind: unless it states them
/// itself, it has no accounts on record and is not faithful.
pub trait WalletProvider {
    /// The accounts on record, by owner.
    open spec fn accounts(&self) -> Map<i32, Account> {
        Map::empty()
    }

    /// The transfers on record, oldest first.
    open spec fn journal(&self) -> Seq<TransferEntry> {
        Seq::empty()
    }

    /// What the implementation needs to hold of itself between requests.
    open spec fn inv(&self) -> bool {
        true
    }

    /// Whether the store keeps `accounts` for this caller alone and answers
    /// every request by the rules of this module.
    open spec fn faithful(&self) -> bool {
        false
    }

    /// Looks the wallet of `user_id` up.
    fn get_wallet_by_userid(&self, user_id: i32) -> (result: Result<Option<Wallet>, LedgerError>)
        requires
            self.inv(),
        ensures
            self.faithful() ==> match result {
                Ok(Some(wallet)) => self.accounts().contains_key(user_id) && shows(
                    &wallet,
                    user_id,
                    self.accounts()[user_id],
                ),
                Ok(None) => !self.accounts().contains_key(user_id),
                Err(_) => false,
            },
    ;

    /// Opens an active wallet with `balance` for `user_id`, under an id and
    /// an account number that no other wallet has.
    fn create_wallet(&mut self, user_id: i32, balance: i64) -> (result: Result<Wallet, LedgerError>)
        requires
            old(self).inv(),
        ensures
            final(self).inv(),
            old(self).faithful() ==> {
                &&& final(self).faithful()
                &&& final(self).journal() == old(self).journal()
                &&& match result {
                    Ok(wallet) => {
                        &&& create_plan(old(self).accounts(), user_id, balance) is Ok
                        &&& wallet.id matches Some(id) && unused_id(old(self).accounts(), id)
                        &&& unused_norek(old(self).accounts(), wallet.norek@)
                        &&& final(self).accounts() == old(self).accounts().insert(
                            user_id,
                            opened(wallet.id->0, wallet.norek@, balance, wallet.audit.created_date),
                        )
                        &&& shows(&wallet, user_id, final(self).accounts()[user_id])
                    },
                    Err(e) => {
                        &&& create_plan(old(self).accounts(), user_id, balance) == Err::<
                            (),
                            LedgerError,
                        >(e)
                        &&& final(self).accounts() == old(self).accounts()
                    },
                }
            },
    ;

    /// Adds the signed `upcoming_balance` to the balance of `user_id`,
    /// unless the balance would fall below zero, and marks the account as
    /// changed now.
    fn update_balance(&mut self, user_id: i32, upcoming_balance: i64) -> (result: Result<
        (),
        LedgerError,
    >)
        requires
            old(self).inv(),
        ensures
            final(self).inv(),
            old(self).faithful() ==> {
                &&& final(self).faithful()
                &&& final(self).journal() == old(self).journal()
                &&& match result {
                    Ok(_) => {
                        &&& adjust_plan(old(self).accounts(), user_id, upcoming_balance) is Ok
                        &&& final(self).accounts() == after_adjust(
                            old(self).accounts(),
                            user_id,
                            upcoming_balance,
                            changed_at(final(self).accounts(), user_id),
                        )
                    },
                    Err(e) => {
                        &&& adjust_plan(old(self).accounts(), user_id, upcoming_balance) == Err::<
                            (),
                            LedgerError,
                        >(e)
                        &&& final(self).accounts() == old(self).accounts()
                    },
                }
            },
    ;

    /// Moves `amount` from the wallet of `from_id` to that of `to_id`, marks
    /// both accounts as changed now, and answers with both balances as they
    /// stand after it.
    fn transfer_balance(&mut self, from_id: i32, to_id: i32, amount: i64) -> (result: Result<
        (i64, i64),
        LedgerError,
    >)
        requires
            old(self).inv(),
        ensures
            final(self).inv(),
            old(self).faithful() ==> {
                &&& final(self).faithful()
                &&& final(self).journal() == old(self).journal()
                &&& match result {
                    Ok(balances) => {
                        &&& transfer_outcome(old(self).accounts(), from_id, to_id, amount) == Ok::<
                            (i64, i64),
                            LedgerError,
                        >(balances)
                        &&& final(self).accounts() == after_transfer(
                            old(self).accounts(),
                            from_id,
                            to_id,
                            amount,
                            changed_at(final(self).accounts(), from_id),
                        )
                    },
                    Err(e) => {
                        &&& transfer_outcome(old(self).accounts(), from_id, to_id, amount) == Err::<
                            (i64, i64),
                            LedgerError,
                        >(e)
                        &&& final(self).accounts() == old(self).accounts()
                    },
                }
            },
    ;

    /// Adds `transfer` to the journal. The accounts stay as they are.
    fn record_transfer(&mut self, transfer: Transfer) -> (result: Result<(), LedgerError>)
        requires
            old(self).inv(),
        ensures
            final(self).inv(),
            old(self).faithful() ==> {
                &&& final(self).faithful()
                &&& result is Ok
                &&& final(self).journal() == old(self).journal().push(entry_of(transfer))
                &&& final(self).accounts() == old(self).accounts()
            },
    ;

    /// Deactivates the wallet of `id` and marks the account as changed now;
    /// its balance stays.
    fn delete_wallet(&mut self, id: i32) -> (result: Result<(), LedgerError>)
        requires
            old(self).inv(),
        ensures
            final(self).inv(),
            old(self).faithful() ==> {
                &&& final(self).faithful()
                &&& final(self).journal() == old(self).journal()
                &&& match result {
                    Ok(_) => {
                        &&& delete_plan(old(self).accounts(), id) is Ok
                        &&& final(self).accounts() == after_delete(
                            old(self).accounts(),
                            id,
                            changed_at(final(self).accounts(), id),
                        )
                    },
                    Err(e) => {
                        &&& delete_plan(old(self).accounts(), id) == Err::<(), LedgerError>(e)
                        &&& final(self).accounts() == old(self).accounts()
                    },
                }
            },
    ;
}

/// A transfer that is carried out takes `amount` from the sender, gives
/// `amount` to the receiver, keeps the sum of the two balances, marks both
/// accounts as changed at the same instant and touches no other account; the
/// balances it answers with are those on record after it.
pub proof fn lemma_transfer_moves_exactly_the_amount(
    accounts: Map<i32, Account>,
    from_id: i32,
    to_id: i32,
    amount: i64,
    now: i64,
)
    requires
        transfer_outcome(accounts, from_id, to_id, amount) is Ok,
    ensures
        ({
            let after = after_transfer(accounts, from_id, to_id, amount, now);
            &&& after.dom() == accounts.dom()
            &&& after[from_id].balance == accounts[from_id].balance - amount
            &&& after[to_id].balance == accounts[to_id].balance + amount
            &&& after[from_id].balance + after[to_id].balance == accounts[from_id].balance
                + accounts[to_id].balance
            &&& after[from_id].audit.updated_date == Some(now)
            &&& after[to_id].audit.updated_date == Some(now)
            &&& transfer_outcome(accounts, from_id, to_id, amount) == Ok::<(i64, i64), LedgerError>(
                (after[from_id].balance, after[to_id].balance),
            )
            &&& forall|other: i32|
                other != from_id && other != to_id && accounts.contains_key(other)
                    ==> #[trigger] after[other] == accounts[other]
        }),
{
    let after = after_transfer(accounts, from_id, to_id, amount, now);
    assert(after.dom() =~= accounts.dom());
}

/// Of two transfers of the same amount that draw on a wallet that holds
/// enough for one of them only, the one that the store serves first is
/// carried out and the other is refused for want of balance, whoever the
/// receivers are and whichever of the two comes first; the wallet ends with
/// what it had less the amount, taken once, and the first receiver with what
/// it had and the amount, given once.
pub proof fn lemma_second_of_two_debits_is_refused(
    accounts: Map<i32, Account>,
    from_id: i32,
    first_to: i32,
    second_to: i32,
    amount: i64,
    now: i64,
)
    requires
        transfer_outcome(accounts, from_id, first_to, amount) is Ok,
        accounts[from_id].balance < 2 * amount,
        second_to != from_id,
    ensures
        ({
            let after = after_transfer(accounts, from_id, first_to, amount, now);
            &&& after[from_id].balance == accounts[from_id].balance - amount
            &&& after[from_id].balance >= 0
            &&& after[first_to].balance == accounts[first_to].balance + amount
            &&& transfer_outcome(after, from_id, second_to, amount) == Err::<
                (i64, i64),
                LedgerError,
            >(LedgerError::InsufficientBalance(amount, after[from_id].balance))
        }),
{
}

/// Where a transfer between two wallets is refused on the sender's account,
/// the refusal is the one that a lookup of the sender names.
pub proof fn lemma_refusal_names_the_senders_failing(
    accounts: Map<i32, Account>,
    from_id: i32,
    to_id: i32,
    amount: i64,
)
    requires
        well_formed_request(from_id, to_id, amount),
        !accounts.contains_key(from_id) || accounts[from_id].status != WalletStatus::Active
            || accounts[from_id].balance < amount,
    ensures
        transfer_outcome(accounts, from_id, to_id, amount) == Err::<(i64, i64), LedgerError>(
            refusal(
                if accounts.contains_key(from_id) {
                    Some((accounts[from_id].status, accounts[from_id].balance))
                } else {
                    None
                },
                amount,
            ),
        ),
{
}

/// No request that the store carries out leaves an account in debt.
pub proof fn lemma_carried_out_requests_keep_accounts_solvent(
    accounts: Map<i32, Account>,
    user_id: i32,
    other_id: i32,
    amount: i64,
    id: i32,
    norek: Seq<char>,
    now: i64,
)
    requires
        solvent(accounts),
    ensures
        create_plan(accounts, user_id, amount) is Ok ==> solvent(
            accounts.insert(user_id, opened(id, norek, amount, now)),
        ),
        adjust_plan(accounts, user_id, amount) is Ok ==> solvent(
            after_adjust(accounts, user_id, amount, now),
        ),
        transfer_outcome(accounts, user_id, other_id, amount) is Ok ==> solvent(
            after_transfer(accounts, user_id, other_id, amount, now),
        ),
        delete_plan(accounts, user_id) is Ok ==> solvent(after_delete(accounts, user_id, now)),
{
    assert(accounts.contains_key(user_id) ==> accounts[user_id].balance >= 0);
    assert(accounts.contains_key(other_id) ==> accounts[other_id].balance >= 0);
}

/// No request that the store carries out gives two accounts the same id or
/// account number: a new wallet gets ones that are not in use, and no other
/// request touches them.
pub proof fn lemma_carried_out_requests_keep_accounts_distinct(
    accounts: Map<i32, Account>,
    user_id: i32,
    other_id: i32,
    amount: i64,
    id: i32,
    norek: Seq<char>,
    now: i64,
)
    requires
        distinct(accounts),
    ensures
        create_plan(accounts, user_id, amount) is Ok && unused_id(accounts, id) && unused_norek(
            accounts,
            norek,
        ) ==> distinct(accounts.insert(user_id, opened(id, norek, amount, now))),
        adjust_plan(accounts, user_id, amount) is Ok ==> distinct(
            after_adjust(accounts, user_id, amount, now),
        ),
        transfer_outcome(accounts, user_id, other_id, amount) is Ok ==> distinct(
            after_transfer(accounts, user_id, other_id, amount, now),
        ),
        delete_plan(accounts, user_id) is Ok ==> distinct(after_delete(accounts, user_id, now)),
{
    if create_plan(accounts, user_id, amount) is Ok && unused_id(accounts, id) && unused_norek(
        accounts,
        norek,
    ) {
        let after = accounts.insert(user_id, opened(id, norek, amount, now));
        assert forall|one: i32, other: i32|
            after.contains_key(one) && after.contains_key(other) && one != other implies ({
            &&& #[trigger] after[one].id != #[trigger] after[other].id
            &&& after[one].norek != after[other].norek
        }) by {
            if one != user_id && other != user_id {
                assert(accounts[one].id != accounts[other].id);
            }
        }
    }
    if adjust_plan(accounts, user_id, amount) is Ok {
        let after = after_adjust(accounts, user_id, amount, now);
        assert forall|one: i32, other: i32|
            after.contains_key(one) && after.contains_key(other) && one != other implies ({
            &&& #[trigger] after[one].id != #[trigger] after[other].id
            &&& after[one].norek != after[other].norek
        }) by {
            assert(accounts[one].id != accounts[other].id);
        }
    }
    if transfer_outcome(accounts, user_id, other_id, amount) is Ok {
        let after = after_transfer(accounts, user_id, other_id, amount, now);
        assert forall|one: i32, other: i32|
            after.contains_key(one) && after.contains_key(other) && one != other implies ({
            &&& #[trigger] after[one].id != #[trigger] after[other].id
            &&& after[one].norek != after[other].norek
        }) by {
            assert(accounts[one].id != accounts[other].id);
        }
    }
    if delete_plan(accounts, user_id) is Ok {
        let after = after_delete(accounts, user_id, now);
        assert forall|one: i32, other: i32|
            after.contains_key(one) && after.contains_key(other) && one != other implies ({
            &&& #[trigger] after[one].id != #[trigger] after[other].id
            &&& after[one].norek != after[other].norek
        }) by {
            assert(accounts[one].id != accounts[other].id);
        }
    }
}

/// Deactivating a wallet sets its status and the mark of the change, and
/// nothing else; no transfer and no adjustment draws on it afterwards.
pub proof fn lemma_deactivated_wallet_cannot_be_debited(
    accounts: Map<i32, Account>,
    user_id: i32,
    to_id: i32,
    amount: i64,
    now: i64,
)
    requires
        delete_plan(accounts, user_id) is Ok,
    ensures
        ({
            let after = after_delete(accounts, user_id, now);
            &&& after[user_id].status == WalletStatus::NonActive
            &&& after[user_id].balance == accounts[user_id].balance
            &&& after[user_id].id == accounts[user_id].id
            &&& after[user_id].norek == accounts[user_id].norek
            &&& transfer_outcome(after, user_id, to_id, amount) is Err
            &&& amount > 0 && to_id != user_id ==> transfer_outcome(after, user_id, to_id, amount)
                == Err::<(i64, i64), LedgerError>(LedgerError::WalletNotActive)
            &&& adjust_plan(after, user_id, amount) is Ok ==> amount >= 0
        }),
{
}

/// A store that can stand behind the service.
pub trait DbProvider: WalletProvider + Send + Sync {

}

impl<T: WalletProvider + Send + Sync> DbProvider for T {

}

} // verus!
