use wallet_service::memory::MemoryLedger;
use wallet_service::repository::{LedgerError, WalletProvider};
use wallet_service::transfer::{Transfer, TransferStatus};
use wallet_service::usecase::{
    after_conflict, after_create, check_debit, check_receiver, settle_transfer,
    validate_transfer, Opening, Usecase,
};
use wallet_service::wallet::{Wallet, WalletStatus};

fn service_with(balances: &[(i32, i64)]) -> Usecase<MemoryLedger> {
    let mut ledger = MemoryLedger::new();
    for (user_id, balance) in balances {
        ledger.create_wallet(*user_id, *balance).unwrap();
    }
    Usecase::new(ledger)
}

/// A store that cannot be reached.
struct Unreachable;

impl WalletProvider for Unreachable {
    fn get_wallet_by_userid(&self, _user_id: i32) -> Result<Option<Wallet>, LedgerError> {
        Err(LedgerError::StorageUnavailable)
    }

    fn create_wallet(&mut self, _user_id: i32, _balance: i64) -> Result<Wallet, LedgerError> {
        Err(LedgerError::StorageUnavailable)
    }

    fn update_balance(&mut self, _user_id: i32, _delta: i64) -> Result<(), LedgerError> {
        Err(LedgerError::StorageUnavailable)
    }

    fn transfer_balance(&mut self, _from: i32, _to: i32, _amount: i64) -> Result<(i64, i64), LedgerError> {
        Err(LedgerError::StorageUnavailable)
    }

    fn record_transfer(&mut self, _transfer: Transfer) -> Result<(), LedgerError> {
        Err(LedgerError::StorageUnavailable)
    }

    fn delete_wallet(&mut self, _id: i32) -> Result<(), LedgerError> {
        Err(LedgerError::StorageUnavailable)
    }
}

#[test]
fn inquiry_opens_an_empty_active_wallet() {
    let mut service = service_with(&[]);
    let w = service.get_or_create_wallet(3).unwrap();
    assert_eq!(w.user_id, 3);
    assert_eq!(w.balance, 0);
    assert_eq!(w.status, WalletStatus::Active);
    assert!(w.id.is_some());
}

#[test]
fn second_inquiry_finds_the_wallet_of_the_first() {
    let mut service = service_with(&[]);
    let first = service.get_or_create_wallet(3).unwrap();
    let second = service.get_or_create_wallet(3).unwrap();
    assert_eq!(first.id, second.id);
    assert_eq!(second.balance, 0);
    assert_eq!(second.status, WalletStatus::Active);
}

#[test]
fn inquiry_shows_the_wallet_on_record() {
    let mut service = service_with(&[(3, 120)]);
    let w = service.get_or_create_wallet(3).unwrap();
    assert_eq!(w.balance, 120);
    service.delete_wallet(3).unwrap();
    let w = service.get_or_create_wallet(3).unwrap();
    assert_eq!(w.status, WalletStatus::NonActive);
    assert_eq!(w.balance, 120);
}

#[test]
fn transfer_of_forty_leaves_sixty_and_ninety() {
    let mut service = service_with(&[(1, 100), (2, 50)]);
    let sender = service.transfer_balance(1, 2, 40).unwrap();
    assert_eq!(sender.user_id, 1);
    assert_eq!(sender.balance, 60);
    assert_eq!(service.get_or_create_wallet(1).unwrap().balance, 60);
    assert_eq!(service.get_or_create_wallet(2).unwrap().balance, 90);
}

#[test]
fn transfer_of_a_hundred_and_fifty_from_a_hundred_fails() {
    let mut service = service_with(&[(1, 100), (2, 50)]);
    assert_eq!(
        service.transfer_balance(1, 2, 150).unwrap_err(),
        LedgerError::InsufficientBalance(150, 100)
    );
    assert_eq!(service.get_or_create_wallet(1).unwrap().balance, 100);
    assert_eq!(service.get_or_create_wallet(2).unwrap().balance, 50);
}

#[test]
fn transfer_validates_before_it_looks_anything_up() {
    let mut service = service_with(&[]);
    assert_eq!(service.transfer_balance(1, 2, 0).unwrap_err(), LedgerError::InvalidAmount(0));
    assert_eq!(service.transfer_balance(1, 2, -7).unwrap_err(), LedgerError::InvalidAmount(-7));
    assert_eq!(service.transfer_balance(1, 1, 7).unwrap_err(), LedgerError::SelfTransfer);
    assert_eq!(service.transfer_balance(1, 1, 0).unwrap_err(), LedgerError::InvalidAmount(0));
}

#[test]
fn transfer_needs_sender_and_receiver() {
    let mut service = service_with(&[(1, 100)]);
    assert_eq!(service.transfer_balance(9, 1, 10).unwrap_err(), LedgerError::WalletNotFound);
    assert_eq!(service.transfer_balance(1, 9, 10).unwrap_err(), LedgerError::WalletNotFound);
    assert_eq!(service.transfer_balance(9, 8, 10).unwrap_err(), LedgerError::WalletNotFound);
    assert_eq!(service.get_or_create_wallet(1).unwrap().balance, 100);
}

#[test]
fn sender_without_funds_is_reported_before_a_missing_receiver() {
    let mut service = service_with(&[(1, 5)]);
    assert_eq!(
        service.transfer_balance(1, 9, 10).unwrap_err(),
        LedgerError::InsufficientBalance(10, 5)
    );
}

#[test]
fn transfer_from_a_deleted_wallet_is_rejected() {
    let mut service = service_with(&[(1, 100), (2, 50)]);
    assert_eq!(service.delete_wallet(1), Ok(()));
    let w = service.get_or_create_wallet(1).unwrap();
    assert_eq!(w.status, WalletStatus::NonActive);
    assert_eq!(w.balance, 100);
    assert_eq!(service.transfer_balance(1, 2, 10).unwrap_err(), LedgerError::WalletNotActive);
    assert_eq!(service.get_or_create_wallet(1).unwrap().balance, 100);
    assert_eq!(service.get_or_create_wallet(2).unwrap().balance, 50);
}

#[test]
fn transfer_passes_the_overflow_of_the_receiver_on() {
    let mut service = service_with(&[(1, 100), (2, i64::MAX)]);
    assert_eq!(service.transfer_balance(1, 2, 1).unwrap_err(), LedgerError::BalanceOverflow);
    assert_eq!(service.get_or_create_wallet(1).unwrap().balance, 100);
}

#[test]
fn delete_of_a_missing_wallet_is_not_found() {
    let mut service = service_with(&[(1, 100)]);
    assert_eq!(service.delete_wallet(2), Err(LedgerError::WalletNotFound));
    assert_eq!(service.delete_wallet(1), Ok(()));
    assert_eq!(service.delete_wallet(1), Ok(()));
}

#[test]
fn update_balance_debits_the_wallet() {
    let mut service = service_with(&[(1, 100)]);
    let w = service.update_balance(1, 30).unwrap();
    assert_eq!(w.balance, 70);
    assert_eq!(service.get_or_create_wallet(1).unwrap().balance, 70);
}

#[test]
fn update_balance_reports_each_refusal() {
    let mut service = service_with(&[(1, 100), (2, 10)]);
    assert_eq!(service.update_balance(9, 30).unwrap_err(), LedgerError::WalletNotFound);
    assert_eq!(service.update_balance(1, 0).unwrap_err(), LedgerError::InvalidAmount(0));
    assert_eq!(service.update_balance(1, -30).unwrap_err(), LedgerError::InvalidAmount(-30));
    assert_eq!(
        service.update_balance(1, 101).unwrap_err(),
        LedgerError::InsufficientBalance(101, 100)
    );
    service.delete_wallet(2).unwrap();
    assert_eq!(service.update_balance(2, 5).unwrap_err(), LedgerError::WalletNotActive);
    assert_eq!(service.get_or_create_wallet(1).unwrap().balance, 100);
    assert_eq!(service.get_or_create_wallet(2).unwrap().balance, 10);
}

#[test]
fn an_unreachable_store_is_reported_as_unavailable() {
    let mut service = Usecase::new(Unreachable);
    assert_eq!(service.get_or_create_wallet(1).unwrap_err(), LedgerError::StorageUnavailable);
    assert_eq!(service.transfer_balance(1, 2, 5).unwrap_err(), LedgerError::StorageUnavailable);
    assert_eq!(service.delete_wallet(1).unwrap_err(), LedgerError::StorageUnavailable);
    assert_eq!(service.update_balance(1, 5).unwrap_err(), LedgerError::StorageUnavailable);
    assert_eq!(service.transfer_balance(1, 2, 0).unwrap_err(), LedgerError::InvalidAmount(0));
}

#[test]
fn every_transfer_attempt_is_recorded() {
    let mut service = service_with(&[(1, 100), (2, 50)]);
    assert_eq!(service.repo().journal_len(), 0);
    service.transfer_balance(1, 2, 40).unwrap();
    service.transfer_balance(1, 2, 150).unwrap_err();
    service.transfer_balance(2, 2, 1).unwrap_err();
    assert_eq!(service.repo().journal_len(), 3);
    let done = service.repo().recorded(0).unwrap();
    assert_eq!(done.account_debet, "1");
    assert_eq!(done.account_credit, "2");
    assert_eq!(done.amount, 40);
    assert_eq!(done.status, TransferStatus::Success);
    assert!(done.audit.updated_date.is_some());
    let refused = service.repo().recorded(1).unwrap();
    assert_eq!(refused.amount, 150);
    assert_eq!(refused.status, TransferStatus::Failed);
    assert_eq!(refused.id, None);
    assert!(refused.audit.updated_date.is_some());
    let to_self = service.repo().recorded(2).unwrap();
    assert_eq!(to_self.account_debet, "2");
    assert_eq!(to_self.account_credit, "2");
    assert_eq!(to_self.status, TransferStatus::Failed);
}

#[test]
fn other_requests_leave_the_journal_alone() {
    let mut service = service_with(&[(1, 100)]);
    service.get_or_create_wallet(2).unwrap();
    service.update_balance(1, 10).unwrap();
    service.delete_wallet(1).unwrap();
    assert_eq!(service.repo().journal_len(), 0);
}

#[test]
fn transfer_record_on_given_values() {
    let t = Usecase::<MemoryLedger>::transfer_record(-3, 12, 5, true);
    assert_eq!(t.id, None);
    assert_eq!(t.account_debet, "-3");
    assert_eq!(t.account_credit, "12");
    assert_eq!(t.amount, 5);
    assert_eq!(t.status, TransferStatus::Success);
    let t = Usecase::<MemoryLedger>::transfer_record(1, 2, 0, false);
    assert_eq!(t.status, TransferStatus::Failed);
}

#[test]
fn decisions_on_given_replies() {
    assert_eq!(validate_transfer(1, 2, 5), Ok(()));
    assert_eq!(validate_transfer(1, 2, 0), Err(LedgerError::InvalidAmount(0)));
    assert_eq!(validate_transfer(1, 1, 5), Err(LedgerError::SelfTransfer));
    assert_eq!(check_debit(None, 5).unwrap_err(), LedgerError::WalletNotFound);
    let mut ledger = MemoryLedger::new();
    let w = ledger.create_wallet(1, 100).unwrap();
    assert_eq!(check_debit(Some(w.snapshot()), 40).unwrap().balance, 60);
    assert_eq!(
        check_debit(Some(w.snapshot()), 101).unwrap_err(),
        LedgerError::InsufficientBalance(101, 100)
    );
    assert_eq!(check_debit(Some(w.snapshot()), 0).unwrap_err(), LedgerError::InvalidAmount(0));
    assert_eq!(check_receiver(None), Err(LedgerError::WalletNotFound));
    assert_eq!(check_receiver(Some(w.snapshot())), Ok(()));
    let settled = settle_transfer(w.snapshot(), Ok((55, 7))).unwrap();
    assert_eq!(settled.balance, 55);
    assert_eq!(settled.user_id, 1);
    assert_eq!(
        settle_transfer(w, Err(LedgerError::StorageUnavailable)).unwrap_err(),
        LedgerError::StorageUnavailable
    );
}

/// A store on which another request has just opened the wallet that this
/// one found missing.
struct Raced {
    winner: Wallet,
    lookups: std::cell::Cell<u32>,
}

impl WalletProvider for Raced {
    fn get_wallet_by_userid(&self, _user_id: i32) -> Result<Option<Wallet>, LedgerError> {
        self.lookups.set(self.lookups.get() + 1);
        if self.lookups.get() == 1 {
            Ok(None)
        } else {
            Ok(Some(self.winner.snapshot()))
        }
    }

    fn create_wallet(&mut self, _user_id: i32, _balance: i64) -> Result<Wallet, LedgerError> {
        Err(LedgerError::StorageConflict)
    }

    fn update_balance(&mut self, _user_id: i32, _delta: i64) -> Result<(), LedgerError> {
        Err(LedgerError::StorageUnavailable)
    }

    fn transfer_balance(&mut self, _from: i32, _to: i32, _amount: i64) -> Result<(i64, i64), LedgerError> {
        Err(LedgerError::StorageUnavailable)
    }

    fn record_transfer(&mut self, _transfer: Transfer) -> Result<(), LedgerError> {
        Err(LedgerError::StorageUnavailable)
    }

    fn delete_wallet(&mut self, _id: i32) -> Result<(), LedgerError> {
        Err(LedgerError::StorageUnavailable)
    }
}

#[test]
fn the_loser_of_a_race_to_open_a_wallet_finds_the_winner() {
    let mut ledger = MemoryLedger::new();
    let winner = ledger.create_wallet(8, 0).unwrap();
    let mut service = Usecase::new(Raced { winner, lookups: std::cell::Cell::new(0) });
    let found = service.get_or_create_wallet(8).unwrap();
    assert_eq!(found.user_id, 8);
    assert_eq!(found.id, Some(8));
    assert_eq!(found.balance, 0);
}

#[test]
fn replies_to_the_opening_of_a_wallet() {
    let mut ledger = MemoryLedger::new();
    let w = ledger.create_wallet(8, 0).unwrap();
    assert!(matches!(after_create(Ok(w.snapshot())), Opening::Opened(_)));
    assert!(matches!(after_create(Err(LedgerError::StorageConflict)), Opening::LookAgain));
    assert!(matches!(
        after_create(Err(LedgerError::StorageUnavailable)),
        Opening::Refused(LedgerError::StorageUnavailable)
    ));
    assert_eq!(after_conflict(Ok(Some(w))).unwrap().user_id, 8);
    assert_eq!(after_conflict(Ok(None)).unwrap_err(), LedgerError::StorageConflict);
    assert_eq!(
        after_conflict(Err(LedgerError::StorageUnavailable)).unwrap_err(),
        LedgerError::StorageUnavailable
    );
}
