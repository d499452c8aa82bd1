use wallet_service::base::{AuditMetadata, Auditable, BaseResponse};
use wallet_service::transfer::{Transfer, TransferStatus};
use wallet_service::user::User;
use wallet_service::wallet::{Wallet, WalletError, WalletStatus};

fn wallet_with(balance: i64) -> Wallet {
    Wallet::new(Some(7), "0012345".to_string(), 42, balance, AuditMetadata::created_at(1_000))
}

#[test]
fn new_wallet_is_active_and_keeps_its_fields() {
    let w = wallet_with(100);
    assert_eq!(w.id, Some(7));
    assert_eq!(w.norek, "0012345");
    assert_eq!(w.user_id, 42);
    assert_eq!(w.balance, 100);
    assert_eq!(w.status, WalletStatus::Active);
    assert_eq!(w.audit, AuditMetadata { created_date: 1_000, updated_date: None });
}

#[test]
fn credit_adds_the_amount_and_touches_the_audit() {
    let mut w = wallet_with(100);
    assert_eq!(w.credit(25), Ok(()));
    assert_eq!(w.balance, 125);
    assert_eq!(w.audit.created_date, 1_000);
    assert!(w.audit.updated_date.is_some());
}

#[test]
fn credit_rejects_zero_and_negative_amounts() {
    let mut w = wallet_with(100);
    assert_eq!(w.credit(0), Err(WalletError::InvalidAmount(0)));
    assert_eq!(w.credit(-5), Err(WalletError::InvalidAmount(-5)));
    assert_eq!(w.balance, 100);
    assert_eq!(w.audit.updated_date, None);
}

#[test]
fn credit_up_to_the_largest_balance() {
    let mut w = wallet_with(i64::MAX - 1);
    assert_eq!(w.credit(1), Ok(()));
    assert_eq!(w.balance, i64::MAX);
}

#[test]
fn debit_takes_the_amount_and_touches_the_audit() {
    let mut w = wallet_with(100);
    assert_eq!(w.debit(40), Ok(()));
    assert_eq!(w.balance, 60);
    assert_eq!(w.audit.created_date, 1_000);
    assert!(w.audit.updated_date.is_some());
}

#[test]
fn debit_of_the_whole_balance_leaves_zero() {
    let mut w = wallet_with(100);
    assert_eq!(w.debit(100), Ok(()));
    assert_eq!(w.balance, 0);
}

#[test]
fn debit_of_a_non_positive_amount_is_invalid_and_changes_nothing() {
    let mut w = wallet_with(100);
    assert_eq!(w.debit(0), Err(WalletError::InvalidAmount(0)));
    assert_eq!(w.debit(-1), Err(WalletError::InvalidAmount(-1)));
    assert_eq!(w.debit(i64::MIN), Err(WalletError::InvalidAmount(i64::MIN)));
    assert_eq!(w.balance, 100);
    assert_eq!(w.audit.updated_date, None);
}

#[test]
fn debit_beyond_the_balance_reports_both_values_and_changes_nothing() {
    let mut w = wallet_with(100);
    assert_eq!(w.debit(150), Err(WalletError::InsufficientBalance(150, 100)));
    assert_eq!(w.debit(101), Err(WalletError::InsufficientBalance(101, 100)));
    assert_eq!(w.balance, 100);
    assert_eq!(w.audit.updated_date, None);
}

#[test]
fn balance_stays_non_negative_through_accepted_changes() {
    let mut w = wallet_with(0);
    let steps: [(bool, i64); 8] =
        [(true, 30), (false, 10), (false, 25), (true, 5), (false, 25), (false, 1), (true, 0), (false, -3)];
    for (is_credit, amount) in steps {
        let before = w.balance;
        let outcome = if is_credit { w.credit(amount) } else { w.debit(amount) };
        if outcome.is_err() {
            assert_eq!(w.balance, before);
        }
        assert!(w.balance >= 0);
    }
    assert_eq!(w.balance, 0);
}

#[test]
fn snapshot_is_a_copy_and_not_a_handle() {
    let w = wallet_with(100);
    let mut copy = w.snapshot();
    assert_eq!(copy.debit(30), Ok(()));
    assert_eq!(copy.balance, 70);
    assert_eq!(w.balance, 100);
    assert_eq!(copy.norek, w.norek);
    assert_eq!(copy.id, w.id);
}

#[test]
fn audit_metadata_records_creation_and_change() {
    let mut audit = AuditMetadata::created_at(5);
    assert_eq!(audit, AuditMetadata { created_date: 5, updated_date: None });
    audit.touch_at(9);
    assert_eq!(audit, AuditMetadata { created_date: 5, updated_date: Some(9) });
    let mut fresh = AuditMetadata::new();
    assert_eq!(fresh.updated_date, None);
    assert!(fresh.created_date > 1_600_000_000_000);
    let created = fresh.created_date;
    fresh.touch();
    assert_eq!(fresh.created_date, created);
    assert!(fresh.updated_date.is_some());
}

#[test]
fn auditable_gives_access_to_the_audit() {
    let mut w = wallet_with(1);
    assert_eq!(*w.audit(), AuditMetadata { created_date: 1_000, updated_date: None });
    w.audit_mut().touch_at(2_000);
    assert_eq!(w.audit.updated_date, Some(2_000));
    assert_eq!(w.balance, 1);
}

#[test]
fn transfer_starts_as_given_and_has_no_id() {
    let t = Transfer::new("111", "222", 40, TransferStatus::Pending, AuditMetadata::created_at(3));
    assert_eq!(t.id, None);
    assert_eq!(t.account_debet, "111");
    assert_eq!(t.account_credit, "222");
    assert_eq!(t.amount, 40);
    assert_eq!(t.status, TransferStatus::Pending);
    assert_eq!(t.audit, AuditMetadata { created_date: 3, updated_date: None });
}

#[test]
fn transfer_starts_as_pending_whatever_status_is_named() {
    for named in [TransferStatus::Pending, TransferStatus::Success, TransferStatus::Failed] {
        let t = Transfer::new("111", "222", 40, named, AuditMetadata::created_at(3));
        assert_eq!(t.status, TransferStatus::Pending);
        assert_eq!(t.audit.updated_date, None);
    }
}

#[test]
fn transfer_marks_set_the_status_and_touch_the_audit() {
    let mut t = Transfer::new("111", "222", 40, TransferStatus::Pending, AuditMetadata::created_at(3));
    t.mark_success();
    assert_eq!(t.status, TransferStatus::Success);
    assert!(t.audit.updated_date.is_some());
    assert_eq!(t.audit.created_date, 3);
    let mut t = Transfer::new("111", "222", 40, TransferStatus::Pending, AuditMetadata::created_at(3));
    t.mark_failed();
    assert_eq!(t.status, TransferStatus::Failed);
    assert!(t.audit.updated_date.is_some());
    t.mark_pending();
    assert_eq!(t.status, TransferStatus::Pending);
    assert_eq!(t.amount, 40);
    assert_eq!(t.account_debet, "111");
}

#[test]
fn new_user_has_no_id_and_no_update() {
    let u = User::new("a@example.org", "Ayu");
    assert_eq!(u.id, None);
    assert_eq!(u.email, "a@example.org");
    assert_eq!(u.name, "Ayu");
    assert_eq!(u.audit.updated_date, None);
}

#[test]
fn base_response_keeps_its_parts() {
    let r = BaseResponse::new("t-1".to_string(), "Success".to_string(), Some(5u8));
    assert_eq!(r.trace_id, "t-1");
    assert_eq!(r.message, "Success");
    assert_eq!(r.data, Some(5u8));
    let none: BaseResponse<u8> = BaseResponse::new(String::new(), "failed".to_string(), None);
    assert_eq!(none.data, None);
}

#[test]
fn statuses_have_names() {
    assert_eq!(WalletStatus::Active.name(), "Active");
    assert_eq!(WalletStatus::NonActive.name(), "NonActive");
    assert_eq!(WalletStatus::from_name("Active"), Some(WalletStatus::Active));
    assert_eq!(WalletStatus::from_name("NonActive"), Some(WalletStatus::NonActive));
    assert_eq!(WalletStatus::from_name("active"), None);
    assert_eq!(WalletStatus::from_name(""), None);
    assert_eq!(WalletStatus::from_name("Active "), None);
    assert_eq!(TransferStatus::Pending.name(), "Pending");
    assert_eq!(TransferStatus::Success.name(), "Success");
    assert_eq!(TransferStatus::Failed.name(), "Failed");
}
