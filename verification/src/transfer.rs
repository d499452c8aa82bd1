//! The record of a requested movement of money and its status.

use vstd::prelude::*;
use vstd::string::StringExecFns;
use crate::base::{AuditMetadata, Auditable};

verus! {

#[derive(Debug, Clone, Copy, PartialEq, Eq, Structural)]
pub enum TransferStatus {
    Pending,
    Success,
    Failed,
}

impl TransferStatus {
    /// The name under which the status is kept and sent.
    pub open spec fn name_text(self) -> Seq<char> {
        match self {
            TransferStatus::Pending => "Pending"@,
            TransferStatus::Success => "Success"@,
            TransferStatus::Failed => "Failed"@,
        }
    }

    /// The name under which the status is kept and sent.
    pub fn name(&self) -> (name: &'static str)
        ensures
            name@ == self.name_text(),
    {
        match self {
            TransferStatus::Pending => "Pending",
            TransferStatus::Success => "Success",
            TransferStatus::Failed => "Failed",
        }
    }

    /// `Success` and `Failed` end a transfer's life.
    pub open spec fn is_terminal(self) -> bool {
        self != TransferStatus::Pending
    }
}

#[derive(Debug, Clone)]
pub struct Transfer {
    pub id: Option<i32>,
    pub account_debet: String,
    pub account_credit: String,
    pub amount: i64,
    pub status: TransferStatus,
    pub audit: AuditMetadata,
}

impl Transfer {
    /// `self` with `status` and a later update mark, all else equal.
    pub open spec fn marked(&self, after: &Transfer, status: TransferStatus) -> bool {
        &&& after.status == status
        &&& after.id == self.id
        &&& after.account_debet == self.account_debet
        &&& after.account_credit == self.account_credit
        &&& after.amount == self.amount
        &&& after.audit.created_date == self.audit.created_date
        &&& after.audit.updated_date is Some
    }

    /// A transfer as it is requested. Every transfer starts as `Pending`,
    /// whatever `status` the caller names: the other states are reached by
    /// the marks below.
    pub fn new(
        account_debet: &str,
        account_credit: &str,
        amount: i64,
        status: TransferStatus,
        audit: AuditMetadata,
    ) -> (transfer: Self)
        ensures
            transfer.id is None,
            transfer.account_debet@ == account_debet@,
            transfer.account_credit@ == account_credit@,
            transfer.amount == amount,
            transfer.status == TransferStatus::Pending,
            transfer.audit == audit,
    {
        Self {
            id: None,
            account_debet: String::from_str(account_debet),
            account_credit: String::from_str(account_credit),
            amount,
            status: TransferStatus::Pending,
            audit,
        }
    }

    pub fn mark_success(&mut self)
        ensures
            old(self).marked(final(self), TransferStatus::Success),
    {
        self.status = TransferStatus::Success;
        self.audit.touch();
    }

    pub fn mark_failed(&mut self)
        ensures
            old(self).marked(final(self), TransferStatus::Failed),
    {
        self.status = TransferStatus::Failed;
        self.audit.touch();
    }

    pub fn mark_pending(&mut self)
        ensures
            old(self).marked(final(self), TransferStatus::Pending),
    {
        self.status = TransferStatus::Pending;
        self.audit.touch();
    }
}

impl Auditable for Transfer {
    fn audit(&self) -> (audit: &AuditMetadata)
        ensures
            *audit == self.audit,
    {
        &self.audit
    }

    fn audit_mut(&mut self) -> (audit: &mut AuditMetadata)
        ensures
            *audit == old(self).audit,
            *final(self) == (Transfer { audit: *final(audit), ..*old(self) }),
    {
        &mut self.audit
    }
}

} // verus!
