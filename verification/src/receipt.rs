//! The receipt of a completed transfer, as it is reported.

use vstd::prelude::*;
use crate::base::AuditMetadata;
use crate::transfer::TransferStatus;

verus! {

#[derive(Debug)]
pub struct Receipt {
    pub id: Option<i32>,
    pub transaction_id: String,
    pub user_email: String,
    pub amount: i64,
    pub status: TransferStatus,
    pub execution_time: String,
    pub audit: AuditMetadata,
}

} // verus!
