//! The shapes of inbound requests.

use vstd::prelude::*;
use crate::wallet::WalletStatus;

verus! {

#[derive(Debug, Clone)]
pub struct Request {
    pub id: Option<i32>,
    pub email: Option<String>,
    pub name: Option<String>,
    pub status: Option<WalletStatus>,
}

#[derive(Debug, Clone, Copy)]
pub struct TransferRequest {
    pub from_id: i32,
    pub to_id: i32,
    pub amount: i64,
}

} // verus!
