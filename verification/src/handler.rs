//! What goes back to the caller of an endpoint: a status and an envelope.

use vstd::prelude::*;
use vstd::string::StringExecFns;
use crate::base::BaseResponse;
use crate::repository::{ledger_error_text, LedgerError};
use crate::wallet::Wallet;

verus! {

/// The status of an answer that carries what was asked for.
pub const STATUS_OK: u16 = 200;

/// The status of an answer that carries a refusal.
pub const STATUS_INTERNAL_SERVER_ERROR: u16 = 500;

/// The answer to a request for a wallet, be it an inquiry or a transfer: the
/// wallet under `Success`, or the refusal in words and no data.
pub fn wallet_response(outcome: Result<Wallet, LedgerError>) -> (answer: (
    u16,
    BaseResponse<Wallet>,
))
    ensures
        answer.1.trace_id@ == Seq::<char>::empty(),
        match outcome {
            Ok(wallet) => {
                &&& answer.0 == STATUS_OK
                &&& answer.1.message@ == "Success"@
                &&& answer.1.data == Some(wallet)
            },
            Err(e) => {
                &&& answer.0 == STATUS_INTERNAL_SERVER_ERROR
                &&& answer.1.message@ == ledger_error_text(e)
                &&& answer.1.data is None
            },
        },
{
    match outcome {
        Ok(data) => (
            STATUS_OK,
            BaseResponse::new(String::new(), String::from_str("Success"), Some(data)),
        ),
        Err(e) => (
            STATUS_INTERNAL_SERVER_ERROR,
            BaseResponse::new(String::new(), e.message(), None),
        ),
    }
}

/// The answer to a request to delete a wallet: `true` under `Success`, or
/// the refusal in words and no data.
pub fn deletion_response(outcome: Result<(), LedgerError>) -> (answer: (u16, BaseResponse<bool>))
    ensures
        answer.1.trace_id@ == Seq::<char>::empty(),
        match outcome {
            Ok(_) => {
                &&& answer.0 == STATUS_OK
                &&& answer.1.message@ == "Success"@
                &&& answer.1.data == Some(true)
            },
            Err(e) => {
                &&& answer.0 == STATUS_INTERNAL_SERVER_ERROR
                &&& answer.1.message@ == ledger_error_text(e)
                &&& answer.1.data is None
            },
        },
{
    match outcome {
        Ok(_) => (
            STATUS_OK,
            BaseResponse::new(String::new(), String::from_str("Success"), Some(true)),
        ),
        Err(e) => (
            STATUS_INTERNAL_SERVER_ERROR,
            BaseResponse::new(String::new(), e.message(), None),
        ),
    }
}

} // verus!
