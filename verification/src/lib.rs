//! Wallet ledger and transfer engine: per-user balances that never go
//! negative, and transfers that apply both legs or neither.
//!
//! Money is counted in whole minor units (`i64`); instants are milliseconds
//! since the Unix epoch (`i64`).

pub mod base;
pub mod clock;
pub mod dto;
pub mod handler;
pub mod http_client;
pub mod memory;
pub mod receipt;
pub mod repository;
pub mod state;
pub mod text;
pub mod transfer;
pub mod usecase;
pub mod user;
pub mod user_gateway;
pub mod wallet;
