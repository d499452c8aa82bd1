//! What the running service holds: its settings and its orchestrator.

use vstd::prelude::*;
use crate::repository::WalletProvider;
use crate::usecase::Usecase;

verus! {

#[derive(Debug, Default, Clone)]
pub struct AppConfig {
    pub db_host: String,
    pub db_user: String,
    pub db_pwd: String,
    pub log_format: String,
    pub log_level: String,
    pub user_host: String,
    pub transfer_host: String,
    pub http_timeout_seconds: u64,
    pub http_client_retry_attempts: u32,
}

#[derive(Clone)]
pub struct AppState<R: WalletProvider> {
    pub config: AppConfig,
    pub usecase: Usecase<R>,
}

} // verus!
