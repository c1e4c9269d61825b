pub mod buy_virtual_token;
pub mod sell_virtual_token;
pub mod burn_virtual_token;
pub mod claim_platform_fees;
pub mod close_user_burn_allowance;
pub mod close_virtual_token_account;
pub mod create_pool;
pub mod initialize_platform_config;
pub mod initialize_user_burn_allowance;
pub mod update_platform_config;
