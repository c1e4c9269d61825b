pub mod buy_virtual_token;
pub mod sell_virtual_token;
pub mod burn_virtual_token;
pub mod claim_creator_fees;
pub mod close_user_burn_allowance;
pub mod close_virtual_token_account;
pub mod create_pool;
