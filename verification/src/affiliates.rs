pub mod state;
pub mod register_affiliate_account;
pub mod redeem_reward;
pub mod close_affiliate_account;
