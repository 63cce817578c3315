pub mod account_meta;
pub mod amm;
pub mod addresses;
pub mod bytes;
pub mod cpi_common;
pub mod fund_account;
pub mod instructions;
pub mod jito_vault;
pub mod lookup_table;
pub mod market;
pub mod market_account;
pub mod math;
pub mod number;
pub mod pubkey;
pub mod stake_pool;
pub mod vault;
