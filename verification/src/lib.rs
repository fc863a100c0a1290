pub mod models;
pub mod uuid_text;
pub mod database;
pub mod api;
pub mod evm;
pub mod solana_plan;
pub mod cors;
pub mod laws;

