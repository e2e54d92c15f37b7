pub mod delivery;
pub mod heights;
pub mod ibc_store;
pub mod keyed_map;
pub mod laws;
pub mod outside;
pub mod purpose_laws;
pub mod solana_store;
pub mod store_state;
pub mod transfer;
pub mod types;
