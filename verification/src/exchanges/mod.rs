pub mod account_laws;
pub mod aster;
pub mod binance;
pub mod bybit;
pub mod client_laws;
pub mod codec;
pub mod common;
pub mod fixtures;
pub mod listing_laws;
pub mod mock;
pub mod paper_laws;
pub mod reading_laws;
pub mod request_laws;
pub mod requests;
