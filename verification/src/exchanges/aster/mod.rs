pub mod auth;
pub mod client;
pub mod codec;
pub mod laws;
pub mod mappers;
pub mod types;
pub mod ws;
