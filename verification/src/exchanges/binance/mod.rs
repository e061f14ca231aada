pub mod auth;
pub mod client;
pub mod laws;
pub mod mappers;
pub mod types;
pub mod ws;
