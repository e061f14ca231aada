pub mod client;
pub mod discovery;
pub mod frames;
pub mod laws;
pub mod protocol;
pub mod router;
pub mod server;
pub mod strategy;
