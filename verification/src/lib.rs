//! The rules of a gateway that trades on several exchanges: its instruments, orders, positions and
//! accounts, what it sends to each exchange and how it reads what comes back.

pub mod config;
pub mod decimal;
pub mod decimal_laws;
pub mod error_laws;
pub mod errors;
pub mod exchanges;
pub mod fill_laws;
pub mod http;
pub mod ids;
pub mod kinds;
pub mod manager;
pub mod number_laws;
pub mod orders;
pub mod registry;
pub mod table;
pub mod text;
pub mod time;
pub mod types;
pub mod ws;
pub mod zmq;
