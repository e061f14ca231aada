pub mod account;
pub mod account_laws;
pub mod limit_laws;
pub mod order;
pub mod order_laws;
pub mod position;
pub mod position_laws;
pub mod price;
pub mod types;
