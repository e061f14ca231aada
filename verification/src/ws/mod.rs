pub mod laws;
pub mod supervisor;
