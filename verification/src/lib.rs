pub mod error;
pub mod laws;
pub mod operation;
pub mod outside;
pub mod record;
pub mod store;
pub mod tables;
