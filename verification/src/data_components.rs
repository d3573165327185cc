//! Table factories and write-back controllers, one module per backend.

pub mod mysql;
pub mod postgres;
