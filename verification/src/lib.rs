//! A federation layer over structurally different SQL backends: the
//! connection capabilities, the statement shapes they issue, and the
//! transactional write-back protocol, with their contracts.

pub mod data_components;
pub mod dataconnector;
pub mod dbconnection;
pub mod mode;
pub mod params;
pub mod table_reference;
mod text;

pub use crate::dbconnection::DbConnectionPool;
pub use crate::mode::Mode;
