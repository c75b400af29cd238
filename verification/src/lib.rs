//! Runtime driver abstraction for a database client: a write-once registry of
//! backend drivers, URL-scheme based driver selection, a type-erased value
//! model shared by all backends, and the argument buffer that carries bound
//! query parameters.

pub mod arguments;
pub mod connection;
pub mod driver;
pub mod error;
pub mod options;
pub mod value;
