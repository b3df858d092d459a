pub mod error;

pub use error::DatabaseError;
