pub mod command;
pub mod query;

pub use command::{CreatePillCommand, CreatePillCommandHandler};
pub use query::{FindAllPillsQuery, FindAllPillsQueryHandler};
pub use query::{FindPillQuery, FindPillQueryHandler};

pub use crate::pills::domain::{PillRepository, RepositoryError};
