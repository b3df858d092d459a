pub mod pill;
pub mod pills_repository;

pub use pill::Pill;
pub use pill::PillId;
pub use pill::PillView;
pub use pills_repository::{PillRepository, RepositoryError};
