pub mod create;

pub use create::{CreatePillCommand, CreatePillCommandHandler};
