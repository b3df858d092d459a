pub mod add_pill;
pub mod create;

pub use create::{CreateCourseCommand, CreateCourseCommandHandler};

pub use add_pill::{AddPillToCourseCommand, AddPillToCourseCommandHandler};
