pub mod command;
pub mod query;

pub use command::{AddPillToCourseCommand, AddPillToCourseCommandHandler};
pub use command::{CreateCourseCommand, CreateCourseCommandHandler};

pub use query::{FindAllCoursesQuery, FindAllCoursesQueryHandler};
pub use query::{FindCourseQuery, FindCourseQueryHandler};
pub use query::{CourseWithPills, FindCourseWithPillsQuery, FindCourseWithPillsQueryHandler};

pub use crate::courses::domain::CourseRepositoryError;
