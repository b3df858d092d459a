pub mod course;
pub mod course_repository;

pub use course::Course;
pub use course::CourseId;
pub use course::CourseView;
pub use course::Difficulty;
pub use course::Price;
pub use course_repository::{CourseRepository, CourseRepositoryError};
