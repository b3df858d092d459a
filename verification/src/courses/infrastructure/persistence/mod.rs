pub mod course_document;
pub mod in_memory_course_repository;

pub use course_document::CourseDocument;
pub use in_memory_course_repository::InMemoryCourseRepository;
