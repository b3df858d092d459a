pub mod find_all_courses_query_handler;
pub mod find_course_query_handler;
pub mod find_course_with_pills_query_handler;

pub use find_all_courses_query_handler::{FindAllCoursesQuery, FindAllCoursesQueryHandler};
pub use find_course_query_handler::{FindCourseQuery, FindCourseQueryHandler};
pub use find_course_with_pills_query_handler::{
    CourseWithPills, FindCourseWithPillsQuery, FindCourseWithPillsQueryHandler,
};
