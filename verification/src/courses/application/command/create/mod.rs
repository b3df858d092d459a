pub mod create_course_command;
pub mod create_course_command_handler;

pub use create_course_command::CreateCourseCommand;
pub use create_course_command_handler::CreateCourseCommandHandler;
