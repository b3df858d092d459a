pub mod add_pill_to_course_command;
pub mod add_pill_to_course_command_handler;

pub use add_pill_to_course_command::AddPillToCourseCommand;
pub use add_pill_to_course_command_handler::AddPillToCourseCommandHandler;
