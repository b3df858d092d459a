pub mod create_pill_command;
pub mod create_pill_command_handler;

pub use create_pill_command::CreatePillCommand;
pub use create_pill_command_handler::CreatePillCommandHandler;
