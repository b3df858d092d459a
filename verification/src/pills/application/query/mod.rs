pub mod find_all_pills_query_handler;
pub mod find_pill_query_handler;

pub use find_all_pills_query_handler::{FindAllPillsQuery, FindAllPillsQueryHandler};
pub use find_pill_query_handler::{FindPillQuery, FindPillQueryHandler};
