pub mod flow;
pub mod user_service;
pub mod read_flow;
pub mod post_service;
pub mod comment_service;
pub mod like_service;
pub mod tables;
