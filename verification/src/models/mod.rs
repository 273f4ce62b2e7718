pub mod comment_model;
pub mod like_model;
pub mod post_model;
pub mod user_model;
