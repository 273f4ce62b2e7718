pub mod ids;
pub mod pagination;
pub mod text;
pub mod cache;
pub mod jwt;
pub mod password;
