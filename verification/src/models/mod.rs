pub mod stamp;
pub mod user;
pub mod credential;
pub mod log;
