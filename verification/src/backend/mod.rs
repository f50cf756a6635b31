pub mod user;
pub mod database;
