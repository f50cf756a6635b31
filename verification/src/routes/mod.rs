pub mod articles;
pub mod split_cost;
pub mod state;
pub mod user;
