pub mod create;
pub mod edit;
pub mod show;
