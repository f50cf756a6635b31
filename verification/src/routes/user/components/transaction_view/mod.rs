pub mod server;
pub mod view;
