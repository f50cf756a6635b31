pub mod components;
pub mod create;
pub mod extra_transactions;
pub mod send_money;
pub mod show;
