pub mod show;
