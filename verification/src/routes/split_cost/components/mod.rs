pub mod single_user_selection;
