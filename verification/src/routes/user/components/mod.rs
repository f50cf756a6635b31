pub mod scan_input;
pub mod transaction_view;
