pub mod audio_playback;
pub mod create_transaction_error;
pub mod get_user_preferences_error;
pub mod group_id;
pub mod money;
pub mod page;
pub mod page_request_params;
pub mod page_response_params;
pub mod set_user_preferences_error;
pub mod split_cost_error;
pub mod transaction;
pub mod user_id;
pub mod user_preferences;

pub use audio_playback::AudioPlayback;
pub use create_transaction_error::CreateTransactionError;
pub use get_user_preferences_error::GetUserPreferencesError;
pub use group_id::GroupId;
pub use money::Money;
pub use page::Page;
pub use page_request_params::PageRequestParams;
pub use page_response_params::PageResponseParams;
pub use set_user_preferences_error::SetUserPreferencesError;
pub use split_cost_error::SplitCostError;
pub use transaction::{TransactionDelta, TransactionType};
pub use user_id::UserId;
pub use user_preferences::UserPreferences;

use vstd::prelude::*;

verus! {

/// The identifier of a row in the database.
pub type DatabaseId = i64;

} // verus!
