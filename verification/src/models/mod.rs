pub mod article;
pub mod audio;
pub mod group;
pub mod money;
pub mod page;
pub mod transaction;

pub use audio::AudioPlayback;
pub use group::Group;
pub use page::{Page, PageRequestParams};
pub use transaction::{Transaction, TransactionDelta, TransactionType};
