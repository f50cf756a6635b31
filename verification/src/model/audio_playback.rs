//! The occasions on which the user interface plays a sound.

use vstd::prelude::*;

use crate::model::Money;

verus! {

/// What a sound is played for.
#[derive(Clone, Copy, Debug, PartialEq, Eq, Structural, Hash)]
pub enum AudioPlayback {
    Failed,
    Undo,
    Deposit(Money),
    Sent(Money),
    Withdraw(Money),
    Bought(i64),
}

} // verus!
