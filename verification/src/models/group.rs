//! A group of users: the party on either side of a transaction.

use vstd::prelude::*;

use crate::backend::database::UserDB;
use crate::model::GroupId;

verus! {

/// A group with the users that belong to it. Every user has a group of its
/// own; money shared by several users goes through a group of them all.
#[derive(Clone, Debug)]
pub struct Group {
    pub id: GroupId,
    pub members: Vec<UserDB>,
}

} // verus!
