//! The sounds that can be played for an article.

use vstd::prelude::*;

verus! {

/// A sound file, with its name and its path.
#[derive(Clone, Debug)]
pub struct ArticleSound {
    pub id: i64,
    pub name: String,
    pub path: String,
}

} // verus!
