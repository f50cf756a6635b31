//! The state that the user interface keeps across pages.

use vstd::prelude::*;

use std::collections::HashMap;

use crate::model::AudioPlayback;

verus! {

/// The addresses of the sounds fetched so far, by what they are played for.
#[derive(Debug)]
pub struct FrontendStore {
    pub cached_sounds: HashMap<AudioPlayback, String>,
}

impl Default for FrontendStore {
    /// A store that holds no sounds yet.
    fn default() -> (r: Self)
        ensures
            r.cached_sounds@.len() == 0,
    {
        FrontendStore { cached_sounds: HashMap::new() }
    }
}

} // verus!
