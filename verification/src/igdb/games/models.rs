//! The cover of a game in the catalogue.

use vstd::prelude::*;

verus! {

/// The cover image of a game.
#[derive(Debug, Clone)]
pub struct IgdbGameCover {
    pub id: i64,
    pub url: String,
}

} // verus!
