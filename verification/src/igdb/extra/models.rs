//! Records of the extra game data: media, external entries and videos.

use vstd::prelude::*;

verus! {

/// The extra data of a game.
#[derive(Debug, Clone)]
pub struct IgdbGameExtra {
    pub id: i64,
    pub name: String,
    pub screenshots: Vec<IgdbUrl>,
    pub artworks: Vec<IgdbUrl>,
    pub external_games: Vec<IgdbExternalGame>,
    pub websites: Vec<IgdbUrl>,
    pub videos: Vec<IgdbVideo>,
    pub summary: Option<String>,
    pub storyline: Option<String>,
    pub updated_at: i64,
}

/// A record that carries an address: a screenshot, an artwork or a website.
#[derive(Debug, Clone)]
pub struct IgdbUrl {
    pub id: i64,
    pub url: String,
}

/// An entry of the game in an external catalogue.
#[derive(Debug, Clone)]
pub struct IgdbExternalGame {
    pub id: i64,
    pub external_game_source: i64,
}

/// A video of the game.
#[derive(Debug, Clone)]
pub struct IgdbVideo {
    pub id: i64,
    pub video_id: String,
}

} // verus!
