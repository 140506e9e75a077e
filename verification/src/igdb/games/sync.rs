//! Synchronisation of the game catalogue.

use vstd::prelude::*;

verus! {

/// The IGDB endpoint of games.
pub const GAMES_ENDPOINT: &'static str = "games";

/// The fields asked of each game.
pub const GAMES_FIELDS: &'static str = "name, cover.image_id, first_release_date, rating, aggregated_rating, updated_at";

/// The table that holds the games.
pub const GAMES_TABLE: &'static str = "games";

/// The statement that creates the game table.
pub const GAMES_TABLE_SQL: &'static str = "CREATE TABLE IF NOT EXISTS games (
        game_id INTEGER PRIMARY KEY,
        name TEXT NOT NULL,
        cover_url TEXT,
        release_date INTEGER,
        rating REAL,
        aggregated_rating REAL,
        summary TEXT,
        storyline TEXT,
        updated_at INTEGER NOT NULL
    );";

/// The statement that stores one game, replacing an older copy.
pub const GAMES_INSERT_SQL: &'static str = "INSERT INTO games (game_id, name, cover_url, release_date, rating, aggregated_rating, updated_at)
        VALUES (?1, ?2, ?3, ?4, ?5, ?6, ?7) 
        ON CONFLICT(game_id) DO UPDATE SET
            name = excluded.name,
            cover_url = excluded.cover_url,
            release_date = excluded.release_date,
            rating = excluded.rating,
            aggregated_rating = excluded.aggregated_rating,
            updated_at = excluded.updated_at;";

/// The filter of the games worth keeping: on the chosen stores, with a
/// cover, and of the chosen kinds.
pub const GAMES_EXTRA_WHERE: &'static str = "external_games.external_game_source = (1, 11) & cover.image_id != null & game_type = (0,8,9)";

/// The columns added to the game table after it was first created, with
/// their types.
pub const GAMES_ADDED_COLUMNS: [(&'static str, &'static str); 2] = [("summary", "TEXT"), ("storyline", "TEXT")];

} // verus!
