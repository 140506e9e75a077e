//! Synchronisation of the genre dictionary.

use vstd::prelude::*;

use super::models::IgdbGenre;
use crate::sql::{integer, text, SqlParam, SqlValue};

verus! {

/// The IGDB endpoint of genres.
pub const GENRES_ENDPOINT: &'static str = "genres";

/// The fields asked of each genre.
pub const GENRES_FIELDS: &'static str = "name, slug, updated_at";

/// The table that holds the genres.
pub const GENRES_TABLE: &'static str = "genres";

/// The statement that creates the genre table.
pub const GENRES_TABLE_SQL: &'static str = "CREATE TABLE IF NOT EXISTS genres (
        id INTEGER PRIMARY KEY,
        name TEXT NOT NULL,
        slug TEXT NOT NULL,
        updated_at INTEGER NOT NULL
    );";

/// The statement that stores one genre, replacing an older copy.
pub const GENRES_INSERT_SQL: &'static str = "INSERT INTO genres (id, name, slug, updated_at) 
        VALUES (?1, ?2, ?3, ?4)
        ON CONFLICT(id) DO UPDATE SET
            name = excluded.name,
            slug = excluded.slug,
            updated_at = excluded.updated_at;";

/// The parameters of the insert statement for a genre.
pub fn genre_row(item: &IgdbGenre) -> (row: Vec<SqlValue>)
    ensures
        row.deep_view() == seq![
            SqlParam::Integer(item.id as int),
            SqlParam::Text(item.name@),
            SqlParam::Text(item.slug@),
            SqlParam::Integer(item.updated_at as int),
        ],
{
    let row = vec![integer(item.id), text(&item.name), text(&item.slug), integer(item.updated_at)];
    assert(row.deep_view() =~= seq![
        SqlParam::Integer(item.id as int),
        SqlParam::Text(item.name@),
        SqlParam::Text(item.slug@),
        SqlParam::Integer(item.updated_at as int),
    ]);
    row
}

} // verus!
