//! Synchronisation of the language dictionary.

use vstd::prelude::*;

use super::models::IgdbLanguage;
use crate::sql::{integer, text, SqlParam, SqlValue};

verus! {

/// The IGDB endpoint of languages.
pub const LANGUAGES_ENDPOINT: &'static str = "languages";

/// The fields asked of each language.
pub const LANGUAGES_FIELDS: &'static str = "name, updated_at";

/// The table that holds the languages.
pub const LANGUAGES_TABLE: &'static str = "languages";

/// The statement that creates the language table.
pub const LANGUAGES_TABLE_SQL: &'static str = "CREATE TABLE IF NOT EXISTS languages (
        id INTEGER PRIMARY KEY,
        name TEXT NOT NULL,
        updated_at INTEGER NOT NULL
    );";

/// The statement that stores one language, replacing an older copy.
pub const LANGUAGES_INSERT_SQL: &'static str = "INSERT INTO languages (id, name, updated_at) 
        VALUES (?1, ?2, ?3)
        ON CONFLICT(id) DO UPDATE SET
            name = excluded.name,
            updated_at = excluded.updated_at;";

/// The parameters of the insert statement for a language.
pub fn language_row(item: &IgdbLanguage) -> (row: Vec<SqlValue>)
    ensures
        row.deep_view() == seq![
            SqlParam::Integer(item.id as int),
            SqlParam::Text(item.name@),
            SqlParam::Integer(item.updated_at as int),
        ],
{
    let row = vec![integer(item.id), text(&item.name), integer(item.updated_at)];
    assert(row.deep_view() =~= seq![
        SqlParam::Integer(item.id as int),
        SqlParam::Text(item.name@),
        SqlParam::Integer(item.updated_at as int),
    ]);
    row
}

} // verus!
