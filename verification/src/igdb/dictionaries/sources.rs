//! Synchronisation of the external game source dictionary.

use vstd::prelude::*;

use super::models::IgdbSource;
use crate::sql::{integer, text, SqlParam, SqlValue};

verus! {

/// The IGDB endpoint of external game sources.
pub const SOURCES_ENDPOINT: &'static str = "external_game_sources";

/// The fields asked of each source.
pub const SOURCES_FIELDS: &'static str = "name, updated_at";

/// The table that holds the sources.
pub const SOURCES_TABLE: &'static str = "sources";

/// The statement that creates the source table.
pub const SOURCES_TABLE_SQL: &'static str = "CREATE TABLE IF NOT EXISTS sources (
        id INTEGER PRIMARY KEY,
        name TEXT NOT NULL,
        updated_at INTEGER NOT NULL
    );";

/// The statement that stores one source, replacing an older copy.
pub const SOURCES_INSERT_SQL: &'static str = "INSERT INTO sources (id, name, updated_at) 
        VALUES (?1, ?2, ?3)
        ON CONFLICT(id) DO UPDATE SET
            name = excluded.name,
            updated_at = excluded.updated_at;";

/// The parameters of the insert statement for a source.
pub fn source_row(item: &IgdbSource) -> (row: Vec<SqlValue>)
    ensures
        row.deep_view() == seq![
            SqlParam::Integer(item.id as int),
            SqlParam::Text(item.name@),
            SqlParam::Integer(item.updated_at as int),
        ],
{
    let row = vec![integer(item.id), text(&item.name), integer(item.updated_at)];
    assert(row.deep_view() =~= seq![
        SqlParam::Integer(item.id as int),
        SqlParam::Text(item.name@),
        SqlParam::Integer(item.updated_at as int),
    ]);
    row
}

} // verus!
